use maestro_tui::diff_viewer::{changed_files, empty_state_lines, files_by_mtime, parse_diff, DiffViewer};
use maestro_tui::style::{Line, Span};
use maestro_tui::theme;

fn create_test_viewer() -> DiffViewer {
    DiffViewer::new("/tmp/test".to_string())
}

fn text_line(s: &str) -> Line {
    Line::from_span(Span::raw(s))
}

#[test]
fn test_parse_diff_file_header() {
    let lines = parse_diff("diff --git a/src/main.rs b/src/main.rs");
    assert_eq!(lines.len(), 1);
    let span = &lines[0].spans[0];
    assert!(span.content.contains("diff --git"));
    assert_eq!(span.style.fg, Some(theme::cyan()));
    assert!(span.style.add_modifier.bold);
}

#[test]
fn test_parse_diff_file_paths() {
    let lines = parse_diff("--- a/src/main.rs\n+++ b/src/main.rs");
    assert_eq!(lines.len(), 2);
    assert_eq!(lines[0].spans[0].style.fg, Some(theme::tx_3()));
    assert_eq!(lines[1].spans[0].style.fg, Some(theme::tx_3()));
}

#[test]
fn test_parse_diff_hunk_header() {
    let lines = parse_diff("@@ -10,5 +10,7 @@ fn main() {");
    assert_eq!(lines.len(), 1);
    assert_eq!(lines[0].spans[0].style.fg, Some(theme::cyan()));
}

#[test]
fn test_parse_diff_additions() {
    let lines = parse_diff("+    let x = 5;");
    assert_eq!(lines.len(), 1);
    assert_eq!(lines[0].spans[0].style.fg, Some(theme::green()));
}

#[test]
fn test_parse_diff_deletions() {
    let lines = parse_diff("-    let y = 10;");
    assert_eq!(lines.len(), 1);
    assert_eq!(lines[0].spans[0].style.fg, Some(theme::red()));
}

#[test]
fn test_parse_diff_context_lines() {
    let lines = parse_diff("     println!(\"Hello\");");
    assert_eq!(lines.len(), 1);
    assert_eq!(lines[0].spans[0].style.fg, Some(theme::tx()));
}

#[test]
fn test_parse_diff_full_diff() {
    let diff = r#"diff --git a/src/main.rs b/src/main.rs
--- a/src/main.rs
+++ b/src/main.rs
@@ -1,3 +1,4 @@
 fn main() {
+    let x = 5;
-    let y = 10;
     println!("Hello");
 }"#;
    let lines = parse_diff(diff);

    assert_eq!(lines.len(), 9);
    assert_eq!(lines[0].spans[0].style.fg, Some(theme::cyan()));
    assert_eq!(lines[1].spans[0].style.fg, Some(theme::tx_3()));
    assert_eq!(lines[2].spans[0].style.fg, Some(theme::tx_3()));
    assert_eq!(lines[3].spans[0].style.fg, Some(theme::cyan()));
    assert_eq!(lines[4].spans[0].style.fg, Some(theme::tx()));
    assert_eq!(lines[5].spans[0].style.fg, Some(theme::green()));
    assert_eq!(lines[6].spans[0].style.fg, Some(theme::red()));
}

#[test]
fn test_parse_diff_empty() {
    let lines = parse_diff("");
    assert_eq!(lines.len(), 0);
}

#[test]
fn test_scroll_down() {
    let mut viewer = create_test_viewer();
    viewer.set_lines(vec![
        text_line("line 1"),
        text_line("line 2"),
        text_line("line 3"),
        text_line("line 4"),
        text_line("line 5"),
    ]);
    assert_eq!(viewer.scroll_offset(), 0);

    viewer.scroll(2);
    assert_eq!(viewer.scroll_offset(), 2);

    viewer.scroll(1);
    assert_eq!(viewer.scroll_offset(), 3);
}

#[test]
fn test_scroll_up() {
    let mut viewer = create_test_viewer();
    viewer.set_lines(vec![text_line("line 1"), text_line("line 2"), text_line("line 3")]);
    viewer.set_scroll_offset(2);

    viewer.scroll(-1);
    assert_eq!(viewer.scroll_offset(), 1);

    viewer.scroll(-1);
    assert_eq!(viewer.scroll_offset(), 0);
}

#[test]
fn test_scroll_up_clamps_at_zero() {
    let mut viewer = create_test_viewer();
    viewer.set_lines(vec![text_line("line 1")]);
    viewer.set_scroll_offset(1);

    viewer.scroll(-10);
    assert_eq!(viewer.scroll_offset(), 0);
}

#[test]
fn test_scroll_down_clamps_at_max() {
    let mut viewer = create_test_viewer();
    viewer.set_lines(vec![text_line("line 1"), text_line("line 2"), text_line("line 3")]);

    viewer.scroll(100);
    assert_eq!(viewer.scroll_offset(), 2);
}

#[test]
fn test_scroll_empty_lines() {
    let mut viewer = create_test_viewer();
    viewer.scroll(5);
    assert_eq!(viewer.scroll_offset(), 0);

    viewer.scroll(-5);
    assert_eq!(viewer.scroll_offset(), 0);
}

#[test]
fn test_widget_returns_visible_lines() {
    let mut viewer = create_test_viewer();
    viewer.set_lines(vec![
        text_line("line 1"),
        text_line("line 2"),
        text_line("line 3"),
        text_line("line 4"),
        text_line("line 5"),
    ]);
    let shown = viewer.widget(3);
    assert_eq!(shown, vec![text_line("line 1"), text_line("line 2"), text_line("line 3")]);
}

#[test]
fn test_widget_with_scroll_offset() {
    let mut viewer = create_test_viewer();
    viewer.set_lines(vec![
        text_line("line 1"),
        text_line("line 2"),
        text_line("line 3"),
        text_line("line 4"),
        text_line("line 5"),
    ]);
    viewer.set_scroll_offset(2);
    let shown = viewer.widget(2);
    assert_eq!(shown, vec![text_line("line 3"), text_line("line 4")]);
}

#[test]
fn test_widget_scroll_beyond_content() {
    let mut viewer = create_test_viewer();
    viewer.set_lines(vec![text_line("line 1"), text_line("line 2")]);
    viewer.set_scroll_offset(10);
    assert!(viewer.widget(5).is_empty());
}

#[test]
fn test_widget_empty_lines() {
    let viewer = create_test_viewer();
    assert!(viewer.widget(10).is_empty());
}

#[test]
fn test_empty_state_lines_content() {
    let lines = empty_state_lines();
    assert_eq!(lines.len(), 6);
    let all_text: String = lines
        .iter()
        .flat_map(|l| l.spans.iter())
        .map(|s| s.content.as_str())
        .collect();
    assert!(all_text.contains("No uncommitted changes"));
    assert!(all_text.contains("Changes will appear here"));
}

#[test]
fn test_empty_state_lines_styling() {
    let lines = empty_state_lines();
    assert_eq!(lines[2].spans[0].style.fg, Some(theme::tx_2()));
    assert_eq!(lines[4].spans[0].style.fg, Some(theme::tx_3()));
    assert_eq!(lines[5].spans[0].style.fg, Some(theme::tx_3()));
}

#[test]
fn test_total_lines_updated_after_set() {
    let mut viewer = create_test_viewer();
    assert_eq!(viewer.total_lines(), 0);
    viewer.set_lines(vec![text_line("a"), text_line("b"), text_line("c")]);
    assert_eq!(viewer.total_lines(), 3);
}

// --- further cases ---

#[test]
fn refresh_with_no_files_shows_empty_state() {
    let mut viewer = create_test_viewer();
    assert!(viewer.is_stale(7));
    assert!(viewer.refresh(7, &Vec::new()));
    assert_eq!(viewer.widget(100), empty_state_lines());
    assert_eq!(viewer.total_lines(), 6);
    assert!(!viewer.is_stale(7));
    assert!(!viewer.refresh(7, &vec!["+x".to_string()]));
}

#[test]
fn refresh_joins_file_diffs_with_blank_lines() {
    let mut viewer = create_test_viewer();
    assert!(viewer.refresh(1, &vec!["+a\n-b".to_string(), " c".to_string()]));
    let shown = viewer.widget(100);
    assert_eq!(shown.len(), 5);
    assert_eq!(shown[0].spans[0].content, "+a");
    assert_eq!(shown[0].spans[0].style.fg, Some(theme::green()));
    assert_eq!(shown[1].spans[0].style.fg, Some(theme::red()));
    assert!(shown[2].spans.is_empty());
    assert_eq!(shown[3].spans[0].content, " c");
    assert!(shown[4].spans.is_empty());
    assert_eq!(viewer.worktree_path(), "/tmp/test");
}

#[test]
fn changed_files_skips_blank_lines() {
    assert_eq!(
        changed_files("src/a.rs\n\nsrc/b.rs\r\n"),
        vec!["src/a.rs".to_string(), "src/b.rs".to_string()]
    );
    assert!(changed_files("").is_empty());
}

#[test]
fn files_sorted_oldest_first_and_stable() {
    let files = vec![
        ("c".to_string(), 30i128),
        ("a".to_string(), 10),
        ("b1".to_string(), 20),
        ("b2".to_string(), 20),
        ("old".to_string(), -5),
    ];
    assert_eq!(
        files_by_mtime(files),
        vec!["old".to_string(), "a".to_string(), "b1".to_string(), "b2".to_string(), "c".to_string()]
    );
    assert!(files_by_mtime(Vec::new()).is_empty());
}

#[test]
fn files_with_same_time_keep_their_order_anywhere() {
    let files = vec![
        ("c".to_string(), 5),
        ("a".to_string(), 1),
        ("d".to_string(), 5),
        ("b".to_string(), 1),
        ("e".to_string(), 3),
    ];
    assert_eq!(files_by_mtime(files), vec!["a", "b", "e", "c", "d"]);
}
