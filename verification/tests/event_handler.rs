use std::collections::HashMap;

use maestro_tui::app::{App, ControlPanelPane, Dialog, Pane};
use maestro_tui::event_handler::{
    bd_ready_lines, delete_dialog_for, find_tab_for_branch, process_control_panel_key,
    handover_bytes, hand_over_merge, open_created_worktree, process_dialog_key, process_key, process_mouse_click, process_terminal_key, trigger_delete_worktree,
    KeyAction,
};
use maestro_tui::input::{
    KeyCode, KeyEvent, KeyModifiers, MouseButton, MouseEvent, MouseEventKind,
};
use maestro_tui::layout::Rect;
use maestro_tui::terminal_pair::{PaneTerminal, SpawnRequest};
use maestro_tui::worktree::{GitBackend, GitOutput, RemoveWarning, Worktree, WorktreeError, WorktreeManager};

struct RecTerm {
    written: Vec<Vec<u8>>,
}

impl PaneTerminal for RecTerm {
    fn spawn(_request: &SpawnRequest) -> Option<Self> {
        Some(RecTerm { written: Vec::new() })
    }

    fn write(&mut self, data: &[u8]) -> Result<(), String> {
        self.written.push(data.to_vec());
        Ok(())
    }

    fn resize(&mut self, _cols: u16, _rows: u16) {}

    fn scroll(&mut self, _lines: i32) {}
}

struct ScriptedGit {
    responses: HashMap<String, GitOutput>,
}


impl ScriptedGit {
    fn new(root: &str) -> Self {
        let mut g = ScriptedGit { responses: HashMap::new() };
        g.answer(&["rev-parse", "--show-toplevel"], &format!("{}\n", root));
        g
    }

    fn answer(&mut self, args: &[&str], stdout: &str) {
        self.responses.insert(
            args.join(" "),
            GitOutput { success: true, stdout: stdout.to_string(), stderr: String::new() },
        );
    }
}

impl GitBackend for ScriptedGit {
    fn execute(&self, args: &[&str]) -> Result<GitOutput, String> {
        Ok(self.responses.get(&args.join(" ")).cloned().unwrap_or(GitOutput {
            success: true,
            stdout: String::new(),
            stderr: String::new(),
        }))
    }

    fn execute_in_dir(&self, _dir: &str, args: &[&str]) -> Result<GitOutput, String> {
        self.execute(args)
    }
}

fn key(code: KeyCode) -> KeyEvent {
    KeyEvent::new(code, KeyModifiers::empty())
}

fn alt(code: KeyCode) -> KeyEvent {
    KeyEvent::new(code, KeyModifiers::alt())
}

fn no_manager() -> Option<WorktreeManager<ScriptedGit>> {
    None
}

fn click(column: u16, row: u16) -> MouseEvent {
    MouseEvent {
        kind: MouseEventKind::Down(MouseButton::Left),
        column,
        row,
        modifiers: KeyModifiers::empty(),
    }
}

#[test]
fn bd_ready_output_split_into_lines() {
    assert_eq!(
        bd_ready_lines("Ready work\n[P0] fix\r\n\nlast"),
        vec!["Ready work".to_string(), "[P0] fix".to_string(), String::new(), "last".to_string()]
    );
    assert!(bd_ready_lines("").is_empty());
}

#[test]
fn find_tab_by_branch() {
    let mut app: App<RecTerm> = App::new();
    app.add_worktree_tab("/a".to_string(), "a".to_string(), String::new());
    app.add_worktree_tab("/b".to_string(), "b".to_string(), String::new());
    assert_eq!(find_tab_for_branch(&app, "b"), Some(2));
    assert_eq!(find_tab_for_branch(&app, "c"), None);
}

#[test]
fn terminal_key_quits_or_executes() {
    let mut app: App<RecTerm> = App::new();
    app.add_worktree_tab("/a".to_string(), "a".to_string(), String::new());
    assert_eq!(process_terminal_key(&mut app, &alt(KeyCode::Char('q')), &no_manager()), KeyAction::Quit);
    assert_eq!(process_terminal_key(&mut app, &alt(KeyCode::Char('0')), &no_manager()), KeyAction::Continue);
    assert_eq!(app.active_tab, 0);
}

#[test]
fn dialog_cancel_and_uncommitted_confirm_close() {
    let mut app: App<RecTerm> = App::new();
    app.dialog = Dialog::ConfirmDelete { branch: "x".to_string(), unmerged: false };
    process_dialog_key(&mut app, &key(KeyCode::Char('n')), &no_manager());
    assert_eq!(app.dialog, Dialog::Hidden);

    app.dialog = Dialog::UncommittedChanges { branch: "x".to_string() };
    process_dialog_key(&mut app, &key(KeyCode::Char('z')), &no_manager());
    assert_eq!(app.dialog, Dialog::UncommittedChanges { branch: "x".to_string() });
    process_dialog_key(&mut app, &key(KeyCode::Enter), &no_manager());
    assert_eq!(app.dialog, Dialog::Hidden);
}

#[test]
fn confirm_delete_removes_worktree_and_tab() {
    let mut git = ScriptedGit::new("/home/u/p");
    git.answer(
        &["worktree", "list", "--porcelain"],
        "worktree /home/u/p\nbranch refs/heads/main\n\nworktree /home/u/p.feat\nbranch refs/heads/feat\n",
    );
    let manager = Some(WorktreeManager::with_backend(git).unwrap());
    let mut app: App<RecTerm> = App::new();
    app.add_worktree_tab("/home/u/p.feat".to_string(), "feat".to_string(), String::new());
    app.dialog = Dialog::ConfirmDelete { branch: "feat".to_string(), unmerged: true };
    process_dialog_key(&mut app, &key(KeyCode::Char('y')), &manager);
    assert_eq!(app.dialog, Dialog::Hidden);
    assert_eq!(app.tabs.len(), 1);
}

#[test]
fn delete_dialog_follows_warnings() {
    assert_eq!(
        delete_dialog_for("b", &vec![RemoveWarning::NotMerged { branch: "b".to_string() }]),
        Dialog::ConfirmDelete { branch: "b".to_string(), unmerged: true }
    );
    assert_eq!(
        delete_dialog_for(
            "b",
            &vec![RemoveWarning::NotMerged { branch: "b".to_string() }, RemoveWarning::UncommittedChanges]
        ),
        Dialog::UncommittedChanges { branch: "b".to_string() }
    );
    assert_eq!(
        delete_dialog_for("b", &Vec::new()),
        Dialog::ConfirmDelete { branch: "b".to_string(), unmerged: false }
    );
}

#[test]
fn trigger_delete_skips_main_branch() {
    let git = ScriptedGit::new("/home/u/p");
    let manager = Some(WorktreeManager::with_backend(git).unwrap());
    let mut app: App<RecTerm> = App::new();
    trigger_delete_worktree(&mut app, &manager, "main");
    assert_eq!(app.dialog, Dialog::Hidden);
}

#[test]
fn control_panel_keys_edit_prompt_and_switch_pane() {
    let mut app: App<RecTerm> = App::new();
    assert_eq!(process_control_panel_key(&mut app, &key(KeyCode::Char('h')), &no_manager()), KeyAction::Continue);
    assert_eq!(process_control_panel_key(&mut app, &key(KeyCode::Char('i')), &no_manager()), KeyAction::Continue);
    assert_eq!(app.get_control_panel_input(), Some("hi"));
    process_control_panel_key(&mut app, &key(KeyCode::Backspace), &no_manager());
    assert_eq!(app.get_control_panel_input(), Some("h"));

    assert_eq!(process_control_panel_key(&mut app, &alt(KeyCode::Char('b')), &no_manager()), KeyAction::ReloadBdReady);
    assert_eq!(process_control_panel_key(&mut app, &alt(KeyCode::Char('q')), &no_manager()), KeyAction::Quit);

    process_control_panel_key(&mut app, &alt(KeyCode::Char('l')), &no_manager());
    assert_eq!(app.current_tab().control_panel_pane(), ControlPanelPane::Claude);
    process_control_panel_key(&mut app, &alt(KeyCode::Char('h')), &no_manager());
    assert_eq!(app.current_tab().control_panel_pane(), ControlPanelPane::Content);
}

#[test]
fn enter_with_prompt_creates_worktree_tab() {
    let mut git = ScriptedGit::new("/home/u/proj");
    git.answer(&["worktree", "add", "-b", "add-login", "/home/u/proj.add-login"], "");
    let manager = Some(WorktreeManager::with_backend(git).unwrap());
    let mut app: App<RecTerm> = App::new();
    for c in "Add login".chars() {
        process_control_panel_key(&mut app, &key(KeyCode::Char(c)), &manager);
    }
    process_control_panel_key(&mut app, &key(KeyCode::Enter), &manager);
    if std::path::Path::new("/home/u/proj.add-login").exists() {
        return;
    }
    assert_eq!(app.tabs.len(), 2);
    assert_eq!(app.active_tab, 1);
    assert_eq!(app.current_tab().branch(), Some("add-login"));
    assert_eq!(app.current_tab().worktree_prompt(), Some("Add login"));
    assert_eq!(app.current_tab().worktree_path(), Some(&"/home/u/proj.add-login".to_string()));
}

#[test]
fn mouse_clicks_switch_tabs_focus_and_quit() {
    let mut app: App<RecTerm> = App::new();
    app.add_worktree_tab("/a".to_string(), "ab".to_string(), String::new());
    let tab_area = Rect::new(0, 0, 80, 1);
    let main_area = Rect::new(0, 1, 80, 22);

    assert!(process_mouse_click(&mut app, &click(78, 0), tab_area, 77, main_area));
    assert!(!process_mouse_click(&mut app, &click(3, 0), tab_area, 77, main_area));
    assert_eq!(app.active_tab, 0);
    // control tab is 12 wide; "1 ab" plus padding is 7 wide
    assert!(!process_mouse_click(&mut app, &click(13, 0), tab_area, 77, main_area));
    assert_eq!(app.active_tab, 1);

    assert!(!process_mouse_click(&mut app, &click(60, 5), tab_area, 77, main_area));
    assert_eq!(app.current_tab().focused, Pane::Right);
    assert!(!process_mouse_click(&mut app, &click(10, 5), tab_area, 77, main_area));
    assert_eq!(app.current_tab().focused, Pane::Left);

    let mut moved = click(10, 5);
    moved.kind = MouseEventKind::Moved;
    assert!(!process_mouse_click(&mut app, &moved, tab_area, 77, main_area));
}

#[test]
fn theme_picker_moves_selects_and_cancels() {
    let mut app: App<RecTerm> = App::new();
    app.dialog = Dialog::ThemePicker { selected: 0 };
    process_dialog_key(&mut app, &key(KeyCode::Char('j')), &no_manager());
    process_dialog_key(&mut app, &key(KeyCode::Down), &no_manager());
    assert_eq!(app.dialog, Dialog::ThemePicker { selected: 2 });
    process_dialog_key(&mut app, &key(KeyCode::Char('k')), &no_manager());
    assert_eq!(app.dialog, Dialog::ThemePicker { selected: 1 });
    process_dialog_key(&mut app, &key(KeyCode::Up), &no_manager());
    process_dialog_key(&mut app, &key(KeyCode::Up), &no_manager());
    assert_eq!(app.dialog, Dialog::ThemePicker { selected: 0 });
    for _ in 0..10 {
        process_dialog_key(&mut app, &key(KeyCode::Down), &no_manager());
    }
    assert_eq!(app.dialog, Dialog::ThemePicker { selected: 4 });
    assert_eq!(app.theme, 0);
    process_dialog_key(&mut app, &key(KeyCode::Enter), &no_manager());
    assert_eq!(app.dialog, Dialog::Hidden);
    assert_eq!(app.theme, 4);

    app.dialog = Dialog::ThemePicker { selected: 1 };
    process_dialog_key(&mut app, &key(KeyCode::Esc), &no_manager());
    assert_eq!(app.dialog, Dialog::Hidden);
    assert_eq!(app.theme, 4);
}

#[test]
fn enter_with_blank_prompt_keeps_input_and_tabs() {
    let mut app: App<RecTerm> = App::new();
    for c in "   ".chars() {
        process_control_panel_key(&mut app, &key(KeyCode::Char(c)), &no_manager());
    }
    process_control_panel_key(&mut app, &key(KeyCode::Enter), &no_manager());
    assert_eq!(app.tabs.len(), 1);
    assert_eq!(app.get_control_panel_input(), Some(""));
}

#[test]
fn enter_with_prompt_and_no_manager_clears_input() {
    let mut app: App<RecTerm> = App::new();
    for c in "Fix bug".chars() {
        process_control_panel_key(&mut app, &key(KeyCode::Char(c)), &no_manager());
    }
    process_control_panel_key(&mut app, &key(KeyCode::Enter), &no_manager());
    assert_eq!(app.tabs.len(), 1);
    assert_eq!(app.active_tab, 0);
    assert_eq!(app.get_control_panel_input(), Some(""));
}

#[test]
fn enter_with_empty_input_on_main_worktree_opens_nothing() {
    let git = ScriptedGit::new("/home/u/p");
    let manager = Some(WorktreeManager::with_backend(git).unwrap());
    let mut app: App<RecTerm> = App::new();
    process_control_panel_key(&mut app, &key(KeyCode::Enter), &manager);
    assert_eq!(app.dialog, Dialog::Hidden);
    assert_eq!(app.tabs.len(), 1);
}

fn manager_with_feature() -> Option<WorktreeManager<ScriptedGit>> {
    let mut git = ScriptedGit::new("/home/u/p");
    git.answer(
        &["worktree", "list", "--porcelain"],
        "worktree /home/u/p\nbranch refs/heads/main\n\nworktree /home/u/p.feat\nbranch refs/heads/feat\n",
    );
    git.answer(&["branch", "--merged", "main"], "  main\n");
    Some(WorktreeManager::with_backend(git).unwrap())
}

#[test]
fn enter_on_selected_worktree_opens_action_dialog() {
    let manager = manager_with_feature();
    let mut app: App<RecTerm> = App::new();
    process_control_panel_key(&mut app, &key(KeyCode::Enter), &manager);
    assert_eq!(app.dialog, Dialog::Hidden);
    process_control_panel_key(&mut app, &key(KeyCode::Char('j')), &manager);
    assert_eq!(app.current_tab().selected_worktree(), 1);
    process_control_panel_key(&mut app, &key(KeyCode::Char('j')), &manager);
    assert_eq!(app.current_tab().selected_worktree(), 1);
    process_control_panel_key(&mut app, &key(KeyCode::Enter), &manager);
    assert_eq!(app.dialog, Dialog::WorktreeAction { branch: "feat".to_string() });
    assert_eq!(app.tabs.len(), 1);
}

#[test]
fn action_dialog_remove_opens_delete_dialog() {
    let manager = manager_with_feature();
    let mut app: App<RecTerm> = App::new();
    app.dialog = Dialog::WorktreeAction { branch: "feat".to_string() };
    process_dialog_key(&mut app, &key(KeyCode::Char('x')), &manager);
    assert_eq!(app.dialog, Dialog::WorktreeAction { branch: "feat".to_string() });
    process_dialog_key(&mut app, &key(KeyCode::Char('r')), &manager);
    assert_eq!(app.dialog, Dialog::ConfirmDelete { branch: "feat".to_string(), unmerged: true });

    app.dialog = Dialog::WorktreeAction { branch: "feat".to_string() };
    process_dialog_key(&mut app, &key(KeyCode::Esc), &manager);
    assert_eq!(app.dialog, Dialog::Hidden);
}

#[test]
fn action_dialog_merge_hands_prompt_to_assistant() {
    let manager = manager_with_feature();
    let mut app: App<RecTerm> = App::new();
    app.current_tab_mut().ensure_claude_terminal(Rect::new(0, 0, 40, 20));
    app.dialog = Dialog::WorktreeAction { branch: "feat".to_string() };
    process_dialog_key(&mut app, &key(KeyCode::Char('M')), &manager);
    assert_eq!(app.dialog, Dialog::Hidden);
    assert_eq!(app.current_tab().control_panel_pane(), ControlPanelPane::Claude);
    let written = &app.tabs[0].claude_terminal.as_ref().unwrap().written;
    assert_eq!(written.len(), 2);
    assert_eq!(
        String::from_utf8(written[0].clone()).unwrap(),
        "Rebase the branch 'feat' in the worktree at /home/u/p.feat onto the main branch, resolve any conflicts, and then merge it into the main branch."
    );
    assert_eq!(written[1], b"\r".to_vec());
}

#[test]
fn action_dialog_merge_without_manager_only_closes() {
    let mut app: App<RecTerm> = App::new();
    app.dialog = Dialog::WorktreeAction { branch: "feat".to_string() };
    process_dialog_key(&mut app, &key(KeyCode::Char('m')), &no_manager());
    assert_eq!(app.dialog, Dialog::Hidden);
    assert_eq!(app.current_tab().control_panel_pane(), ControlPanelPane::Content);
}

#[test]
fn keys_go_to_dialog_then_active_tab() {
    let mut app: App<RecTerm> = App::new();
    app.dialog = Dialog::ConfirmDelete { branch: "x".to_string(), unmerged: false };
    assert_eq!(process_key(&mut app, &alt(KeyCode::Char('q')), &no_manager()), KeyAction::Continue);
    assert_eq!(app.dialog, Dialog::ConfirmDelete { branch: "x".to_string(), unmerged: false });
    assert_eq!(process_key(&mut app, &key(KeyCode::Esc), &no_manager()), KeyAction::Continue);
    assert_eq!(app.dialog, Dialog::Hidden);
    assert_eq!(process_key(&mut app, &alt(KeyCode::Char('b')), &no_manager()), KeyAction::ReloadBdReady);
    process_key(&mut app, &key(KeyCode::Char('a')), &no_manager());
    assert_eq!(app.get_control_panel_input(), Some("a"));
    app.add_worktree_tab("/w".to_string(), "w".to_string(), String::new());
    assert_eq!(process_key(&mut app, &alt(KeyCode::Char('b')), &no_manager()), KeyAction::Continue);
    assert_eq!(process_key(&mut app, &alt(KeyCode::Char('q')), &no_manager()), KeyAction::Quit);
}

#[test]
fn handover_bytes_are_the_prompt_in_utf8() {
    let b = handover_bytes("fix-é", "/p.fix-é");
    assert_eq!(
        String::from_utf8(b).unwrap(),
        "Rebase the branch 'fix-é' in the worktree at /p.fix-é onto the main branch, resolve any conflicts, and then merge it into the main branch."
    );
}

#[test]
fn hand_over_merge_follows_the_lookup() {
    let mut app: App<RecTerm> = App::new();
    app.current_tab_mut().ensure_claude_terminal(Rect::new(0, 0, 40, 20));
    hand_over_merge(&mut app, "feat", Err(WorktreeError::NoWorktree { branch: "feat".to_string() }));
    assert!(app.tabs[0].claude_terminal.as_ref().unwrap().written.is_empty());
    assert_eq!(app.current_tab().control_panel_pane(), ControlPanelPane::Content);
    hand_over_merge(&mut app, "feat", Ok("/w/p.feat".to_string()));
    let written = &app.tabs[0].claude_terminal.as_ref().unwrap().written;
    assert_eq!(written.len(), 2);
    assert_eq!(written[0], handover_bytes("feat", "/w/p.feat"));
    assert_eq!(written[1], vec![13u8]);
    assert_eq!(app.current_tab().control_panel_pane(), ControlPanelPane::Claude);
}

#[test]
fn open_created_worktree_adds_tab_only_on_success() {
    let mut app: App<RecTerm> = App::new();
    open_created_worktree(&mut app, Err(WorktreeError::NoMainBranch), "b".to_string(), "p".to_string());
    assert_eq!(app.tabs.len(), 1);
    let wt = Worktree { path: "/r.b".to_string(), branch: Some("b".to_string()), is_main: false, is_bare: false };
    open_created_worktree(&mut app, Ok(wt), "b".to_string(), "Do b".to_string());
    assert_eq!(app.tabs.len(), 2);
    assert_eq!(app.active_tab, 1);
    assert_eq!(app.current_tab().branch(), Some("b"));
    assert_eq!(app.current_tab().worktree_prompt(), Some("Do b"));
    assert_eq!(app.current_tab().worktree_path(), Some(&"/r.b".to_string()));
}

#[test]
fn alt_digit_switches_to_numbered_tab() {
    let mut app: App<RecTerm> = App::new();
    app.add_worktree_tab("/a".to_string(), "a".to_string(), String::new());
    app.add_worktree_tab("/b".to_string(), "b".to_string(), String::new());
    process_terminal_key(&mut app, &alt(KeyCode::Char('2')), &no_manager());
    assert_eq!(app.active_tab, 1);
    process_terminal_key(&mut app, &alt(KeyCode::Char('1')), &no_manager());
    assert_eq!(app.active_tab, 0);
}

#[test]
fn clicks_keep_the_theme() {
    let mut app: App<RecTerm> = App::new();
    app.theme = 3;
    process_mouse_click(&mut app, &click(90, 0), Rect::new(0, 0, 100, 1), 95, Rect::new(0, 1, 100, 20));
    process_mouse_click(&mut app, &click(97, 0), Rect::new(0, 0, 100, 1), 95, Rect::new(0, 1, 100, 20));
    assert_eq!(app.theme, 3);
}
