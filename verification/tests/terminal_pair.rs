use maestro_tui::app::Pane;
use maestro_tui::layout::Rect;
use maestro_tui::terminal_pair::{PaneTerminal, SpawnRequest, TerminalPair};

/// A terminal that records its size and scrolls.
struct FakeTerm {
    size: (u16, u16),
    scrolled: Vec<i32>,
}

impl PaneTerminal for FakeTerm {
    fn spawn(request: &SpawnRequest) -> Option<Self> {
        Some(FakeTerm { size: (request.cols, request.rows), scrolled: Vec::new() })
    }

    fn write(&mut self, _data: &[u8]) -> Result<(), String> {
        Ok(())
    }

    fn resize(&mut self, cols: u16, rows: u16) {
        self.size = (cols, rows);
    }

    fn scroll(&mut self, lines: i32) {
        self.scrolled.push(lines);
    }
}

fn make_rect(width: u16, height: u16) -> Rect {
    Rect::new(0, 0, width, height)
}

#[test]
fn test_new_creates_empty_pair() {
    let pair: TerminalPair<FakeTerm> = TerminalPair::new();
    assert!(pair.get(Pane::Left).is_none());
    assert!(pair.get(Pane::Right).is_none());
}

#[test]
fn test_default_creates_empty_pair() {
    let pair: TerminalPair<FakeTerm> = TerminalPair::default();
    assert!(pair.get(Pane::Left).is_none());
    assert!(pair.get(Pane::Right).is_none());
}

#[test]
fn test_needs_left_when_empty_and_valid_area() {
    let pair: TerminalPair<FakeTerm> = TerminalPair::new();
    assert!(pair.needs_left(make_rect(80, 24)));
}

#[test]
fn test_needs_right_when_empty_and_valid_area() {
    let pair: TerminalPair<FakeTerm> = TerminalPair::new();
    assert!(pair.needs_right(make_rect(80, 24)));
}

#[test]
fn test_needs_left_false_when_area_too_small() {
    let pair: TerminalPair<FakeTerm> = TerminalPair::new();
    assert!(!pair.needs_left(make_rect(2, 2)));
}

#[test]
fn test_needs_right_false_when_area_too_small() {
    let pair: TerminalPair<FakeTerm> = TerminalPair::new();
    assert!(!pair.needs_right(make_rect(2, 2)));
}

#[test]
fn test_needs_left_false_when_zero_width() {
    let pair: TerminalPair<FakeTerm> = TerminalPair::new();
    assert!(!pair.needs_left(make_rect(0, 24)));
}

#[test]
fn test_needs_right_false_when_zero_height() {
    let pair: TerminalPair<FakeTerm> = TerminalPair::new();
    assert!(!pair.needs_right(make_rect(80, 0)));
}

#[test]
fn test_needs_right_resize_false_when_no_terminal() {
    let pair: TerminalPair<FakeTerm> = TerminalPair::new();
    assert!(pair.needs_right_resize(make_rect(80, 24)).is_none());
}

#[test]
fn test_needs_left_resize_false_when_no_terminal() {
    let pair: TerminalPair<FakeTerm> = TerminalPair::new();
    assert!(pair.needs_left_resize(make_rect(80, 24)).is_none());
}

#[test]
fn test_update_right_size_changes_last_size() {
    let mut pair: TerminalPair<FakeTerm> = TerminalPair::new();
    assert_eq!(pair.last_right_size(), (0, 0));
    pair.update_right_size(make_rect(100, 50));
    assert_eq!(pair.last_right_size(), (98, 48));
}

#[test]
fn test_update_left_size_changes_last_size() {
    let mut pair: TerminalPair<FakeTerm> = TerminalPair::new();
    assert_eq!(pair.last_left_size(), (0, 0));
    pair.update_left_size(make_rect(80, 24));
    assert_eq!(pair.last_left_size(), (78, 22));
}

#[test]
fn test_get_returns_none_for_empty_left() {
    let pair: TerminalPair<FakeTerm> = TerminalPair::new();
    assert!(pair.get(Pane::Left).is_none());
}

#[test]
fn test_get_returns_none_for_empty_right() {
    let pair: TerminalPair<FakeTerm> = TerminalPair::new();
    assert!(pair.get(Pane::Right).is_none());
}

#[test]
fn test_get_mut_returns_none_for_empty_left() {
    let mut pair: TerminalPair<FakeTerm> = TerminalPair::new();
    assert!(pair.get_mut(Pane::Left).is_none());
}

#[test]
fn test_get_mut_returns_none_for_empty_right() {
    let mut pair: TerminalPair<FakeTerm> = TerminalPair::new();
    assert!(pair.get_mut(Pane::Right).is_none());
}

#[test]
fn test_scroll_noop_when_no_terminal() {
    let mut pair: TerminalPair<FakeTerm> = TerminalPair::new();
    pair.scroll(Pane::Left, 10);
    pair.scroll(Pane::Right, -5);
    assert!(pair.get(Pane::Left).is_none());
}

// --- further cases ---

#[test]
fn set_terminal_records_size_and_resize_detects_change() {
    let mut pair: TerminalPair<FakeTerm> = TerminalPair::new();
    let area = make_rect(80, 24);
    pair.set_left(FakeTerm { size: (78, 22), scrolled: Vec::new() }, area);
    assert!(!pair.needs_left(area));
    assert_eq!(pair.last_left_size(), (78, 22));
    assert_eq!(pair.needs_left_resize(area), None);
    assert_eq!(pair.needs_left_resize(make_rect(100, 30)), Some((98, 28)));
    pair.scroll(Pane::Left, 3);
    assert_eq!(pair.get(Pane::Left).unwrap().scrolled, vec![3]);
    assert!(pair.get(Pane::Right).is_none());
}

#[test]
fn set_right_terminal_then_resize_check() {
    let mut pair: TerminalPair<FakeTerm> = TerminalPair::new();
    pair.set_right(FakeTerm { size: (10, 10), scrolled: Vec::new() }, make_rect(12, 12));
    assert_eq!(pair.last_right_size(), (10, 10));
    assert_eq!(pair.needs_right_resize(make_rect(12, 12)), None);
    assert_eq!(pair.needs_right_resize(make_rect(12, 2)), None);
    assert_eq!(pair.needs_right_resize(make_rect(20, 12)), Some((18, 10)));
}
