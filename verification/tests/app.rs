use maestro_tui::app::{
    handle_dialog_key, handle_key, inner_area, App, Command, ControlPanelPane, Dialog, Pane, Tab,
};
use maestro_tui::input::{KeyCode, KeyEvent, KeyModifiers};
use maestro_tui::layout::Rect;
use maestro_tui::terminal_pair::{PaneTerminal, Program, SpawnRequest};

/// A terminal that records what it is asked to do.
struct MockTerm {
    program: Program,
    size: (u16, u16),
    written: Vec<Vec<u8>>,
    scrolled: Vec<i32>,
}

impl PaneTerminal for MockTerm {
    fn spawn(request: &SpawnRequest) -> Option<Self> {
        Some(MockTerm {
            program: request.program,
            size: (request.cols, request.rows),
            written: Vec::new(),
            scrolled: Vec::new(),
        })
    }

    fn write(&mut self, data: &[u8]) -> Result<(), String> {
        self.written.push(data.to_vec());
        Ok(())
    }

    fn resize(&mut self, cols: u16, rows: u16) {
        self.size = (cols, rows);
    }

    fn scroll(&mut self, lines: i32) {
        self.scrolled.push(lines);
    }
}

fn make_key(code: KeyCode) -> KeyEvent {
    KeyEvent::new(code, KeyModifiers::empty())
}

fn make_alt_key(code: KeyCode) -> KeyEvent {
    KeyEvent::new(code, KeyModifiers::alt())
}

#[test]
fn test_inner_area_normal() {
    let area = Rect::new(0, 0, 80, 24);
    let inner = inner_area(area);
    assert_eq!(inner.x, 1);
    assert_eq!(inner.y, 1);
    assert_eq!(inner.width, 78);
    assert_eq!(inner.height, 22);
}

#[test]
fn test_inner_area_small() {
    let area = Rect::new(5, 5, 4, 4);
    let inner = inner_area(area);
    assert_eq!(inner.x, 6);
    assert_eq!(inner.y, 6);
    assert_eq!(inner.width, 2);
    assert_eq!(inner.height, 2);
}

#[test]
fn test_inner_area_too_small() {
    let area = Rect::new(0, 0, 1, 1);
    let inner = inner_area(area);
    assert_eq!(inner.width, 0);
    assert_eq!(inner.height, 0);
}

#[test]
fn test_inner_area_zero() {
    let area = Rect::new(0, 0, 0, 0);
    let inner = inner_area(area);
    assert_eq!(inner.width, 0);
    assert_eq!(inner.height, 0);
}

#[test]
fn test_alt_switch_tab() {
    // Alt+1 is the control panel and Alt+2-9 are worktree tabs 1-8, as the
    // keyboard shortcuts and the tab bar number them.
    assert_eq!(handle_key(&make_alt_key(KeyCode::Char('0'))), Some(Command::SwitchTab(0)));
    assert_eq!(handle_key(&make_alt_key(KeyCode::Char('1'))), Some(Command::SwitchTab(0)));
    assert_eq!(handle_key(&make_alt_key(KeyCode::Char('2'))), Some(Command::SwitchTab(1)));
    assert_eq!(handle_key(&make_alt_key(KeyCode::Char('5'))), Some(Command::SwitchTab(4)));
    assert_eq!(handle_key(&make_alt_key(KeyCode::Char('9'))), Some(Command::SwitchTab(8)));
}

#[test]
fn test_alt_focus_pane() {
    assert_eq!(
        handle_key(&make_alt_key(KeyCode::Char('h'))),
        Some(Command::FocusPane(Pane::Left))
    );
    assert_eq!(
        handle_key(&make_alt_key(KeyCode::Char('l'))),
        Some(Command::FocusPane(Pane::Right))
    );
}

#[test]
fn test_alt_quit() {
    assert_eq!(handle_key(&make_alt_key(KeyCode::Char('q'))), Some(Command::Quit));
}

#[test]
fn test_dialog_key_confirm() {
    assert_eq!(handle_dialog_key(&make_key(KeyCode::Char('y'))), Some(Command::DialogConfirm));
    assert_eq!(handle_dialog_key(&make_key(KeyCode::Char('Y'))), Some(Command::DialogConfirm));
    assert_eq!(handle_dialog_key(&make_key(KeyCode::Enter)), Some(Command::DialogConfirm));
}

#[test]
fn test_dialog_key_cancel() {
    assert_eq!(handle_dialog_key(&make_key(KeyCode::Char('n'))), Some(Command::DialogCancel));
    assert_eq!(handle_dialog_key(&make_key(KeyCode::Char('N'))), Some(Command::DialogCancel));
    assert_eq!(handle_dialog_key(&make_key(KeyCode::Esc)), Some(Command::DialogCancel));
}

#[test]
fn test_passthrough_char() {
    assert_eq!(
        handle_key(&make_key(KeyCode::Char('a'))),
        Some(Command::WriteToTerminal(b"a".to_vec()))
    );
}

#[test]
fn test_passthrough_enter() {
    assert_eq!(
        handle_key(&make_key(KeyCode::Enter)),
        Some(Command::WriteToTerminal(b"\r".to_vec()))
    );
}

#[test]
fn test_passthrough_escape() {
    assert_eq!(
        handle_key(&make_key(KeyCode::Esc)),
        Some(Command::WriteToTerminal(b"\x1b".to_vec()))
    );
}

#[test]
fn test_app_new() {
    let app: App<MockTerm> = App::new();
    assert_eq!(app.tabs.len(), 1);
    assert_eq!(app.active_tab, 0);
}

#[test]
fn test_app_add_worktree_tab() {
    let mut app: App<MockTerm> = App::new();
    let idx = app.add_worktree_tab(
        "/tmp/test".to_string(),
        "test-branch".to_string(),
        "test prompt".to_string(),
    );
    assert_eq!(app.tabs.len(), 2);
    assert_eq!(idx, 1);
    assert_eq!(app.active_tab, 1);
}

#[test]
fn test_app_remove_tab() {
    let mut app: App<MockTerm> = App::new();
    app.add_worktree_tab("/tmp/test1".to_string(), "branch1".to_string(), String::new());
    app.add_worktree_tab("/tmp/test2".to_string(), "branch2".to_string(), String::new());
    assert_eq!(app.tabs.len(), 3);
    assert_eq!(app.active_tab, 2);

    assert!(app.remove_tab(2));
    assert_eq!(app.tabs.len(), 2);
    assert_eq!(app.active_tab, 1);

    assert!(!app.remove_tab(0));
    assert_eq!(app.tabs.len(), 2);

    assert!(app.remove_tab(1));
    assert_eq!(app.tabs.len(), 1);
    assert_eq!(app.active_tab, 0);

    assert!(!app.remove_tab(0));
}

#[test]
fn test_app_switch_tab() {
    let mut app: App<MockTerm> = App::new();
    app.add_worktree_tab("/tmp/test1".to_string(), "branch1".to_string(), String::new());
    app.add_worktree_tab("/tmp/test2".to_string(), "branch2".to_string(), String::new());
    assert_eq!(app.active_tab, 2);

    app.execute(Command::SwitchTab(0));
    assert_eq!(app.active_tab, 0);

    app.execute(Command::SwitchTab(10));
    assert_eq!(app.active_tab, 0);
}

#[test]
fn test_app_focus_pane() {
    let mut app: App<MockTerm> = App::new();
    assert_eq!(app.current_tab().focused, Pane::Left);

    app.execute(Command::FocusPane(Pane::Right));
    assert_eq!(app.current_tab().focused, Pane::Right);

    app.execute(Command::FocusPane(Pane::Left));
    assert_eq!(app.current_tab().focused, Pane::Left);
}

#[test]
fn test_app_toggle_pane() {
    let mut app: App<MockTerm> = App::new();
    assert_eq!(app.current_tab().focused, Pane::Left);

    app.execute(Command::TogglePane);
    assert_eq!(app.current_tab().focused, Pane::Right);

    app.execute(Command::TogglePane);
    assert_eq!(app.current_tab().focused, Pane::Left);
}

#[test]
fn test_control_panel_input() {
    let mut app: App<MockTerm> = App::new();
    assert!(app.current_tab().is_control_panel());

    app.execute(Command::UpdateControlPanelInput('h'));
    app.execute(Command::UpdateControlPanelInput('i'));
    assert_eq!(app.get_control_panel_input(), Some("hi"));

    app.execute(Command::DeleteControlPanelChar);
    assert_eq!(app.get_control_panel_input(), Some("h"));
}

#[test]
fn test_take_control_panel_input() {
    let mut app: App<MockTerm> = App::new();
    app.execute(Command::UpdateControlPanelInput('t'));
    app.execute(Command::UpdateControlPanelInput('e'));
    app.execute(Command::UpdateControlPanelInput('s'));
    app.execute(Command::UpdateControlPanelInput('t'));

    let input = app.take_control_panel_input();
    assert_eq!(input, Some("test".to_string()));
    assert_eq!(app.get_control_panel_input(), Some(""));
}

#[test]
fn test_tab_needs_terminal() {
    let tab: Tab<MockTerm> = Tab::with_worktree("/tmp".to_string(), "test".to_string(), String::new());
    let area = Rect::new(0, 0, 80, 24);
    assert!(tab.pair.needs_left(area));
    assert!(tab.pair.needs_right(area));
}

#[test]
fn test_tab_needs_terminal_zero_size() {
    let tab: Tab<MockTerm> = Tab::with_worktree("/tmp".to_string(), "test".to_string(), String::new());
    let area = Rect::new(0, 0, 2, 2);
    assert!(!tab.pair.needs_left(area));
}

#[test]
fn test_tab_kind_control_panel() {
    let tab: Tab<MockTerm> = Tab::control_panel();
    assert!(tab.is_control_panel());
    assert!(tab.worktree_path().is_none());
    assert!(tab.branch().is_none());
}

#[test]
fn test_tab_kind_worktree() {
    let tab: Tab<MockTerm> = Tab::with_worktree(
        "/tmp/test".to_string(),
        "feature".to_string(),
        "my prompt".to_string(),
    );
    assert!(!tab.is_control_panel());
    assert_eq!(tab.worktree_path(), Some(&"/tmp/test".to_string()));
    assert_eq!(tab.branch(), Some("feature"));
    assert_eq!(tab.worktree_prompt(), Some("my prompt"));
}

// --- further cases ---

#[test]
fn app_default_is_fresh() {
    let app: App<MockTerm> = App::default();
    assert_eq!(app.tabs.len(), 1);
    assert_eq!(app.active_tab, 0);
    assert_eq!(app.dialog, Dialog::Hidden);
    assert!(app.current_tab().is_control_panel());
    assert_eq!(app.get_control_panel_input(), Some(""));
    assert!(app.get_bd_ready_output().is_empty());
}

#[test]
fn add_then_remove_restores_tabs() {
    let mut app: App<MockTerm> = App::new();
    let idx = app.add_worktree_tab("/p".to_string(), "b".to_string(), String::new());
    assert!(app.remove_tab(idx));
    assert_eq!(app.tabs.len(), 1);
    assert!(app.current_tab().is_control_panel());
}

#[test]
fn removing_tab_before_active_keeps_active_tab() {
    let mut app: App<MockTerm> = App::new();
    app.add_worktree_tab("/a".to_string(), "a".to_string(), String::new());
    app.add_worktree_tab("/b".to_string(), "b".to_string(), String::new());
    assert_eq!(app.active_tab, 2);
    assert!(app.remove_tab(1));
    assert_eq!(app.active_tab, 1);
    assert_eq!(app.current_tab().branch(), Some("b"));
}

#[test]
fn typing_then_deleting_restores_input() {
    let mut app: App<MockTerm> = App::new();
    app.execute(Command::UpdateControlPanelInput('a'));
    app.execute(Command::UpdateControlPanelInput('日'));
    app.execute(Command::DeleteControlPanelChar);
    assert_eq!(app.get_control_panel_input(), Some("a"));
    app.execute(Command::DeleteControlPanelChar);
    app.execute(Command::DeleteControlPanelChar);
    assert_eq!(app.get_control_panel_input(), Some(""));
}

#[test]
fn reload_bd_ready_replaces_output() {
    let mut app: App<MockTerm> = App::new();
    app.execute(Command::ReloadBdReady(vec!["one".to_string(), "two".to_string()]));
    assert_eq!(app.get_bd_ready_output(), &["one".to_string(), "two".to_string()][..]);
}

#[test]
fn dialog_cancel_hides_dialog() {
    let mut app: App<MockTerm> = App::new();
    app.dialog = Dialog::UncommittedChanges { branch: "x".to_string() };
    app.execute(Command::DialogCancel);
    assert_eq!(app.dialog, Dialog::Hidden);
}

#[test]
fn select_worktree_moves_within_bounds() {
    let mut tab: Tab<MockTerm> = Tab::control_panel();
    assert_eq!(tab.selected_worktree(), 0);
    tab.select_prev_worktree();
    assert_eq!(tab.selected_worktree(), 0);
    tab.select_next_worktree(3);
    tab.select_next_worktree(3);
    tab.select_next_worktree(3);
    assert_eq!(tab.selected_worktree(), 2);
    tab.select_prev_worktree();
    assert_eq!(tab.selected_worktree(), 1);
}

#[test]
fn control_panel_pane_toggles() {
    let mut tab: Tab<MockTerm> = Tab::control_panel();
    assert_eq!(tab.control_panel_pane(), ControlPanelPane::Content);
    tab.toggle_control_panel_pane();
    assert_eq!(tab.control_panel_pane(), ControlPanelPane::Claude);
    tab.toggle_control_panel_pane();
    assert_eq!(tab.control_panel_pane(), ControlPanelPane::Content);
    tab.set_control_panel_pane(ControlPanelPane::Claude);
    assert_eq!(tab.control_panel_pane(), ControlPanelPane::Claude);
}

#[test]
fn write_to_terminal_reaches_focused_pane() {
    let mut app: App<MockTerm> = App::new();
    app.add_worktree_tab("/w".to_string(), "w".to_string(), String::new());
    let area = Rect::new(0, 0, 40, 20);
    app.current_tab_mut().ensure_right_terminal(area);
    app.execute(Command::FocusPane(Pane::Right));
    app.execute(Command::WriteToTerminal(b"ls\r".to_vec()));
    let term = app.current_tab().pair.get(Pane::Right).unwrap();
    assert_eq!(term.written, vec![b"ls\r".to_vec()]);
    assert_eq!(term.size, (38, 18));
    assert_eq!(term.program, Program::Assistant);
}

#[test]
fn scroll_commands_scroll_focused_terminal() {
    let mut app: App<MockTerm> = App::new();
    app.add_worktree_tab("/w".to_string(), "w".to_string(), String::new());
    let area = Rect::new(0, 0, 40, 20);
    app.current_tab_mut().ensure_right_terminal(area);
    app.execute(Command::FocusPane(Pane::Right));
    app.execute(Command::ScrollUp);
    app.execute(Command::ScrollDown);
    let term = app.current_tab().pair.get(Pane::Right).unwrap();
    assert_eq!(term.scrolled, vec![15, -15]);
}

#[test]
fn ensure_right_terminal_resizes_on_new_area() {
    let mut tab: Tab<MockTerm> = Tab::with_worktree("/w".to_string(), "w".to_string(), String::new());
    tab.ensure_right_terminal(Rect::new(0, 0, 40, 20));
    tab.ensure_right_terminal(Rect::new(0, 0, 60, 30));
    assert_eq!(tab.pair.get(Pane::Right).unwrap().size, (58, 28));
    assert_eq!(tab.pair.last_right_size(), (58, 28));
}

#[test]
fn alt_t_opens_theme_picker_at_current_theme() {
    assert_eq!(handle_key(&make_alt_key(KeyCode::Char('t'))), Some(Command::OpenThemePicker));
    let mut app: App<MockTerm> = App::new();
    assert_eq!(app.theme, 0);
    app.execute(Command::OpenThemePicker);
    assert_eq!(app.dialog, Dialog::ThemePicker { selected: 0 });
    assert_eq!(app.tabs.len(), 1);
    assert_eq!(app.active_tab, 0);
}
