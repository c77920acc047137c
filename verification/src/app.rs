//! Application state: tabs, panes, dialogs, and the commands that change them.

use vstd::prelude::*;
use crate::diff_viewer::{scrolled_offset, DiffViewer};
use crate::input::{key_bytes, key_to_bytes, KeyCode, KeyEvent};
use crate::layout::Rect;
use crate::terminal_pair::{inner_size, PaneTerminal, Program, SpawnRequest, TerminalPair};
use crate::text::{opt_view, pop_char, push_char};
use crate::theme::themes_spec;

verus! {

/// One of the two panes of a tab.
#[derive(PartialEq, Eq, Structural, Clone, Copy, Debug)]
pub enum Pane {
    Left,
    Right,
}

impl Default for Pane {
    fn default() -> (r: Pane)
        ensures
            r == Pane::Left,
    {
        Pane::Left
    }
}

/// Dialog state for confirmations and warnings.
#[derive(Debug, Clone, PartialEq)]
pub enum Dialog {
    /// No dialog shown
    Hidden,
    /// Confirm delete worktree (branch name, has unmerged commits)
    ConfirmDelete { branch: String, unmerged: bool },
    /// Cannot delete: has uncommitted changes
    UncommittedChanges { branch: String },
    /// Choose the color theme (index of the highlighted theme)
    ThemePicker { selected: usize },
    /// Choose what to do with the worktree of a branch: merge or remove it
    WorktreeAction { branch: String },
}

/// Pane focus for the control panel (content vs assistant terminal).
#[derive(PartialEq, Eq, Structural, Clone, Copy, Debug)]
pub enum ControlPanelPane {
    /// Content area (worktrees, bd ready, input)
    Content,
    /// Assistant terminal pane
    Claude,
}

impl Default for ControlPanelPane {
    fn default() -> (r: ControlPanelPane)
        ensures
            r == ControlPanelPane::Content,
    {
        ControlPanelPane::Content
    }
}

/// The kind of tab: the control panel or a worktree terminal.
#[derive(Debug, Clone, PartialEq)]
pub enum TabKind {
    /// Control panel with text input for creating new worktrees
    ControlPanel {
        input: String,
        /// Output from `bd ready` command
        bd_ready_output: Vec<String>,
        /// Which pane is focused in the control panel
        focused_pane: ControlPanelPane,
        /// Currently selected worktree index (for merge/remove operations)
        selected_worktree: usize,
    },
    /// Worktree tab with dual terminal panes
    Worktree { path: String, branch: String, prompt: String },
}

/// Commands that the application executes.
#[derive(Debug, PartialEq)]
pub enum Command {
    Quit,
    SwitchTab(usize),
    FocusPane(Pane),
    TogglePane,
    WriteToTerminal(Vec<u8>),
    /// Update the control panel input text
    UpdateControlPanelInput(char),
    /// Delete last character from control panel input
    DeleteControlPanelChar,
    /// Scroll up (show older content) - half page
    ScrollUp,
    /// Scroll down (show newer content) - half page
    ScrollDown,
    /// Confirm dialog action (yes)
    DialogConfirm,
    /// Cancel dialog action (no)
    DialogCancel,
    /// Reload bd ready output for control panel
    ReloadBdReady(Vec<String>),
    /// Select previous worktree in control panel list
    SelectPrevWorktree,
    /// Select next worktree in control panel list
    SelectNextWorktree,
    /// Open the theme picker
    OpenThemePicker,
}

/// Whether `inner_area` can be taken of `area` (its corner can move one cell).
pub open spec fn area_ok(area: Rect) -> bool {
    area.x < u16::MAX && area.y < u16::MAX
}

/// The area inside a one-cell border.
pub open spec fn inner_spec(area: Rect) -> Rect {
    Rect {
        x: (area.x + 1) as u16,
        y: (area.y + 1) as u16,
        width: if area.width >= 2 { (area.width - 2) as u16 } else { 0 },
        height: if area.height >= 2 { (area.height - 2) as u16 } else { 0 },
    }
}

/// The area inside a one-cell border around `area`.
pub fn inner_area(area: Rect) -> (r: Rect)
    requires
        area_ok(area),
    ensures
        r == inner_spec(area),
{
    Rect {
        x: area.x + 1,
        y: area.y + 1,
        width: area.width.saturating_sub(2),
        height: area.height.saturating_sub(2),
    }
}

/// The command that a terminal tab gives for the Alt shortcut `c`: `1` goes to
/// the control panel (tab 0, as does `0`) and `2`–`9` to worktree tabs 1–8,
/// matching the numbers shown in the tab bar; `h`/`l` focus the left/right
/// pane, `u`/`d` scroll up/down, `t` opens the theme picker and `q` quits.
pub open spec fn alt_command(c: char) -> Option<Command> {
    if c == '0' {
        Some(Command::SwitchTab(0))
    } else if '1' <= c <= '9' {
        Some(Command::SwitchTab(((c as u32) - ('1' as u32)) as usize))
    } else if c == 'h' {
        Some(Command::FocusPane(Pane::Left))
    } else if c == 'l' {
        Some(Command::FocusPane(Pane::Right))
    } else if c == 'u' {
        Some(Command::ScrollUp)
    } else if c == 'd' {
        Some(Command::ScrollDown)
    } else if c == 'q' {
        Some(Command::Quit)
    } else if c == 't' {
        Some(Command::OpenThemePicker)
    } else {
        None
    }
}

/// Each Alt shortcut belongs to one key: `u` alone scrolls up and `d` alone
/// scrolls down, `q` alone quits, `h` and `l` alone focus the left and right
/// panes, `t` alone opens the theme picker, and the digits alone switch tabs,
/// `1` to the first tab (the control panel) and each next digit to the next
/// tab.
pub proof fn lemma_alt_shortcut_keys(c: char)
    ensures
        alt_command(c) == Some(Command::ScrollUp) <==> c == 'u',
        alt_command(c) == Some(Command::ScrollDown) <==> c == 'd',
        alt_command(c) == Some(Command::Quit) <==> c == 'q',
        alt_command(c) == Some(Command::FocusPane(Pane::Left)) <==> c == 'h',
        alt_command(c) == Some(Command::FocusPane(Pane::Right)) <==> c == 'l',
        alt_command(c) == Some(Command::OpenThemePicker) <==> c == 't',
        (alt_command(c) matches Some(Command::SwitchTab(_))) <==> ('0' <= c && c <= '9'),
        '1' <= c <= '9' ==> alt_command(c) == Some(Command::SwitchTab(((c as u32) - 49) as usize)),
{
}

/// Whether `r` is the command for a key in a terminal tab: with Alt, the shortcut
/// of a character key (see [`alt_command`]) and nothing else; with Ctrl, a letter
/// goes to the terminal as its control code and nothing else does; any other key
/// goes to the terminal as its bytes, if it has any.
pub open spec fn is_key_command(key: KeyEvent, r: Option<Command>) -> bool {
    if key.modifiers.alt {
        match key.code {
            KeyCode::Char(c) => r == alt_command(c),
            _ => r is None,
        }
    } else if key.modifiers.control {
        match key.code {
            KeyCode::Char(c) => if ('a' <= c <= 'z' || 'A' <= c <= 'Z') && key_bytes(key).len()
                > 0 {
                r matches Some(Command::WriteToTerminal(b)) && b@ == key_bytes(key)
            } else {
                r is None
            },
            _ => r is None,
        }
    } else if key_bytes(key).len() > 0 {
        r matches Some(Command::WriteToTerminal(b)) && b@ == key_bytes(key)
    } else {
        r is None
    }
}

fn alt_command_exec(c: char) -> (r: Option<Command>)
    ensures
        r == alt_command(c),
{
    if c == '0' {
        Some(Command::SwitchTab(0))
    } else if '1' <= c && c <= '9' {
        Some(Command::SwitchTab(((c as u32) - ('1' as u32)) as usize))
    } else if c == 'h' {
        Some(Command::FocusPane(Pane::Left))
    } else if c == 'l' {
        Some(Command::FocusPane(Pane::Right))
    } else if c == 'u' {
        Some(Command::ScrollUp)
    } else if c == 'd' {
        Some(Command::ScrollDown)
    } else if c == 'q' {
        Some(Command::Quit)
    } else if c == 't' {
        Some(Command::OpenThemePicker)
    } else {
        None
    }
}

/// Handles a key event for terminal tabs: Alt shortcuts, Ctrl letters and plain
/// keys passed through to the terminal (see [`is_key_command`]).
pub fn handle_key(key: &KeyEvent) -> (r: Option<Command>)
    ensures
        is_key_command(*key, r),
        key.modifiers.alt ==> (r == Some(Command::ScrollUp) <==> key.code == KeyCode::Char('u')),
        key.modifiers.alt ==> (r == Some(Command::ScrollDown) <==> key.code == KeyCode::Char('d')),
        key.modifiers.alt ==> (r == Some(Command::Quit) <==> key.code == KeyCode::Char('q')),
        key.modifiers.alt ==> (r == Some(Command::FocusPane(Pane::Left)) <==> key.code
            == KeyCode::Char('h')),
        key.modifiers.alt ==> (r == Some(Command::FocusPane(Pane::Right)) <==> key.code
            == KeyCode::Char('l')),
        key.modifiers.alt ==> (r == Some(Command::OpenThemePicker) <==> key.code == KeyCode::Char(
            't',
        )),
{
    proof {
        match key.code {
            KeyCode::Char(c) => lemma_alt_shortcut_keys(c),
            _ => {},
        }
    }
    if key.modifiers.alt {
        return match key.code {
            KeyCode::Char(c) => alt_command_exec(c),
            _ => None,
        };
    }
    if key.modifiers.control {
        match key.code {
            KeyCode::Char(c) => {
                if ('a' <= c && c <= 'z') || ('A' <= c && c <= 'Z') {
                    let bytes = key_to_bytes(key);
                    if bytes.len() > 0 {
                        return Some(Command::WriteToTerminal(bytes));
                    }
                }
            },
            _ => {},
        }
        return None;
    }
    let bytes = key_to_bytes(key);
    if bytes.len() > 0 {
        Some(Command::WriteToTerminal(bytes))
    } else {
        None
    }
}

/// The command for a key while a dialog is shown: `y`, `Y` or Enter confirm,
/// `n`, `N` or Esc cancel; other keys are not handled.
pub open spec fn dialog_command(key: KeyEvent) -> Option<Command> {
    match key.code {
        KeyCode::Char(c) => if c == 'y' || c == 'Y' {
            Some(Command::DialogConfirm)
        } else if c == 'n' || c == 'N' {
            Some(Command::DialogCancel)
        } else {
            None
        },
        KeyCode::Enter => Some(Command::DialogConfirm),
        KeyCode::Esc => Some(Command::DialogCancel),
        _ => None,
    }
}

/// Handles a key event while a dialog is shown (see [`dialog_command`]).
pub fn handle_dialog_key(key: &KeyEvent) -> (r: Option<Command>)
    ensures
        r == dialog_command(*key),
{
    match key.code {
        KeyCode::Char(c) => {
            if c == 'y' || c == 'Y' {
                Some(Command::DialogConfirm)
            } else if c == 'n' || c == 'N' {
                Some(Command::DialogCancel)
            } else {
                None
            }
        },
        KeyCode::Enter => Some(Command::DialogConfirm),
        KeyCode::Esc => Some(Command::DialogCancel),
        _ => None,
    }
}

} // verus!

verus! {

/// The input text of a control panel, if `kind` is one.
pub open spec fn control_input(kind: TabKind) -> Option<Seq<char>> {
    match kind {
        TabKind::ControlPanel { input, .. } => Some(input@),
        _ => None,
    }
}

/// A tab: the control panel or a worktree, with its panes and terminals.
pub struct Tab<T> {
    pub kind: TabKind,
    pub focused: Pane,
    pub pair: TerminalPair<T>,
    /// Diff viewer for worktree tabs (replaces the left terminal)
    pub diff_viewer: Option<DiffViewer>,
    /// Assistant terminal for the control panel tab
    pub claude_terminal: Option<T>,
    /// Last size of the assistant terminal area (for resize detection)
    pub claude_terminal_size: Option<(u16, u16)>,
}

impl<T> Tab<T> {
    /// This tab with `kind` in place of its own.
    pub open spec fn with_kind(self, kind: TabKind) -> Tab<T> {
        Tab { kind, ..self }
    }

    /// Whether the tab is a fresh control panel: empty input, no `bd ready`
    /// output, content focused, first worktree selected, no terminals yet.
    pub open spec fn is_fresh_control_panel(&self) -> bool {
        &&& self.kind matches TabKind::ControlPanel {
            input,
            bd_ready_output,
            focused_pane,
            selected_worktree,
        } && input@.len() == 0 && bd_ready_output@.len() == 0 && focused_pane
            == ControlPanelPane::Content && selected_worktree == 0
        &&& self.focused == Pane::Left
        &&& self.pair.left_term() is None
        &&& self.pair.right_term() is None
        &&& self.diff_viewer is None
        &&& self.claude_terminal is None
        &&& self.claude_terminal_size is None
    }

    /// A control panel tab.
    pub fn new() -> (r: Self)
        ensures
            r.is_fresh_control_panel(),
    {
        Tab {
            kind: TabKind::ControlPanel {
                input: String::new(),
                bd_ready_output: Vec::new(),
                focused_pane: ControlPanelPane::Content,
                selected_worktree: 0,
            },
            focused: Pane::Left,
            pair: TerminalPair::new(),
            diff_viewer: None,
            claude_terminal: None,
            claude_terminal_size: None,
        }
    }

    /// A control panel tab.
    pub fn control_panel() -> (r: Self)
        ensures
            r.is_fresh_control_panel(),
    {
        Self::new()
    }

    /// A worktree tab with a diff viewer on the worktree; the right pane is focused.
    pub fn with_worktree(path: String, branch: String, prompt: String) -> (r: Self)
        ensures
            r.kind matches TabKind::Worktree { path: p, branch: b, prompt: q } && p@ == path@
                && b@ == branch@ && q@ == prompt@,
            r.focused == Pane::Right,
            r.diff_viewer matches Some(dv) && dv.path() == path@ && dv.shown().len() == 0
                && dv.offset() == 0 && dv.hash() == 0 && dv.wf(),
            r.pair.left_term() is None,
            r.pair.right_term() is None,
            r.claude_terminal is None,
            r.claude_terminal_size is None,
    {
        let diff_viewer = Some(DiffViewer::new(path.clone()));
        Tab {
            kind: TabKind::Worktree { path, branch, prompt },
            focused: Pane::Right,
            pair: TerminalPair::new(),
            diff_viewer,
            claude_terminal: None,
            claude_terminal_size: None,
        }
    }

    /// Whether this is a control panel tab.
    pub fn is_control_panel(&self) -> (r: bool)
        ensures
            r == self.kind is ControlPanel,
    {
        match &self.kind {
            TabKind::ControlPanel { .. } => true,
            _ => false,
        }
    }

    /// The worktree path, if this is a worktree tab.
    pub fn worktree_path(&self) -> (r: Option<&String>)
        ensures
            r is Some == self.kind is Worktree,
            r matches Some(p) ==> self.kind matches TabKind::Worktree { path, .. } && p@ == path@,
    {
        match &self.kind {
            TabKind::Worktree { path, .. } => Some(path),
            _ => None,
        }
    }

    /// The branch name, if this is a worktree tab.
    pub fn branch(&self) -> (r: Option<&str>)
        ensures
            r is Some == self.kind is Worktree,
            r matches Some(b) ==> self.kind matches TabKind::Worktree { branch, .. } && b@
                == branch@,
    {
        match &self.kind {
            TabKind::Worktree { branch, .. } => Some(branch.as_str()),
            _ => None,
        }
    }

    /// The prompt, if this is a worktree tab.
    pub fn worktree_prompt(&self) -> (r: Option<&str>)
        ensures
            r is Some == self.kind is Worktree,
            r matches Some(q) ==> self.kind matches TabKind::Worktree { prompt, .. } && q@
                == prompt@,
    {
        match &self.kind {
            TabKind::Worktree { prompt, .. } => Some(prompt.as_str()),
            _ => None,
        }
    }

    /// The focused pane of a control panel (the content pane for other tabs).
    pub open spec fn panel_pane(&self) -> ControlPanelPane {
        match self.kind {
            TabKind::ControlPanel { focused_pane, .. } => focused_pane,
            _ => ControlPanelPane::Content,
        }
    }

    /// The control panel's focused pane.
    pub fn control_panel_pane(&self) -> (r: ControlPanelPane)
        ensures
            r == self.panel_pane(),
    {
        match &self.kind {
            TabKind::ControlPanel { focused_pane, .. } => *focused_pane,
            _ => ControlPanelPane::Content,
        }
    }

    /// The kind with the control panel's focused pane set to `pane`.
    pub open spec fn kind_with_pane(kind: TabKind, pane: ControlPanelPane) -> TabKind {
        match kind {
            TabKind::ControlPanel { input, bd_ready_output, selected_worktree, .. } => TabKind::ControlPanel {
                input,
                bd_ready_output,
                focused_pane: pane,
                selected_worktree,
            },
            k => k,
        }
    }

    /// Focuses `pane` of a control panel; other tabs are left alone.
    pub fn set_control_panel_pane(&mut self, pane: ControlPanelPane)
        ensures
            *final(self) == old(self).with_kind(Self::kind_with_pane(old(self).kind, pane)),
    {
        match &mut self.kind {
            TabKind::ControlPanel { focused_pane, .. } => {
                *focused_pane = pane;
            },
            _ => {},
        }
    }

    /// The other control panel pane.
    pub open spec fn other_pane(pane: ControlPanelPane) -> ControlPanelPane {
        match pane {
            ControlPanelPane::Content => ControlPanelPane::Claude,
            ControlPanelPane::Claude => ControlPanelPane::Content,
        }
    }

    /// Moves a control panel's focus to its other pane; other tabs are left alone.
    pub fn toggle_control_panel_pane(&mut self)
        ensures
            *final(self) == old(self).with_kind(
                Self::kind_with_pane(old(self).kind, Self::other_pane(old(self).panel_pane())),
            ),
    {
        match &mut self.kind {
            TabKind::ControlPanel { focused_pane, .. } => {
                *focused_pane = match *focused_pane {
                    ControlPanelPane::Content => ControlPanelPane::Claude,
                    ControlPanelPane::Claude => ControlPanelPane::Content,
                };
            },
            _ => {},
        }
    }

    /// The selected worktree index of a control panel (0 for other tabs).
    pub open spec fn selection(&self) -> usize {
        match self.kind {
            TabKind::ControlPanel { selected_worktree, .. } => selected_worktree,
            _ => 0,
        }
    }

    /// The selected worktree index.
    pub fn selected_worktree(&self) -> (r: usize)
        ensures
            r == self.selection(),
    {
        match &self.kind {
            TabKind::ControlPanel { selected_worktree, .. } => *selected_worktree,
            _ => 0,
        }
    }

    /// The kind with the control panel's selection set to `sel`.
    pub open spec fn kind_with_selection(kind: TabKind, sel: usize) -> TabKind {
        match kind {
            TabKind::ControlPanel { input, bd_ready_output, focused_pane, .. } => TabKind::ControlPanel {
                input,
                bd_ready_output,
                focused_pane,
                selected_worktree: sel,
            },
            k => k,
        }
    }

    /// Selects the previous worktree (staying at the first).
    pub fn select_prev_worktree(&mut self)
        ensures
            *final(self) == old(self).with_kind(
                Self::kind_with_selection(
                    old(self).kind,
                    if old(self).selection() > 0 {
                        (old(self).selection() - 1) as usize
                    } else {
                        0
                    },
                ),
            ),
    {
        match &mut self.kind {
            TabKind::ControlPanel { selected_worktree, .. } => {
                *selected_worktree = selected_worktree.saturating_sub(1);
            },
            _ => {},
        }
    }

    /// Selects the next worktree of `max_count` (staying at the last).
    pub fn select_next_worktree(&mut self, max_count: usize)
        ensures
            *final(self) == old(self).with_kind(
                Self::kind_with_selection(
                    old(self).kind,
                    if max_count > 0 && old(self).selection() < max_count - 1 {
                        (old(self).selection() + 1) as usize
                    } else {
                        old(self).selection()
                    },
                ),
            ),
    {
        match &mut self.kind {
            TabKind::ControlPanel { selected_worktree, .. } => {
                if max_count > 0 && *selected_worktree < max_count - 1 {
                    *selected_worktree = *selected_worktree + 1;
                }
            },
            _ => {},
        }
    }
}

} // verus!

verus! {

/// The prompt of a worktree tab (empty for other tabs).
pub open spec fn prompt_of(kind: TabKind) -> Seq<char> {
    match kind {
        TabKind::Worktree { prompt, .. } => prompt@,
        _ => Seq::empty(),
    }
}

/// The worktree path of a worktree tab.
pub open spec fn path_of(kind: TabKind) -> Option<Seq<char>> {
    match kind {
        TabKind::Worktree { path, .. } => Some(path@),
        _ => None,
    }
}

/// Whether a spawn request starts `program` with `args` in `cwd` (`None`: the
/// current directory), sized to the inside of `area`.
pub open spec fn request_is(
    r: SpawnRequest,
    area: Rect,
    program: Program,
    args: Seq<Seq<char>>,
    cwd: Option<Seq<char>>,
) -> bool {
    &&& (r.cols, r.rows) == inner_size(area)
    &&& r.program == program
    &&& r.args@.map_values(|a: String| a@) == args
    &&& opt_view(r.cwd) == cwd
}

fn opt_string_clone(o: Option<&String>) -> (r: Option<String>)
    ensures
        opt_view(r) == (match o {
            Some(s) => Some(s@),
            None => None::<Seq<char>>,
        }),
{
    match o {
        Some(s) => Some(s.clone()),
        None => None,
    }
}

impl<T: PaneTerminal> Tab<T> {
    /// Whether `self` and `other` differ at most in their pair of terminals.
    pub open spec fn same_but_pair(&self, other: &Tab<T>) -> bool {
        &&& self.kind == other.kind
        &&& self.focused == other.focused
        &&& self.diff_viewer == other.diff_viewer
        &&& self.claude_terminal == other.claude_terminal
        &&& self.claude_terminal_size == other.claude_terminal_size
    }

    /// What starting the right (assistant) terminal for `area` takes: the assistant, with
    /// the tab's prompt as its argument when there is one, in the worktree.
    pub fn right_spawn_request(&self, area: Rect) -> (r: SpawnRequest)
        requires
            area_ok(area),
        ensures
            request_is(
                r,
                area,
                Program::Assistant,
                if prompt_of(self.kind).len() > 0 {
                    seq![prompt_of(self.kind)]
                } else {
                    Seq::empty()
                },
                path_of(self.kind),
            ),
    {
        let inner = inner_area(area);
        let mut args: Vec<String> = Vec::new();
        match self.worktree_prompt() {
            Some(p) => {
                if !p.is_empty() {
                    args.push(String::from_str(p));
                }
            },
            None => {},
        }
        let r = SpawnRequest {
            cols: inner.width,
            rows: inner.height,
            program: Program::Assistant,
            args,
            cwd: opt_string_clone(self.worktree_path()),
        };
        assert(r.args@.map_values(|a: String| a@) =~= if prompt_of(self.kind).len() > 0 {
            seq![prompt_of(self.kind)]
        } else {
            Seq::empty()
        });
        r
    }

    /// What starting the left terminal for `area` takes: the user's shell, in
    /// the worktree (or the current directory).
    pub fn left_spawn_request(&self, area: Rect) -> (r: SpawnRequest)
        requires
            area_ok(area),
        ensures
            request_is(r, area, Program::Shell, Seq::empty(), path_of(self.kind)),
    {
        let inner = inner_area(area);
        let r = SpawnRequest {
            cols: inner.width,
            rows: inner.height,
            program: Program::Shell,
            args: Vec::new(),
            cwd: opt_string_clone(self.worktree_path()),
        };
        assert(r.args@.map_values(|a: String| a@) =~= Seq::<Seq<char>>::empty());
        r
    }

    /// Makes sure the left terminal exists and fits `area`: starts it when the
    /// pair needs one (it stays missing if it cannot be started), or resizes it
    /// when its size is out of date.
    pub fn ensure_left_terminal(&mut self, area: Rect)
        requires
            area_ok(area),
        ensures
            final(self).same_but_pair(old(self)),
            final(self).pair.right_term() == old(self).pair.right_term(),
            final(self).pair.right_size() == old(self).pair.right_size(),
            old(self).pair.left_term() is None && inner_size(area).0 > 0 && inner_size(area).1 > 0
                ==> (final(self).pair.left_term() is None && final(self).pair.left_size() == old(self).pair.left_size()) || (final(self).pair.left_term() is Some
                && final(self).pair.left_size() == inner_size(area)),
            old(self).pair.left_term() is Some && old(self).pair.left_size() != inner_size(area)
                && inner_size(area).0 > 0 && inner_size(area).1 > 0 ==> final(self).pair.left_term() is Some && final(self).pair.left_size() == inner_size(area),
            inner_size(area).0 == 0 || inner_size(area).1 == 0 || (old(self).pair.left_term() is Some
                && old(self).pair.left_size() == inner_size(area)) ==> final(self).pair == old(self).pair,
    {
        if self.pair.needs_left(area) {
            let request = self.left_spawn_request(area);
            match T::spawn(&request) {
                Some(term) => self.pair.set_left(term, area),
                None => {},
            }
        } else {
            match self.pair.needs_left_resize(area) {
                Some((cols, rows)) => {
                    match self.pair.get_mut(Pane::Left) {
                        Some(term) => {
                            term.resize(cols, rows);
                        },
                        None => {},
                    }
                    self.pair.update_left_size(area);
                },
                None => {},
            }
        }
    }

    /// Makes sure the right (assistant) terminal exists and fits `area`: starts it
    /// when the pair needs one (it stays missing if it cannot be started), or
    /// resizes it when its size is out of date.
    pub fn ensure_right_terminal(&mut self, area: Rect)
        requires
            area_ok(area),
        ensures
            final(self).same_but_pair(old(self)),
            final(self).pair.left_term() == old(self).pair.left_term(),
            final(self).pair.left_size() == old(self).pair.left_size(),
            old(self).pair.right_term() is None && inner_size(area).0 > 0 && inner_size(area).1 > 0
                ==> (final(self).pair.right_term() is None && final(self).pair.right_size() == old(self).pair.right_size()) || (final(self).pair.right_term() is Some
                && final(self).pair.right_size() == inner_size(area)),
            old(self).pair.right_term() is Some && old(self).pair.right_size() != inner_size(area)
                && inner_size(area).0 > 0 && inner_size(area).1 > 0 ==> final(self).pair.right_term() is Some && final(self).pair.right_size() == inner_size(area),
            inner_size(area).0 == 0 || inner_size(area).1 == 0 || (old(self).pair.right_term() is Some
                && old(self).pair.right_size() == inner_size(area)) ==> final(self).pair == old(self).pair,
    {
        if self.pair.needs_right(area) {
            let request = self.right_spawn_request(area);
            match T::spawn(&request) {
                Some(term) => self.pair.set_right(term, area),
                None => {},
            }
        } else {
            match self.pair.needs_right_resize(area) {
                Some((cols, rows)) => {
                    match self.pair.get_mut(Pane::Right) {
                        Some(term) => {
                            term.resize(cols, rows);
                        },
                        None => {},
                    }
                    self.pair.update_right_size(area);
                },
                None => {},
            }
        }
    }

    /// Makes sure the control panel's assistant terminal exists and fits `area`:
    /// nothing when the inside of `area` is empty; starts it when missing (it
    /// stays missing if it cannot be started); resizes it when `area` changed
    /// size since it was last fitted.
    pub fn ensure_claude_terminal(&mut self, area: Rect)
        requires
            area_ok(area),
        ensures
            final(self).kind == old(self).kind,
            final(self).focused == old(self).focused,
            final(self).pair == old(self).pair,
            final(self).diff_viewer == old(self).diff_viewer,
            inner_size(area).0 == 0 || inner_size(area).1 == 0 ==> *final(self) == *old(self),
            inner_size(area).0 > 0 && inner_size(area).1 > 0 && old(self).claude_terminal is None
                ==> (final(self).claude_terminal is None && final(self).claude_terminal_size == old(self).claude_terminal_size) || (final(self).claude_terminal is Some
                && final(self).claude_terminal_size == Some((area.width, area.height))),
            inner_size(area).0 > 0 && inner_size(area).1 > 0 && old(self).claude_terminal is Some
                && old(self).claude_terminal_size is Some && old(self).claude_terminal_size != Some(
                (area.width, area.height),
            ) ==> final(self).claude_terminal is Some && final(self).claude_terminal_size == Some(
                (area.width, area.height),
            ),
            old(self).claude_terminal is Some && (old(self).claude_terminal_size is None || old(self).claude_terminal_size == Some((area.width, area.height))) ==> *final(self) == *old(self),
    {
        let inner = inner_area(area);
        if inner.width == 0 || inner.height == 0 {
            return;
        }
        if self.claude_terminal.is_none() {
            let request = SpawnRequest {
                cols: inner.width,
                rows: inner.height,
                program: Program::Assistant,
                args: Vec::new(),
                cwd: None,
            };
            match T::spawn(&request) {
                Some(term) => {
                    self.claude_terminal = Some(term);
                    self.claude_terminal_size = Some((area.width, area.height));
                },
                None => {},
            }
        } else {
            match self.claude_terminal_size {
                Some((old_w, old_h)) => {
                    if old_w != area.width || old_h != area.height {
                        match self.claude_terminal.as_mut() {
                            Some(term) => {
                                term.resize(inner.width, inner.height);
                            },
                            None => {},
                        }
                        self.claude_terminal_size = Some((area.width, area.height));
                    }
                },
                None => {},
            }
        }
    }

    /// Scrolls the focused pane by `lines` (positive: up, towards older content):
    /// the diff viewer on the left, the terminal on the right.
    pub fn scroll_focused(&mut self, lines: i32)
        requires
            (lines as i16) != i16::MIN,
        ensures
            final(self).kind == old(self).kind,
            final(self).focused == old(self).focused,
            final(self).claude_terminal == old(self).claude_terminal,
            final(self).claude_terminal_size == old(self).claude_terminal_size,
            old(self).focused == Pane::Left ==> final(self).pair == old(self).pair,
            old(self).focused == Pane::Left ==> (match old(self).diff_viewer {
                None => final(self).diff_viewer is None,
                Some(dv) => final(self).diff_viewer matches Some(nv) && nv.offset()
                    == scrolled_offset(dv.offset(), dv.total(), lines as i16) && nv.shown()
                    == dv.shown() && nv.total() == dv.total() && nv.hash() == dv.hash()
                    && nv.path() == dv.path(),
            }),
            old(self).focused == Pane::Right ==> final(self).diff_viewer == old(self).diff_viewer,
            old(self).focused == Pane::Right ==> final(self).pair.left_term() == old(self).pair.left_term(),
            final(self).pair.left_size() == old(self).pair.left_size(),
            final(self).pair.right_size() == old(self).pair.right_size(),
            final(self).pair.right_term() is Some == old(self).pair.right_term() is Some,
    {
        match self.focused {
            Pane::Left => {
                match self.diff_viewer.as_mut() {
                    Some(dv) => dv.scroll(lines as i16),
                    None => {},
                }
            },
            Pane::Right => {
                self.pair.scroll(Pane::Right, lines);
            },
        }
    }

    /// Refreshes the diff viewer, if any, from the current diff state (see
    /// [`DiffViewer::refresh`]); returns whether the diff changed.
    pub fn refresh_diff_viewer(&mut self, new_hash: u64, file_diffs: &Vec<String>) -> (r: bool)
        ensures
            final(self).kind == old(self).kind,
            final(self).focused == old(self).focused,
            final(self).pair == old(self).pair,
            final(self).claude_terminal == old(self).claude_terminal,
            final(self).claude_terminal_size == old(self).claude_terminal_size,
            old(self).diff_viewer is None ==> !r && final(self).diff_viewer is None,
            old(self).diff_viewer matches Some(dv) ==> r == (new_hash != dv.hash()),
    {
        match self.diff_viewer.as_mut() {
            Some(dv) => dv.refresh(new_hash, file_diffs),
            None => false,
        }
    }
}

} // verus!

verus! {

/// The `bd ready` output of a control panel (nothing for other tabs).
pub open spec fn bd_output_of(kind: TabKind) -> Seq<String> {
    match kind {
        TabKind::ControlPanel { bd_ready_output, .. } => bd_ready_output@,
        _ => Seq::empty(),
    }
}

/// Whether `after` is `before` with its focused pane scrolled by `lines`
/// (positive: up, towards older content): with the left pane focused, the
/// diff viewer moves to [`scrolled_offset`] and nothing else changes; with the
/// right pane focused, the diff viewer and the left terminal stay and the right
/// terminal is handed the scroll. The kind, focus, terminal sizes and the
/// assistant terminal stay in either case.
pub open spec fn tab_scrolled<T>(before: Tab<T>, after: Tab<T>, lines: i16) -> bool {
    &&& after.kind == before.kind
    &&& after.focused == before.focused
    &&& after.claude_terminal == before.claude_terminal
    &&& after.claude_terminal_size == before.claude_terminal_size
    &&& after.pair.left_size() == before.pair.left_size()
    &&& after.pair.right_size() == before.pair.right_size()
    &&& before.focused == Pane::Left ==> after.pair == before.pair && (match before.diff_viewer {
        None => after.diff_viewer is None,
        Some(dv) => after.diff_viewer matches Some(nv) && nv.offset() == scrolled_offset(
            dv.offset(),
            dv.total(),
            lines,
        ) && nv.shown() == dv.shown() && nv.total() == dv.total() && nv.hash() == dv.hash()
            && nv.path() == dv.path(),
    })
    &&& before.focused == Pane::Right ==> after.diff_viewer == before.diff_viewer
        && after.pair.left_term() == before.pair.left_term() && (after.pair.right_term() is Some
        == before.pair.right_term() is Some)
}

/// The active tab after removing tab `idx` from a list now `new_len` long: the
/// last tab when the active one fell off the end, one earlier when it came after
/// the removed tab, unchanged otherwise.
pub open spec fn active_after_remove(active: usize, idx: usize, new_len: nat) -> usize {
    if active >= new_len {
        (new_len - 1) as usize
    } else if active > idx {
        (active - 1) as usize
    } else {
        active
    }
}

/// The other pane.
pub open spec fn toggled(p: Pane) -> Pane {
    match p {
        Pane::Left => Pane::Right,
        Pane::Right => Pane::Left,
    }
}

/// Whether `new` holds the tabs of `old`, except perhaps the one at `i`.
pub open spec fn others_unchanged<T>(old_tabs: Seq<Tab<T>>, new_tabs: Seq<Tab<T>>, i: int) -> bool {
    &&& new_tabs.len() == old_tabs.len()
    &&& forall|j: int| 0 <= j < old_tabs.len() && j != i ==> #[trigger] new_tabs[j] == old_tabs[j]
}

impl<T> Default for Tab<T> {
    /// A fresh control panel tab.
    fn default() -> (r: Tab<T>)
        ensures
            r.is_fresh_control_panel(),
    {
        Tab::new()
    }
}

/// The application state: the tabs (the control panel first), the active tab,
/// the dialog shown and the color theme (its index in the list of themes).
pub struct App<T> {
    pub tabs: Vec<Tab<T>>,
    pub active_tab: usize,
    pub dialog: Dialog,
    pub theme: usize,
}

impl<T> App<T> {
    /// Well-formed: there is a tab, the active one exists, the first is the
    /// control panel, and the theme in use and the one highlighted in the theme
    /// picker are listed themes.
    pub open spec fn wf(&self) -> bool {
        &&& self.tabs@.len() > 0
        &&& self.active_tab < self.tabs@.len()
        &&& self.tabs@[0].kind is ControlPanel
        &&& self.theme < themes_spec().len()
        &&& self.dialog matches Dialog::ThemePicker { selected } ==> selected < themes_spec().len()
    }

    /// The active tab.
    pub open spec fn active(&self) -> Tab<T> {
        self.tabs@[self.active_tab as int]
    }

    /// An application with a fresh control panel as its only tab and no dialog.
    pub fn new() -> (r: Self)
        ensures
            r.wf(),
            r.tabs@.len() == 1,
            r.active_tab == 0,
            r.dialog == Dialog::Hidden,
            r.theme == 0,
            r.tabs@[0].is_fresh_control_panel(),
    {
        let mut tabs = Vec::new();
        tabs.push(Tab::new());
        App { tabs, active_tab: 0, dialog: Dialog::Hidden, theme: 0 }
    }

    /// The active tab.
    pub fn current_tab(&self) -> (r: &Tab<T>)
        requires
            self.active_tab < self.tabs@.len(),
        ensures
            *r == self.active(),
    {
        &self.tabs[self.active_tab]
    }

    /// The active tab, for changing it.
    pub fn current_tab_mut(&mut self) -> (r: &mut Tab<T>)
        requires
            old(self).active_tab < old(self).tabs@.len(),
        ensures
            final(self).theme == old(self).theme,
            *r == old(self).active(),
            final(self).tabs@ == old(self).tabs@.update(old(self).active_tab as int, *final(r)),
            final(self).active_tab == old(self).active_tab,
            final(self).dialog == old(self).dialog,
    {
        &mut self.tabs[self.active_tab]
    }

    /// The first tab (the control panel), for changing it.
    pub fn control_panel_mut(&mut self) -> (r: &mut Tab<T>)
        requires
            old(self).tabs@.len() > 0,
        ensures
            final(self).theme == old(self).theme,
            *r == old(self).tabs@[0],
            final(self).tabs@ == old(self).tabs@.update(0, *final(r)),
            final(self).active_tab == old(self).active_tab,
            final(self).dialog == old(self).dialog,
    {
        &mut self.tabs[0]
    }

    /// The control panel input, if the active tab is the control panel.
    pub fn get_control_panel_input(&self) -> (r: Option<&str>)
        requires
            self.active_tab < self.tabs@.len(),
        ensures
            (match r {
                Some(s) => Some(s@),
                None => None::<Seq<char>>,
            }) == control_input(self.active().kind),
    {
        match &self.tabs[self.active_tab].kind {
            TabKind::ControlPanel { input, .. } => Some(input.as_str()),
            _ => None,
        }
    }

    /// Takes the control panel input when it is not empty, leaving it empty (used
    /// when submitting); `None` when it is empty or the active tab is not the
    /// control panel.
    pub fn take_control_panel_input(&mut self) -> (r: Option<String>)
        requires
            old(self).active_tab < old(self).tabs@.len(),
        ensures
            final(self).theme == old(self).theme,
            final(self).active_tab == old(self).active_tab,
            final(self).dialog == old(self).dialog,
            others_unchanged(old(self).tabs@, final(self).tabs@, old(self).active_tab as int),
            final(self).active().same_but_kind(&old(self).active()),
            (match control_input(old(self).active().kind) {
                Some(s) => control_input(final(self).active().kind) == Some(Seq::<char>::empty())
                    && bd_output_of(final(self).active().kind) == bd_output_of(old(self).active().kind)
                    && final(self).active().panel_pane() == old(self).active().panel_pane()
                    && final(self).active().selection() == old(self).active().selection()
                    && opt_view(r) == if s.len() > 0 {
                    Some(s)
                } else {
                    None
                },
                None => r is None && final(self).tabs@ == old(self).tabs@,
            }),
    {
        let tab = self.current_tab_mut();
        match &mut tab.kind {
            TabKind::ControlPanel { input, .. } => {
                let mut prompt = String::new();
                std::mem::swap(input, &mut prompt);
                if prompt.as_str().is_empty() {
                    None
                } else {
                    Some(prompt)
                }
            },
            _ => None,
        }
    }

    /// The `bd ready` output of the control panel (the first tab).
    pub fn get_bd_ready_output(&self) -> (r: &[String])
        requires
            self.tabs@.len() > 0,
        ensures
            r@ == bd_output_of(self.tabs@[0].kind),
    {
        match &self.tabs[0].kind {
            TabKind::ControlPanel { bd_ready_output, .. } => bd_ready_output.as_slice(),
            _ => &[],
        }
    }

    /// Adds a worktree tab at the end and makes it active; returns its index.
    pub fn add_worktree_tab(&mut self, path: String, branch: String, prompt: String) -> (r: usize)
        requires
            old(self).tabs@.len() < usize::MAX,
        ensures
            final(self).theme == old(self).theme,
            r == old(self).tabs@.len(),
            final(self).tabs@.len() == old(self).tabs@.len() + 1,
            final(self).tabs@.take(r as int) == old(self).tabs@,
            final(self).tabs@[r as int].kind matches TabKind::Worktree { path: p, branch: b, prompt: q }
                && p@ == path@ && b@ == branch@ && q@ == prompt@,
            final(self).tabs@[r as int].focused == Pane::Right,
            final(self).active_tab == r,
            final(self).dialog == old(self).dialog,
            old(self).wf() ==> final(self).wf(),
    {
        let tab = Tab::with_worktree(path, branch, prompt);
        self.tabs.push(tab);
        let new_idx = self.tabs.len() - 1;
        self.active_tab = new_idx;
        assert(self.tabs@.take(new_idx as int) =~= old(self).tabs@);
        new_idx
    }

    /// Removes tab `idx`; returns whether it did. The control panel (tab 0) is
    /// never removed, nor the only tab. The active tab moves with the tabs after
    /// the removed one, and to the last tab when it was the last.
    pub fn remove_tab(&mut self, idx: usize) -> (r: bool)
        ensures
            final(self).theme == old(self).theme,
            r == (idx != 0 && idx < old(self).tabs@.len() && old(self).tabs@.len() > 1),
            !r ==> *final(self) == *old(self),
            r ==> final(self).tabs@ == old(self).tabs@.remove(idx as int),
            r ==> final(self).active_tab == active_after_remove(
                old(self).active_tab,
                idx,
                final(self).tabs@.len(),
            ),
            final(self).dialog == old(self).dialog,
            old(self).wf() ==> final(self).wf(),
    {
        if idx == 0 || idx >= self.tabs.len() || self.tabs.len() <= 1 {
            return false;
        }
        self.tabs.remove(idx);
        if self.active_tab >= self.tabs.len() {
            self.active_tab = self.tabs.len() - 1;
        } else if self.active_tab > idx {
            self.active_tab = self.active_tab - 1;
        }
        true
    }
}

impl<T> Tab<T> {
    /// Whether `self` and `other` differ at most in their kind.
    pub open spec fn same_but_kind(&self, other: &Tab<T>) -> bool {
        &&& self.focused == other.focused
        &&& self.pair == other.pair
        &&& self.diff_viewer == other.diff_viewer
        &&& self.claude_terminal == other.claude_terminal
        &&& self.claude_terminal_size == other.claude_terminal_size
    }
}

} // verus!

verus! {

impl<T: PaneTerminal> App<T> {
    /// Executes `cmd`: switches tabs (an index past the last tab changes
    /// nothing), focuses or toggles the pane of the active tab, sends bytes to its
    /// focused terminal, edits the control panel input, reloads the `bd ready`
    /// output, scrolls the focused pane half a page (15 lines), or closes the
    /// dialog. Quitting, confirming a dialog and moving the worktree selection are
    /// handled by the event loop and change nothing here.
    pub fn execute(&mut self, cmd: Command)
        requires
            old(self).wf(),
        ensures
            final(self).wf(),
            final(self).theme == old(self).theme,
            (match cmd {
                Command::OpenThemePicker => final(self).tabs@ == old(self).tabs@
                    && final(self).active_tab == old(self).active_tab && final(self).dialog
                    == Dialog::ThemePicker { selected: old(self).theme },
                Command::SwitchTab(i) => final(self).tabs@ == old(self).tabs@
                    && final(self).dialog == old(self).dialog && final(self).active_tab == if i
                    < old(self).tabs@.len() {
                    i
                } else {
                    old(self).active_tab
                },
                Command::DialogCancel => final(self).tabs@ == old(self).tabs@
                    && final(self).active_tab == old(self).active_tab && final(self).dialog
                    == Dialog::Hidden,
                _ => final(self).active_tab == old(self).active_tab && final(self).dialog == old(self).dialog && others_unchanged(
                    old(self).tabs@,
                    final(self).tabs@,
                    old(self).active_tab as int,
                ),
            }),
            (match cmd {
                Command::Quit | Command::DialogConfirm | Command::SelectPrevWorktree
                | Command::SelectNextWorktree => *final(self) == *old(self),
                Command::FocusPane(p) => final(self).active() == Tab {
                    focused: p,
                    ..old(self).active()
                },
                Command::TogglePane => final(self).active() == Tab {
                    focused: toggled(old(self).active().focused),
                    ..old(self).active()
                },
                Command::UpdateControlPanelInput(c) => final(self).active().same_but_kind(
                    &old(self).active(),
                ) && (match control_input(old(self).active().kind) {
                    Some(s) => control_input(final(self).active().kind) == Some(s.push(c))
                        && bd_output_of(final(self).active().kind) == bd_output_of(
                        old(self).active().kind,
                    ) && final(self).active().panel_pane() == old(self).active().panel_pane()
                        && final(self).active().selection() == old(self).active().selection(),
                    None => final(self).active() == old(self).active(),
                }),
                Command::DeleteControlPanelChar => final(self).active().same_but_kind(
                    &old(self).active(),
                ) && (match control_input(old(self).active().kind) {
                    Some(s) => control_input(final(self).active().kind) == Some(
                        if s.len() > 0 {
                            s.drop_last()
                        } else {
                            s
                        },
                    ) && bd_output_of(final(self).active().kind) == bd_output_of(
                        old(self).active().kind,
                    ) && final(self).active().panel_pane() == old(self).active().panel_pane()
                        && final(self).active().selection() == old(self).active().selection(),
                    None => final(self).active() == old(self).active(),
                }),
                Command::ReloadBdReady(output) => final(self).active().same_but_kind(
                    &old(self).active(),
                ) && (match old(self).active().kind {
                    TabKind::ControlPanel { input, focused_pane, selected_worktree, .. } => final(self).active().kind == TabKind::ControlPanel {
                        input,
                        bd_ready_output: output,
                        focused_pane,
                        selected_worktree,
                    },
                    _ => final(self).active() == old(self).active(),
                }),
                Command::WriteToTerminal(_) => final(self).active().same_but_pair(&old(self).active())
                    && final(self).active().pair.left_size() == old(self).active().pair.left_size()
                    && final(self).active().pair.right_size() == old(self).active().pair.right_size(),
                Command::ScrollUp => tab_scrolled(old(self).active(), final(self).active(), 15i16),
                Command::ScrollDown => tab_scrolled(old(self).active(), final(self).active(), -15i16),
                _ => true,
            }),
    {
        match cmd {
            Command::Quit => {},
            Command::SwitchTab(idx) => {
                if idx < self.tabs.len() {
                    self.active_tab = idx;
                }
            },
            Command::FocusPane(pane) => {
                let tab = self.current_tab_mut();
                tab.focused = pane;
            },
            Command::TogglePane => {
                let tab = self.current_tab_mut();
                tab.focused = match tab.focused {
                    Pane::Left => Pane::Right,
                    Pane::Right => Pane::Left,
                };
            },
            Command::WriteToTerminal(bytes) => {
                let tab = self.current_tab_mut();
                let focused = tab.focused;
                match tab.pair.get_mut(focused) {
                    Some(term) => {
                        let _ = term.write(bytes.as_slice());
                    },
                    None => {},
                }
            },
            Command::UpdateControlPanelInput(c) => {
                let tab = self.current_tab_mut();
                match &mut tab.kind {
                    TabKind::ControlPanel { input, .. } => push_char(input, c),
                    _ => {},
                }
            },
            Command::DeleteControlPanelChar => {
                let tab = self.current_tab_mut();
                match &mut tab.kind {
                    TabKind::ControlPanel { input, .. } => {
                        let _ = pop_char(input);
                    },
                    _ => {},
                }
            },
            Command::ReloadBdReady(output) => {
                let tab = self.current_tab_mut();
                match &mut tab.kind {
                    TabKind::ControlPanel { bd_ready_output, .. } => {
                        *bd_ready_output = output;
                    },
                    _ => {},
                }
            },
            Command::ScrollUp => {
                let tab = self.current_tab_mut();
                tab.scroll_focused(15);
            },
            Command::ScrollDown => {
                let tab = self.current_tab_mut();
                tab.scroll_focused(-15);
            },
            Command::DialogConfirm => {},
            Command::DialogCancel => {
                self.dialog = Dialog::Hidden;
            },
            Command::SelectPrevWorktree | Command::SelectNextWorktree => {},
            Command::OpenThemePicker => {
                self.dialog = Dialog::ThemePicker { selected: self.theme };
            },
        }
    }
}

} // verus!

verus! {

impl<T> Default for App<T> {
    /// A fresh application: see [`App::new`].
    fn default() -> (r: App<T>)
        ensures
            r.wf(),
            r.tabs@.len() == 1,
            r.active_tab == 0,
            r.dialog == Dialog::Hidden,
            r.tabs@[0].is_fresh_control_panel(),
    {
        App::new()
    }
}

/// Removing a tab other than the active one keeps the same tab active.
pub proof fn lemma_remove_keeps_active_tab<T>(tabs: Seq<Tab<T>>, active: usize, idx: usize)
    requires
        0 < idx < tabs.len(),
        active < tabs.len(),
        active != idx,
    ensures
        tabs.remove(idx as int)[active_after_remove(active, idx, (tabs.len() - 1) as nat) as int]
            == tabs[active as int],
{
}

/// Removing the active tab makes its successor active, or the new last tab when
/// it was the last.
pub proof fn lemma_remove_active_tab<T>(tabs: Seq<Tab<T>>, idx: usize)
    requires
        0 < idx < tabs.len(),
    ensures
        idx + 1 < tabs.len() ==> tabs.remove(idx as int)[active_after_remove(
            idx,
            idx,
            (tabs.len() - 1) as nat,
        ) as int] == tabs[idx + 1],
        idx + 1 == tabs.len() ==> active_after_remove(idx, idx, (tabs.len() - 1) as nat) == idx
            - 1,
{
}

/// Adding a worktree tab and then removing it gives back the tabs there were.
pub proof fn lemma_add_then_remove<T>(before: Seq<Tab<T>>, after: Seq<Tab<T>>)
    requires
        after.len() == before.len() + 1,
        after.take(before.len() as int) == before,
    ensures
        after.remove(before.len() as int) == before,
{
    assert(after.remove(before.len() as int) =~= before);
}

/// Toggling the pane twice gives back the pane focused before.
pub proof fn lemma_toggle_twice(p: Pane)
    ensures
        toggled(toggled(p)) == p,
{
}

/// Typing a character into the control panel and deleting one gives back the
/// input there was.
pub proof fn lemma_type_then_delete(input: Seq<char>, c: char)
    ensures
        input.push(c).drop_last() == input,
{
    assert(input.push(c).drop_last() =~= input);
}

} // verus!
