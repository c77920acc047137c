//! Keyboard and mouse events: what each does to the application state,
//! depending on whether a dialog is shown, the control panel is active, or a
//! worktree tab is.

use vstd::prelude::*;
use crate::app::{
    bd_output_of, control_input, dialog_command, handle_dialog_key, handle_key, is_key_command,
    others_unchanged, App, Command, ControlPanelPane, Dialog, Pane, Tab, TabKind,
};
use crate::input::{key_bytes, key_to_bytes, KeyCode, KeyEvent, MouseButton, MouseEvent, MouseEventKind};
use crate::layout::Rect;
use crate::theme::{all_themes, themes_spec};
use crate::terminal_pair::PaneTerminal;
use crate::text::{
    chars_of, decimal_digits, decimal_len, encode_str, lines_of, split_lines, string_of,
    utf8_bytes, utf8_len, utf8_len_mod_u16,
};
use crate::worktree::{
    rebase_prompt, rebase_prompt_spec, slug_of, slugify_prompt, worktree_list_spec,
    worktree_path_spec, warning_list, GitBackend, RemoveWarning, Worktree, WorktreeError, WorktreeManager,
    WorktreeStatus,
};

verus! {

/// What the event loop does after an event.
#[derive(Debug, Clone, Copy, PartialEq, Eq, Structural)]
pub enum KeyAction {
    /// Continue to next event
    Continue,
    /// Quit the application
    Quit,
    /// Reload the `bd ready` output into the control panel, then continue
    ReloadBdReady,
}

/// The lines of `bd ready` output, as strings.
pub fn bd_ready_lines(output: &str) -> (r: Vec<String>)
    ensures
        r@.map_values(|s: String| s@) == lines_of(output@),
{
    let chars = chars_of(output);
    let lines = split_lines(&chars);
    let mut r: Vec<String> = Vec::new();
    let mut i: usize = 0;
    while i < lines.len()
        invariant
            i <= lines@.len(),
            lines@.len() == lines_of(output@).len(),
            forall|k: int| 0 <= k < lines@.len() ==> #[trigger] lines@[k]@ == lines_of(output@)[k],
            r@.map_values(|s: String| s@) =~= lines_of(output@).take(i as int),
        decreases lines@.len() - i,
    {
        let s = string_of(&lines[i]);
        let ghost before = r@;
        r.push(s);
        assert(r@.map_values(|s: String| s@) =~= before.map_values(|s: String| s@).push(s@));
        i = i + 1;
    }
    assert(lines_of(output@).take(lines@.len() as int) =~= lines_of(output@));
    r
}

/// Whether `t` is a worktree tab on `branch`.
pub open spec fn tab_on_branch<T>(t: Tab<T>, branch: Seq<char>) -> bool {
    t.kind matches TabKind::Worktree { branch: b, .. } && b@ == branch
}

/// The first tab at or after `i` that is a worktree tab on `branch`.
pub open spec fn first_tab_from<T>(tabs: Seq<Tab<T>>, branch: Seq<char>, i: int) -> Option<int>
    decreases tabs.len() - i,
{
    if i < 0 || i >= tabs.len() {
        None
    } else if tab_on_branch(tabs[i], branch) {
        Some(i)
    } else {
        first_tab_from(tabs, branch, i + 1)
    }
}

proof fn lemma_first_tab_from_bounds<T>(tabs: Seq<Tab<T>>, branch: Seq<char>, i: int)
    requires
        0 <= i,
    ensures
        first_tab_from(tabs, branch, i) matches Some(j) ==> i <= j < tabs.len() && tab_on_branch(
            tabs[j],
            branch,
        ),
    decreases tabs.len() - i,
{
    if i < tabs.len() && !tab_on_branch(tabs[i], branch) {
        lemma_first_tab_from_bounds(tabs, branch, i + 1);
    }
}

/// Finds the first worktree tab on `branch`.
pub fn find_tab_for_branch<T>(app: &App<T>, branch: &str) -> (r: Option<usize>)
    ensures
        (match r {
            Some(i) => Some(i as int),
            None => None,
        }) == first_tab_from(app.tabs@, branch@, 0),
{
    let mut i: usize = 0;
    while i < app.tabs.len()
        invariant
            i <= app.tabs@.len(),
            first_tab_from(app.tabs@, branch@, 0) == first_tab_from(app.tabs@, branch@, i as int),
        decreases app.tabs@.len() - i,
    {
        let on_branch = match &app.tabs[i].kind {
            TabKind::Worktree { branch: b, .. } => b.eq(&String::from_str(branch)),
            _ => false,
        };
        if on_branch {
            return Some(i);
        }
        i = i + 1;
    }
    None
}

/// Handles a key in a worktree tab: the command for the key (see
/// [`is_key_command`]) is executed, except that quitting is left to the event
/// loop.
pub fn process_terminal_key<T: PaneTerminal, G: GitBackend>(
    app: &mut App<T>,
    key: &KeyEvent,
    _wt_manager: &Option<WorktreeManager<G>>,
) -> (r: KeyAction)
    requires
        old(app).wf(),
    ensures
        final(app).wf(),
        r == KeyAction::Quit || r == KeyAction::Continue,
        r == KeyAction::Quit <==> is_key_command(*key, Some(Command::Quit)),
        is_key_command(*key, None) || r == KeyAction::Quit ==> *final(app) == *old(app),
{
    let cmd = handle_key(key);
    match cmd {
        None => KeyAction::Continue,
        Some(Command::Quit) => KeyAction::Quit,
        Some(c) => {
            app.execute(c);
            KeyAction::Continue
        },
    }
}

} // verus!

verus! {

/// Whether `branch` is the main branch (`main` or `master`).
pub open spec fn is_main_branch(branch: Seq<char>) -> bool {
    branch == "main"@ || branch == "master"@
}

fn main_branch_name(branch: &str) -> (r: bool)
    ensures
        r == is_main_branch(branch@),
{
    let b = String::from_str(branch);
    b.eq(&String::from_str("main")) || b.eq(&String::from_str("master"))
}

/// The theme picker after `key`, with `selected` highlighted and theme `theme`
/// in use: the theme in use and the dialog. Down/`j` and up/`k` move the
/// highlight within the list, confirming (see [`dialog_command`]) takes the
/// highlighted theme and closes the picker, cancelling closes it, other keys
/// change nothing.
pub open spec fn theme_picker_after(key: KeyEvent, selected: usize, theme: usize) -> (usize, Dialog) {
    let n = themes_spec().len();
    if key.code == KeyCode::Down || key.code == KeyCode::Char('j') {
        (theme, Dialog::ThemePicker { selected: if selected + 1 < n { (selected + 1) as usize } else { selected } })
    } else if key.code == KeyCode::Up || key.code == KeyCode::Char('k') {
        (theme, Dialog::ThemePicker { selected: if selected > 0 { (selected - 1) as usize } else { 0 } })
    } else {
        match dialog_command(key) {
            Some(Command::DialogConfirm) => (selected, Dialog::Hidden),
            Some(Command::DialogCancel) => (theme, Dialog::Hidden),
            _ => (theme, Dialog::ThemePicker { selected }),
        }
    }
}

/// The key that removes the worktree in the worktree-action dialog: `r` or `R`.
pub open spec fn is_remove_key(key: KeyEvent) -> bool {
    key.code == KeyCode::Char('r') || key.code == KeyCode::Char('R')
}

/// The key that merges the worktree in the worktree-action dialog: `m` or `M`.
pub open spec fn is_merge_key(key: KeyEvent) -> bool {
    key.code == KeyCode::Char('m') || key.code == KeyCode::Char('M')
}

/// Handles a key while a dialog is shown. In the theme picker, see
/// [`theme_picker_after`]. In the worktree-action dialog, `r` closes it and
/// opens the delete dialog for its branch (see [`trigger_delete_worktree`]),
/// `m` closes it and hands the merge to the assistant (see
/// [`trigger_merge_worktree`]). Otherwise cancelling closes the dialog;
/// confirming a delete removes the worktree (forcing it) and its tab, then
/// closes it; confirming the uncommitted-changes notice closes it; other keys
/// do nothing.
pub fn process_dialog_key<T: PaneTerminal, G: GitBackend>(
    app: &mut App<T>,
    key: &KeyEvent,
    wt_manager: &Option<WorktreeManager<G>>,
)
    requires
        old(app).wf(),
    ensures
        final(app).wf(),
        final(app).active_tab < final(app).tabs@.len(),
        (match old(app).dialog {
            Dialog::ThemePicker { selected } => final(app).tabs@ == old(app).tabs@
                && final(app).active_tab == old(app).active_tab && (final(app).theme, final(app).dialog)
                == theme_picker_after(*key, selected, old(app).theme),
            Dialog::WorktreeAction { branch } => final(app).theme == old(app).theme
                && final(app).active_tab == old(app).active_tab && if is_remove_key(*key) {
                &&& final(app).tabs@ == old(app).tabs@
                &&& wt_manager is None || is_main_branch(branch@) ==> final(app).dialog
                    == Dialog::Hidden
                &&& wt_manager is Some && !is_main_branch(branch@) ==> dialog_after_checks(
                    final(app).dialog,
                    branch@,
                )
            } else if is_merge_key(*key) {
                &&& final(app).dialog == Dialog::Hidden
                &&& (final(app).tabs@ == old(app).tabs@ || merge_handed_over(
                    old(app).tabs@,
                    final(app).tabs@,
                ))
                &&& wt_manager is None || is_main_branch(branch@) ==> final(app).tabs@ == old(
                    app,
                ).tabs@
            } else if dialog_command(*key) == Some(Command::DialogCancel) {
                final(app).dialog == Dialog::Hidden && final(app).tabs@ == old(app).tabs@
            } else {
                *final(app) == *old(app)
            },
            _ => final(app).theme == old(app).theme && (match dialog_command(*key) {
                Some(Command::DialogCancel) => final(app).dialog == Dialog::Hidden && final(app).tabs@
                    == old(app).tabs@ && final(app).active_tab == old(app).active_tab,
                Some(Command::DialogConfirm) => match old(app).dialog {
                    Dialog::ConfirmDelete { branch, .. } => final(app).dialog == Dialog::Hidden && if wt_manager
                        is Some && first_tab_from(old(app).tabs@, branch@, 0) is Some {
                        final(app).tabs@ == old(app).tabs@.remove(
                            first_tab_from(old(app).tabs@, branch@, 0)->0,
                        )
                    } else {
                        final(app).tabs@ == old(app).tabs@ && final(app).active_tab == old(
                            app,
                        ).active_tab
                    },
                    Dialog::UncommittedChanges { .. } => final(app).dialog == Dialog::Hidden
                        && final(app).tabs@ == old(app).tabs@ && final(app).active_tab == old(
                        app,
                    ).active_tab,
                    _ => *final(app) == *old(app),
                },
                _ => *final(app) == *old(app),
            }),
        }),
{
    match app.dialog {
        Dialog::ThemePicker { selected } => {
            let n = all_themes().len();
            let down = key.code == KeyCode::Down || key.code == KeyCode::Char('j');
            let up = key.code == KeyCode::Up || key.code == KeyCode::Char('k');
            if down {
                let next = if selected + 1 < n {
                    selected + 1
                } else {
                    selected
                };
                app.dialog = Dialog::ThemePicker { selected: next };
            } else if up {
                let prev = if selected > 0 {
                    selected - 1
                } else {
                    0
                };
                app.dialog = Dialog::ThemePicker { selected: prev };
            } else {
                match handle_dialog_key(key) {
                    Some(Command::DialogConfirm) => {
                        app.theme = selected;
                        app.dialog = Dialog::Hidden;
                    },
                    Some(Command::DialogCancel) => {
                        app.dialog = Dialog::Hidden;
                    },
                    _ => {},
                }
            }
            return ;
        },
        _ => {},
    }
    let action_branch = match &app.dialog {
        Dialog::WorktreeAction { branch } => Some(branch.clone()),
        _ => None,
    };
    match action_branch {
        Some(branch) => {
            if key.code == KeyCode::Char('r') || key.code == KeyCode::Char('R') {
                app.dialog = Dialog::Hidden;
                trigger_delete_worktree(app, wt_manager, branch.as_str());
            } else if key.code == KeyCode::Char('m') || key.code == KeyCode::Char('M') {
                app.dialog = Dialog::Hidden;
                trigger_merge_worktree(app, wt_manager, branch.as_str());
            } else {
                match handle_dialog_key(key) {
                    Some(Command::DialogCancel) => {
                        app.dialog = Dialog::Hidden;
                    },
                    _ => {},
                }
            }
            return ;
        },
        None => {},
    }
    let cmd = match handle_dialog_key(key) {
        Some(c) => c,
        None => {
            return ;
        },
    };
    match cmd {
        Command::DialogCancel => {
            app.dialog = Dialog::Hidden;
        },
        Command::DialogConfirm => {
            let branch = match &app.dialog {
                Dialog::ConfirmDelete { branch, .. } => Some(branch.clone()),
                Dialog::UncommittedChanges { .. } => {
                    app.dialog = Dialog::Hidden;
                    return ;
                },
                _ => {
                    return ;
                },
            };
            match branch {
                Some(branch) => {
                    match wt_manager {
                        Some(manager) => {
                            let _ = manager.remove(branch.as_str(), true);
                            match find_tab_for_branch(app, branch.as_str()) {
                                Some(idx) => {
                                    proof {
                                        lemma_first_tab_from_bounds(app.tabs@, branch@, 0);
                                    }
                                    app.remove_tab(idx);
                                },
                                None => {},
                            }
                        },
                        None => {},
                    }
                    app.dialog = Dialog::Hidden;
                },
                None => {},
            }
        },
        _ => {},
    }
}

/// Whether `d` is the dialog to show before deleting the worktree of `branch`
/// when the safety checks gave `ws`: the uncommitted-changes notice when the
/// worktree has uncommitted changes, else the delete confirmation, warning of
/// unmerged commits when the branch is not merged.
pub open spec fn delete_dialog_is(d: Dialog, branch: Seq<char>, ws: Seq<RemoveWarning>) -> bool {
    if exists|i: int| 0 <= i < ws.len() && ws[i] is UncommittedChanges {
        d matches Dialog::UncommittedChanges { branch: b } && b@ == branch
    } else {
        d matches Dialog::ConfirmDelete { branch: b, unmerged } && b@ == branch && unmerged == exists|
            i: int,
        | 0 <= i < ws.len() && ws[i] is NotMerged
    }
}

/// Whether `d` is the delete dialog for `branch` after its safety checks:
/// the dialog for the warnings they found (a `NotMerged` warning for the
/// branch and/or `UncommittedChanges`, see
/// [`crate::worktree::warnings_for`]), or for none when they could not run.
pub open spec fn dialog_after_checks(d: Dialog, branch: Seq<char>) -> bool {
    exists|ws: Seq<RemoveWarning>|
        #[trigger] delete_dialog_is(d, branch, ws) && (ws.len() == 0 || warning_list(ws, branch))
}

/// The dialog to show before deleting the worktree of `branch`, given the
/// warnings of its safety checks.
pub fn delete_dialog_for(branch: &str, warnings: &Vec<RemoveWarning>) -> (r: Dialog)
    ensures
        delete_dialog_is(r, branch@, warnings@),
{
    let mut has_uncommitted = false;
    let mut has_unmerged = false;
    let mut i: usize = 0;
    while i < warnings.len()
        invariant
            i <= warnings@.len(),
            has_uncommitted == exists|k: int| 0 <= k < i && warnings@[k] is UncommittedChanges,
            has_unmerged == exists|k: int| 0 <= k < i && warnings@[k] is NotMerged,
        decreases warnings@.len() - i,
    {
        match &warnings[i] {
            RemoveWarning::UncommittedChanges => {
                has_uncommitted = true;
            },
            RemoveWarning::NotMerged { .. } => {
                has_unmerged = true;
            },
        }
        i = i + 1;
    }
    if has_uncommitted {
        Dialog::UncommittedChanges { branch: String::from_str(branch) }
    } else {
        Dialog::ConfirmDelete { branch: String::from_str(branch), unmerged: has_unmerged }
    }
}

/// Opens the delete dialog for the worktree of `branch`: nothing without a
/// manager or for the main branch; otherwise the safety checks run (a worktree
/// without warnings is removed right away) and the dialog reports uncommitted
/// changes, or asks to confirm, saying whether the branch is unmerged.
pub fn trigger_delete_worktree<T, G: GitBackend>(
    app: &mut App<T>,
    wt_manager: &Option<WorktreeManager<G>>,
    branch: &str,
)
    ensures
        final(app).tabs@ == old(app).tabs@,
        final(app).active_tab == old(app).active_tab,
        final(app).theme == old(app).theme,
        wt_manager is None || is_main_branch(branch@) ==> final(app).dialog == old(app).dialog,
        wt_manager is Some && !is_main_branch(branch@) ==> dialog_after_checks(
            final(app).dialog,
            branch@,
        ),
{
    let manager = match wt_manager {
        Some(m) => m,
        None => {
            return ;
        },
    };
    if main_branch_name(branch) {
        return ;
    }
    let warnings = match manager.remove(branch, false) {
        Ok(w) => w,
        Err(_) => Vec::new(),
    };
    let d = delete_dialog_for(branch, &warnings);
    assert(delete_dialog_is(d, branch@, warnings@));
    app.dialog = d;
}

/// The bytes of the prompt handed to the assistant to merge `branch`, checked
/// out at `path`: [`crate::worktree::rebase_prompt_spec`] in UTF-8.
pub open spec fn handover_bytes_spec(branch: Seq<char>, path: Seq<char>) -> Seq<u8> {
    utf8_bytes(rebase_prompt_spec(branch, path))
}

/// Builds the bytes of [`handover_bytes_spec`].
pub fn handover_bytes(branch: &str, path: &str) -> (r: Vec<u8>)
    ensures
        r@ == handover_bytes_spec(branch@, path@),
{
    let prompt = rebase_prompt(branch, path);
    encode_str(prompt.as_str())
}

/// Opens the tab of a worktree created for `prompt` on `branch`, from what the
/// creation gave (`created`): with the new worktree, a tab on `branch` at its
/// path, with `prompt`, is appended and made active; when the creation
/// failed, nothing changes.
pub fn open_created_worktree<T>(
    app: &mut App<T>,
    created: Result<Worktree, WorktreeError>,
    branch: String,
    prompt: String,
)
    requires
        old(app).wf(),
        old(app).tabs@.len() < usize::MAX,
    ensures
        final(app).wf(),
        created is Err ==> *final(app) == *old(app),
        created matches Ok(wt) ==> {
            &&& final(app).tabs@.len() == old(app).tabs@.len() + 1
            &&& final(app).tabs@.take(old(app).tabs@.len() as int) == old(app).tabs@
            &&& final(app).tabs@.last().kind matches TabKind::Worktree { path: p, branch: b, prompt: q }
                && p@ == wt.path@ && b@ == branch@ && q@ == prompt@
            &&& final(app).active_tab == old(app).tabs@.len()
            &&& final(app).dialog == old(app).dialog
            &&& final(app).theme == old(app).theme
        },
{
    match created {
        Ok(wt) => {
            app.add_worktree_tab(wt.path, branch, prompt);
        },
        Err(_) => {},
    }
}

/// Whether the tabs `after` are `before` with the control panel (the first
/// tab) focused on its assistant pane, its assistant terminal written to and
/// nothing else changed.
pub open spec fn merge_handed_over<T>(before: Seq<Tab<T>>, after: Seq<Tab<T>>) -> bool {
    &&& others_unchanged(before, after, 0)
    &&& after[0].focused == before[0].focused
    &&& after[0].pair == before[0].pair
    &&& after[0].diff_viewer == before[0].diff_viewer
    &&& after[0].claude_terminal_size == before[0].claude_terminal_size
    &&& (after[0].claude_terminal is Some == before[0].claude_terminal is Some)
    &&& after[0].kind == Tab::<T>::kind_with_pane(before[0].kind, ControlPanelPane::Claude)
}

/// Hands the merge of `branch` to the assistant once the worktree of the
/// branch has been looked up (`worktree`): with its path `p`, the bytes of
/// [`handover_bytes_spec`]`(branch, p)` and then a carriage return are written
/// to the control panel's assistant terminal (if it runs) and its assistant
/// pane is focused; when no
/// worktree was found, nothing changes.
pub fn hand_over_merge<T: PaneTerminal>(
    app: &mut App<T>,
    branch: &str,
    worktree: Result<String, WorktreeError>,
)
    requires
        old(app).tabs@.len() > 0,
    ensures
        final(app).active_tab == old(app).active_tab,
        final(app).theme == old(app).theme,
        final(app).dialog == old(app).dialog,
        worktree is Err ==> final(app).tabs@ == old(app).tabs@,
        worktree is Ok ==> merge_handed_over(old(app).tabs@, final(app).tabs@),
{
    let path = match worktree {
        Ok(p) => p,
        Err(_) => {
            return ;
        },
    };
    let bytes = handover_bytes(branch, path.as_str());
    let mut enter: Vec<u8> = Vec::new();
    enter.push(13u8);
    let panel = app.control_panel_mut();
    match panel.claude_terminal.as_mut() {
        Some(term) => {
            let _ = term.write(bytes.as_slice());
            let _ = term.write(enter.as_slice());
        },
        None => {},
    }
    panel.set_control_panel_pane(ControlPanelPane::Claude);
}

/// Hands the merge of `branch` to the assistant: nothing without a manager or
/// for the main branch; otherwise the worktree of the branch is looked up
/// (see [`WorktreeManager::switch`]) and [`hand_over_merge`] acts on the
/// answer.
pub fn trigger_merge_worktree<T: PaneTerminal, G: GitBackend>(
    app: &mut App<T>,
    wt_manager: &Option<WorktreeManager<G>>,
    branch: &str,
)
    requires
        old(app).tabs@.len() > 0,
    ensures
        final(app).active_tab == old(app).active_tab,
        final(app).theme == old(app).theme,
        final(app).dialog == old(app).dialog,
        final(app).tabs@ == old(app).tabs@ || merge_handed_over(old(app).tabs@, final(app).tabs@),
        wt_manager is None || is_main_branch(branch@) ==> final(app).tabs@ == old(app).tabs@,
{
    let manager = match wt_manager {
        Some(m) => m,
        None => {
            return ;
        },
    };
    if main_branch_name(branch) {
        return ;
    }
    let worktree = manager.switch(branch);
    hand_over_merge(app, branch, worktree);
}

/// The branch of the worktree selected in the control panel, if there is a
/// manager, the listing succeeds, the selection is in range and the worktree
/// has a branch.
pub fn get_selected_worktree_branch<T, G: GitBackend>(
    app: &App<T>,
    wt_manager: &Option<WorktreeManager<G>>,
) -> (r: Option<String>)
    requires
        app.active_tab < app.tabs@.len(),
    ensures
        wt_manager is None ==> r is None,
        r matches Some(b) ==> listed_selection(app.active().selection(), b@),
{
    let manager = match wt_manager {
        Some(m) => m,
        None => {
            return None;
        },
    };
    let statuses = match manager.list_with_status() {
        Ok(s) => s,
        Err(_) => {
            return None;
        },
    };
    let selected = app.current_tab().selected_worktree();
    selected_branch(&statuses, selected)
}

/// The branch of the worktree at `idx` of `statuses`: `None` when `idx` is
/// out of range or the worktree has no branch.
pub fn selected_branch(statuses: &Vec<WorktreeStatus>, idx: usize) -> (r: Option<String>)
    ensures
        r matches Some(b) ==> idx < statuses@.len() && (statuses@[idx as int].worktree.branch
            matches Some(x) && x@ == b@),
        r is None ==> idx >= statuses@.len() || statuses@[idx as int].worktree.branch is None,
{
    if idx < statuses.len() {
        match &statuses[idx].worktree.branch {
            Some(b) => Some(b.clone()),
            None => None,
        }
    } else {
        None
    }
}

} // verus!

verus! {

/// Whether some listing of the worktrees has, at index `sel`, a worktree on
/// branch `b`.
pub open spec fn listed_selection(sel: usize, b: Seq<char>) -> bool {
    exists|out: Seq<char>|
        sel < (#[trigger] worktree_list_spec(out)).len() && worktree_list_spec(out)[sel as int].branch
            == Some(b)
}

/// Whether tabs `after` are tabs `before` with only the input of the control
/// panel at `i` changed, to `input`.
pub open spec fn input_set<T>(before: Seq<Tab<T>>, after: Seq<Tab<T>>, i: int, input: Seq<char>) -> bool {
    &&& others_unchanged(before, after, i)
    &&& after[i].same_but_kind(&before[i])
    &&& control_input(after[i].kind) == Some(input)
    &&& bd_output_of(after[i].kind) == bd_output_of(before[i].kind)
    &&& after[i].panel_pane() == before[i].panel_pane()
    &&& after[i].selection() == before[i].selection()
}

/// Whether `after` is `before` after Enter on the prompt `p` with manager `m`
/// created the worktree: the prompt is cleared, a worktree tab on branch
/// [`slug_of`]`(p)` at the worktree path for that branch, with prompt `p`, is
/// appended and made active.
pub open spec fn created_tab<T, G: GitBackend>(before: App<T>, after: App<T>, p: Seq<char>, m: WorktreeManager<G>) -> bool {
    &&& after.tabs@.len() == before.tabs@.len() + 1
    &&& input_set(before.tabs@, after.tabs@.take(before.tabs@.len() as int), before.active_tab as int, Seq::empty())
    &&& after.active_tab == before.tabs@.len()
    &&& after.dialog == before.dialog
    &&& after.theme == before.theme
    &&& after.tabs@[before.tabs@.len() as int].kind matches TabKind::Worktree { path, branch, prompt }
        && branch@ == slug_of(p) && prompt@ == p && path@ == worktree_path_spec(m.root(), m.name(), slug_of(p))
}

/// Whether `after` is `before` with the control panel's selection moved down
/// by at most one and nothing else changed.
pub open spec fn next_selected<T>(before: App<T>, after: App<T>) -> bool {
    &&& after.active_tab == before.active_tab
    &&& after.dialog == before.dialog
    &&& after.theme == before.theme
    &&& others_unchanged(before.tabs@, after.tabs@, before.active_tab as int)
    &&& (after.active().selection() == before.active().selection() || after.active().selection()
        == before.active().selection() + 1)
    &&& after.active() == before.active().with_kind(
        Tab::<T>::kind_with_selection(before.active().kind, after.active().selection()),
    )
}

/// Whether `after` is `before` with the control panel's input set to `input`
/// and nothing else changed.
pub open spec fn only_input<T>(before: App<T>, after: App<T>, input: Seq<char>) -> bool {
    &&& after.active_tab == before.active_tab
    &&& after.dialog == before.dialog
    &&& after.theme == before.theme
    &&& input_set(before.tabs@, after.tabs@, before.active_tab as int, input)
}

/// Whether the control panel handles `key` as an Alt shortcut: `b` (reload),
/// `h`/`l` (focus a pane) or one of the terminal-tab shortcuts.
pub open spec fn is_panel_shortcut(key: KeyEvent) -> bool {
    key.modifiers.alt && (match key.code {
        KeyCode::Char(c) => c == 'b' || c == 'h' || c == 'l' || crate::app::alt_command(c) is Some,
        _ => false,
    })
}

/// Handles a key in the control panel. Alt shortcuts: `b` asks the event loop
/// to reload the `bd ready` output, `h`/`l` focus the content or assistant pane,
/// the others act as in a worktree tab (quitting is left to the event loop).
/// Other keys go to the focused pane: in the content pane, up/`k` and down/`j`
/// move the worktree selection, Enter creates a worktree and tab from the typed
/// prompt (or, with no prompt, opens the action dialog for the selected
/// worktree unless it is on the main branch), Backspace and characters edit the prompt;
/// in the assistant pane, the key's bytes go to the assistant terminal.
pub fn process_control_panel_key<T: PaneTerminal, G: GitBackend>(
    app: &mut App<T>,
    key: &KeyEvent,
    wt_manager: &Option<WorktreeManager<G>>,
) -> (r: KeyAction)
    requires
        old(app).wf(),
        old(app).tabs@.len() < usize::MAX,
    ensures
        final(app).wf(),
        r == KeyAction::ReloadBdReady <==> (key.modifiers.alt && key.code == KeyCode::Char('b')),
        r == KeyAction::Quit <==> (key.modifiers.alt && key.code == KeyCode::Char('q')),
        r != KeyAction::Continue ==> *final(app) == *old(app),
        key.modifiers.alt && (key.code == KeyCode::Char('h') || key.code == KeyCode::Char('l'))
            ==> final(app).tabs@ == old(app).tabs@.update(
            old(app).active_tab as int,
            old(app).active().with_kind(
                Tab::<T>::kind_with_pane(
                    old(app).active().kind,
                    if key.code == KeyCode::Char('h') {
                        ControlPanelPane::Content
                    } else {
                        ControlPanelPane::Claude
                    },
                ),
            ),
        ) && final(app).active_tab == old(app).active_tab && final(app).dialog == old(
            app,
        ).dialog,
        !is_panel_shortcut(*key) && old(app).active().panel_pane() == ControlPanelPane::Content && (
        key.code == KeyCode::Up || key.code == KeyCode::Char('k')) ==> final(app).tabs@
            == old(app).tabs@.update(
            old(app).active_tab as int,
            old(app).active().with_kind(
                Tab::<T>::kind_with_selection(
                    old(app).active().kind,
                    if old(app).active().selection() > 0 {
                        (old(app).active().selection() - 1) as usize
                    } else {
                        0
                    },
                ),
            ),
        ) && final(app).active_tab == old(app).active_tab,
        ({
            let t = old(app).active();
            let sel = t.selection();
            let typed = control_input(t.kind)->0;
            !is_panel_shortcut(*key) && t.kind is ControlPanel ==> if t.panel_pane()
                == ControlPanelPane::Content {
                match key.code {
                    KeyCode::Up => true,
                    KeyCode::Down => next_selected(*old(app), *final(app)),
                    KeyCode::Backspace => only_input(
                        *old(app),
                        *final(app),
                        if typed.len() > 0 {
                            typed.drop_last()
                        } else {
                            typed
                        },
                    ),
                    KeyCode::Char(c) => if c == 'k' {
                        true
                    } else if c == 'j' {
                        next_selected(*old(app), *final(app))
                    } else {
                        only_input(*old(app), *final(app), typed.push(c))
                    },
                    KeyCode::Enter => if typed.len() > 0 {
                        match wt_manager {
                            Some(m) => only_input(*old(app), *final(app), Seq::empty()) || created_tab(
                                *old(app),
                                *final(app),
                                typed,
                                *m,
                            ),
                            None => only_input(*old(app), *final(app), Seq::empty()),
                        }
                    } else {
                        &&& final(app).active_tab == old(app).active_tab
                        &&& final(app).theme == old(app).theme
                        &&& input_set(old(app).tabs@, final(app).tabs@, old(app).active_tab as int, typed)
                        &&& (final(app).dialog == old(app).dialog || (wt_manager is Some
                            && (final(app).dialog matches Dialog::WorktreeAction { branch: d }
                            && listed_selection(sel, d@) && !is_main_branch(d@))))
                    },
                    _ => *final(app) == *old(app),
                }
            } else {
                &&& final(app).active_tab == old(app).active_tab
                &&& final(app).dialog == old(app).dialog
                &&& final(app).theme == old(app).theme
                &&& others_unchanged(old(app).tabs@, final(app).tabs@, old(app).active_tab as int)
                &&& final(app).active().kind == t.kind
                &&& final(app).active().focused == t.focused
                &&& final(app).active().pair == t.pair
                &&& final(app).active().diff_viewer == t.diff_viewer
                &&& final(app).active().claude_terminal_size == t.claude_terminal_size
                &&& (final(app).active().claude_terminal is Some == t.claude_terminal is Some)
            }
        }),
{
    if key.modifiers.alt {
        match key.code {
            KeyCode::Char('b') => {
                return KeyAction::ReloadBdReady;
            },
            KeyCode::Char('h') => {
                app.current_tab_mut().set_control_panel_pane(ControlPanelPane::Content);
                return KeyAction::Continue;
            },
            KeyCode::Char('l') => {
                app.current_tab_mut().set_control_panel_pane(ControlPanelPane::Claude);
                return KeyAction::Continue;
            },
            _ => {},
        }
        match handle_key(key) {
            Some(Command::Quit) => {
                return KeyAction::Quit;
            },
            Some(cmd) => {
                app.execute(cmd);
                return KeyAction::Continue;
            },
            None => {},
        }
    }
    let ghost typed = control_input(old(app).active().kind)->0;
    let focused_pane = app.current_tab().control_panel_pane();
    match focused_pane {
        ControlPanelPane::Content => {
            match key.code {
                KeyCode::Up | KeyCode::Char('k') => {
                    app.current_tab_mut().select_prev_worktree();
                    return KeyAction::Continue;
                },
                KeyCode::Down | KeyCode::Char('j') => {
                    let worktree_count = match wt_manager {
                        Some(m) => match m.list_with_status() {
                            Ok(v) => v.len(),
                            Err(_) => 0,
                        },
                        None => 0,
                    };
                    app.current_tab_mut().select_next_worktree(worktree_count);
                    assert(next_selected(*old(app), *app));
                    return KeyAction::Continue;
                },
                _ => {},
            }
            match key.code {
                KeyCode::Enter => {
                    let prompt = app.take_control_panel_input();
                    let ghost cleared = *app;
                    assert(old(app).active().kind is ControlPanel ==> only_input(*old(app), cleared, Seq::empty()));
                    match (prompt, wt_manager) {
                        (Some(prompt), Some(manager)) => {
                            let branch = slugify_prompt(prompt.as_str());
                            let created = manager.create(branch.as_str(), Some(prompt.as_str()));
                            open_created_worktree(app, created, branch, prompt);
                            assert(old(app).active().kind is ControlPanel ==> (only_input(*old(app), *app, Seq::empty()) || created_tab(*old(app), *app, typed, *manager)));
                        },
                        _ => {
                            proof {
                                if typed.len() == 0 {
                                    assert(typed =~= Seq::<char>::empty());
                                }
                            }
                            match get_selected_worktree_branch(app, wt_manager) {
                                Some(branch) => {
                                    if !main_branch_name(branch.as_str()) {
                                        proof {
                                            assert(listed_selection(old(app).active().selection(), branch@));
                                        }
                                        app.dialog = Dialog::WorktreeAction { branch };
                                    }
                                },
                                None => {},
                            }
                        },
                    }
                },
                KeyCode::Backspace => {
                    app.execute(Command::DeleteControlPanelChar);
                    assert(old(app).active().kind is ControlPanel ==> only_input(
                        *old(app),
                        *app,
                        if typed.len() > 0 {
                            typed.drop_last()
                        } else {
                            typed
                        },
                    ));
                },
                KeyCode::Char(c) => {
                    app.execute(Command::UpdateControlPanelInput(c));
                    assert(old(app).active().kind is ControlPanel ==> only_input(*old(app), *app, typed.push(c)));
                },
                _ => {},
            }
        },
        ControlPanelPane::Claude => {
            let bytes = key_to_bytes(key);
            if bytes.len() > 0 {
                let tab = app.current_tab_mut();
                match tab.claude_terminal.as_mut() {
                    Some(term) => {
                        let _ = term.write(bytes.as_slice());
                    },
                    None => {},
                }
            }
            assert(others_unchanged(old(app).tabs@, app.tabs@, old(app).active_tab as int));
            assert(app.active().kind == old(app).active().kind);
        },
    }
    KeyAction::Continue
}

} // verus!

verus! {

/// The width of the tab bar entry of tab `i`: its label (`0 Control` for the
/// control panel, `<i> <branch>` for a worktree, measured in bytes) plus three
/// cells, cut to 16 bits.
pub open spec fn tab_width<T>(tab: Tab<T>, i: nat) -> nat {
    let label = match tab.kind {
        TabKind::ControlPanel { .. } => 9,
        TabKind::Worktree { branch, .. } => decimal_len(i) + 1 + utf8_len(branch@),
    };
    ((label + 3) % 65536) as nat
}

/// The tab whose entry covers `column`, looking from tab `i`, whose entry
/// starts at `x`.
pub open spec fn tab_hit<T>(tabs: Seq<Tab<T>>, column: nat, i: int, x: nat) -> Option<usize>
    decreases tabs.len() - i,
{
    if i < 0 || i >= tabs.len() {
        None
    } else {
        let w = tab_width(tabs[i], i as nat);
        if x <= column < x + w {
            Some(i as usize)
        } else {
            tab_hit(tabs, column, i + 1, x + w)
        }
    }
}

proof fn lemma_tab_hit_bounds<T>(tabs: Seq<Tab<T>>, column: nat, i: int, x: nat)
    requires
        0 <= i,
    ensures
        tab_hit(tabs, column, i, x) matches Some(j) ==> j < tabs.len(),
    decreases tabs.len() - i,
{
    if i < tabs.len() {
        let w = tab_width(tabs[i], i as nat);
        if !(x <= column < x + w) {
            lemma_tab_hit_bounds(tabs, column, i + 1, x + w);
        }
    }
}

fn tab_entry_width<T>(tab: &Tab<T>, i: usize) -> (r: u32)
    ensures
        r == tab_width(*tab, i as nat),
{
    match &tab.kind {
        TabKind::ControlPanel { .. } => 12,
        TabKind::Worktree { branch, .. } => {
            let digits = decimal_digits(i);
            let bytes = utf8_len_mod_u16(branch.as_str());
            proof {
                vstd::arithmetic::div_mod::lemma_add_mod_noop(
                    utf8_len(branch@) as int,
                    (decimal_len(i as nat) + 4) as int,
                    65536,
                );
                vstd::arithmetic::div_mod::lemma_small_mod((decimal_len(i as nat) + 4) as nat, 65536);
            }
            (bytes + digits + 4) % 65536
        },
    }
}

/// The pane a click at `column` focuses in an area split in two at `mid`.
pub open spec fn clicked_left(column: u16, main_area: Rect) -> bool {
    column < main_area.x + main_area.width / 2
}

/// Handles a mouse click; returns whether to quit. Only left-button presses
/// count. On the tab bar row, a press at or right of the quit button quits, and
/// one on a tab's entry switches to it. In the main area, a press left or right
/// of the middle focuses that pane (the content or assistant pane of the control
/// panel). Other presses do nothing.
pub fn process_mouse_click<T: PaneTerminal>(
    app: &mut App<T>,
    mouse: &MouseEvent,
    tab_area: Rect,
    quit_button_x: u16,
    main_area: Rect,
) -> (r: bool)
    requires
        old(app).wf(),
    ensures
        final(app).wf(),
        final(app).dialog == old(app).dialog,
        final(app).theme == old(app).theme,
        mouse.kind != MouseEventKind::Down(MouseButton::Left) ==> !r && *final(app) == *old(app),
        mouse.kind == MouseEventKind::Down(MouseButton::Left) && mouse.row == tab_area.y ==> {
            &&& r == (mouse.column >= quit_button_x)
            &&& final(app).tabs@ == old(app).tabs@
            &&& final(app).active_tab == if !r && tab_area.x <= mouse.column < tab_area.x
                + tab_area.width && tab_hit(old(app).tabs@, mouse.column as nat, 0, 0) is Some {
                tab_hit(old(app).tabs@, mouse.column as nat, 0, 0)->0
            } else {
                old(app).active_tab
            }
        },
        mouse.kind == MouseEventKind::Down(MouseButton::Left) && mouse.row != tab_area.y && main_area.y
            <= mouse.row < main_area.y + main_area.height ==> {
            &&& !r
            &&& final(app).active_tab == old(app).active_tab
            &&& final(app).tabs@ == old(app).tabs@.update(
                old(app).active_tab as int,
                if old(app).active().kind is ControlPanel {
                    old(app).active().with_kind(
                        Tab::<T>::kind_with_pane(
                            old(app).active().kind,
                            if clicked_left(mouse.column, main_area) {
                                ControlPanelPane::Content
                            } else {
                                ControlPanelPane::Claude
                            },
                        ),
                    )
                } else {
                    Tab {
                        focused: if clicked_left(mouse.column, main_area) {
                            Pane::Left
                        } else {
                            Pane::Right
                        },
                        ..old(app).active()
                    }
                },
            )
        },
        mouse.kind == MouseEventKind::Down(MouseButton::Left) && mouse.row != tab_area.y && !(
        main_area.y <= mouse.row < main_area.y + main_area.height) ==> !r && *final(app) == *old(
            app,
        ),
{
    if mouse.kind != MouseEventKind::Down(MouseButton::Left) {
        return false;
    }
    if mouse.row == tab_area.y {
        if mouse.column >= quit_button_x {
            return true;
        }
        let column = mouse.column as u128;
        if column >= tab_area.x as u128 && column < (tab_area.x as u128) + (tab_area.width as u128) {
            let mut x: u128 = 0;
            let mut i: usize = 0;
            while i < app.tabs.len()
                invariant
                    i <= app.tabs@.len(),
                    *app == *old(app),
                    old(app).wf(),
                    mouse.kind == MouseEventKind::Down(MouseButton::Left),
                    mouse.row == tab_area.y,
                    mouse.column < quit_button_x,
                    column == mouse.column as u128,
                    tab_area.x <= mouse.column < tab_area.x + tab_area.width,
                    x <= 65536 * i,
                    tab_hit(app.tabs@, column as nat, 0, 0) == tab_hit(
                        app.tabs@,
                        column as nat,
                        i as int,
                        x as nat,
                    ),
                decreases app.tabs@.len() - i,
            {
                let w = tab_entry_width(&app.tabs[i], i);
                if column >= x && column < x + (w as u128) {
                    proof {
                        lemma_tab_hit_bounds(app.tabs@, column as nat, 0, 0);
                    }
                    app.execute(Command::SwitchTab(i));
                    return false;
                }
                x = x + (w as u128);
                i = i + 1;
            }
        }
        return false;
    }
    if mouse.row >= main_area.y && (mouse.row as u32) < (main_area.y as u32) + (
    main_area.height as u32) {
        let mid_x = (main_area.x as u32) + (main_area.width as u32) / 2;
        let left = (mouse.column as u32) < mid_x;
        if app.current_tab().is_control_panel() {
            let pane = if left {
                ControlPanelPane::Content
            } else {
                ControlPanelPane::Claude
            };
            app.current_tab_mut().set_control_panel_pane(pane);
        } else {
            let pane = if left {
                Pane::Left
            } else {
                Pane::Right
            };
            app.execute(Command::FocusPane(pane));
        }
    }
    false
}

} // verus!

verus! {

/// Routes a key: to the dialog when one is shown (the event loop then goes on),
/// else to the control panel when it is the active tab, else to the worktree
/// tab.
pub fn process_key<T: PaneTerminal, G: GitBackend>(
    app: &mut App<T>,
    key: &KeyEvent,
    wt_manager: &Option<WorktreeManager<G>>,
) -> (r: KeyAction)
    requires
        old(app).wf(),
        old(app).tabs@.len() < usize::MAX,
    ensures
        final(app).wf(),
        !(old(app).dialog is Hidden) ==> r == KeyAction::Continue,
        old(app).dialog is Hidden && old(app).active().kind is ControlPanel ==> {
            &&& r == KeyAction::ReloadBdReady <==> (key.modifiers.alt && key.code == KeyCode::Char('b'))
            &&& r == KeyAction::Quit <==> (key.modifiers.alt && key.code == KeyCode::Char('q'))
        },
        old(app).dialog is Hidden && !(old(app).active().kind is ControlPanel) ==> {
            &&& r != KeyAction::ReloadBdReady
            &&& r == KeyAction::Quit <==> is_key_command(*key, Some(Command::Quit))
        },
{
    match app.dialog {
        Dialog::Hidden => {},
        _ => {
            process_dialog_key(app, key, wt_manager);
            return KeyAction::Continue;
        },
    }
    if app.current_tab().is_control_panel() {
        process_control_panel_key(app, key, wt_manager)
    } else {
        process_terminal_key(app, key, wt_manager)
    }
}

} // verus!
