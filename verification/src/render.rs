//! What the screen shows, as styled text: the tab bar, the status bar, the
//! control panel's panes and the dialogs. Laying these out on the terminal is
//! left to the drawing code; everything that is decided about their text and
//! colors is here.

use vstd::prelude::*;
use crate::app::{App, Dialog, TabKind};
use crate::layout::Rect;
use crate::style::{line_views, span_views, Color, Line, Modifier, Span, Style};
use crate::text::{
    chars_of, contains_str, contains_sub, decimal_chars, decimal_string, has_prefix, starts_with,
    trim, trim_chars, string_of,
};
use crate::theme::{all_themes, red, themes_spec, Theme};
use crate::worktree::{path_eq, same_path, WorktreeStatus};

verus! {

/// The view of a styled piece of text.
pub type SpanView = (Seq<char>, Style);

/// The view of a line of styled text.
pub type LineView = Seq<(Seq<char>, Style)>;

/// The style with foreground `fg` only.
pub open spec fn fg_only(fg: Color) -> Style {
    Style::plain().fg_spec(fg)
}

/// The style with foreground `fg` and background `bg`.
pub open spec fn fg_bg(fg: Color, bg: Color) -> Style {
    Style { fg: Some(fg), bg: Some(bg), ..Style::plain() }
}

/// Bold emphasis.
pub open spec fn bold_mod() -> Modifier {
    Modifier { bold: true, ..Modifier::none_spec() }
}

fn push_span(out: &mut Vec<Span>, s: Span)
    ensures
        span_views(final(out)@) == span_views(old(out)@).push(s@),
{
    let ghost before = out@;
    let ghost sv = s@;
    out.push(s);
    assert(span_views(out@) =~= span_views(before).push(sv));
}

fn push_line(out: &mut Vec<Line>, l: Line)
    ensures
        line_views(final(out)@) == line_views(old(out)@).push(l@),
{
    let ghost before = out@;
    let ghost lv = l@;
    out.push(l);
    assert(line_views(out@) =~= line_views(before).push(lv));
}

fn styled_string(content: String, style: Style) -> (r: Span)
    ensures
        r@ == (content@, style),
{
    Span { content, style }
}

fn line_of(spans: Vec<Span>) -> (r: Line)
    ensures
        r@ == span_views(spans@),
{
    Line::from_spans(spans)
}

// ---------------------------------------------------------------------------
// Tab bar
// ---------------------------------------------------------------------------

/// Whether the status recorded for `path` says the worktree is dirty: the
/// first status whose path is the same path as `path` counts.
pub open spec fn dirty_status(statuses: Seq<WorktreeStatus>, path: Seq<char>) -> bool
    decreases statuses.len(),
{
    if statuses.len() == 0 {
        false
    } else if path_eq(statuses[0].worktree.path@, path) {
        statuses[0].is_dirty
    } else {
        dirty_status(statuses.drop_first(), path)
    }
}

fn is_dirty_path(statuses: &Vec<WorktreeStatus>, path: &String) -> (r: bool)
    ensures
        r == dirty_status(statuses@, path@),
{
    let mut i: usize = 0;
    assert(statuses@.skip(0) =~= statuses@);
    while i < statuses.len()
        invariant
            i <= statuses@.len(),
            dirty_status(statuses@, path@) == dirty_status(statuses@.skip(i as int), path@),
        decreases statuses@.len() - i,
    {
        assert(statuses@.skip(i as int).drop_first() =~= statuses@.skip(i + 1));
        if same_path(statuses[i].worktree.path.as_str(), path.as_str()) {
            return statuses[i].is_dirty;
        }
        i = i + 1;
    }
    false
}

/// The spans of the tab at `index`: its label in the tab colors, a red dot
/// after a worktree that is dirty, and a separating space.
pub open spec fn tab_spans(index: nat, kind: TabKind, is_active: bool, statuses: Seq<WorktreeStatus>, theme: Theme) -> Seq<SpanView> {
    let sep = (" "@, Style::plain());
    match kind {
        TabKind::ControlPanel { .. } => {
            let style = if is_active {
                fg_bg(theme.bg, theme.accents.purple)
            } else {
                fg_bg(theme.accents.purple, theme.ui)
            };
            seq![(" 1 Control "@, style), sep]
        },
        TabKind::Worktree { path, branch, .. } => {
            let style = if is_active {
                fg_bg(theme.bg, theme.accent)
            } else {
                fg_bg(theme.tx, theme.ui)
            };
            let label = " "@ + decimal_chars(index + 1) + " "@ + branch@ + " "@;
            let dot = if dirty_status(statuses, path@) {
                seq![("●"@, fg_only(red()))]
            } else {
                Seq::<SpanView>::empty()
            };
            seq![(label, style)] + dot + seq![sep]
        },
    }
}

/// The kinds of a sequence of tabs.
pub open spec fn tab_kinds<T>(tabs: Seq<crate::app::Tab<T>>) -> Seq<TabKind> {
    tabs.map_values(|t: crate::app::Tab<T>| t.kind)
}

/// The spans of the tab bar for tabs of the given kinds, `active` being the
/// active one: the spans of each tab in turn, numbered from one.
pub open spec fn tab_bar_spec(kinds: Seq<TabKind>, active: int, statuses: Seq<WorktreeStatus>, theme: Theme) -> Seq<SpanView>
    decreases kinds.len(),
{
    if kinds.len() == 0 {
        Seq::empty()
    } else {
        let i = kinds.len() - 1;
        tab_bar_spec(kinds.drop_last(), active, statuses, theme) + tab_spans(
            i as nat,
            kinds.last(),
            i == active,
            statuses,
            theme,
        )
    }
}

fn append_spans(out: &mut Vec<Span>, more: Vec<Span>)
    ensures
        span_views(final(out)@) == span_views(old(out)@) + span_views(more@),
{
    let mut i: usize = 0;
    let ghost start = span_views(out@);
    while i < more.len()
        invariant
            i <= more@.len(),
            span_views(out@) == start + span_views(more@).take(i as int),
        decreases more@.len() - i,
    {
        assert(span_views(more@).take(i + 1) =~= span_views(more@).take(i as int).push(
            more@[i as int]@,
        ));
        push_span(out, more[i].copy());
        i = i + 1;
    }
    assert(span_views(more@).take(more@.len() as int) =~= span_views(more@));
}

fn tab_spans_exec(index: usize, kind: &TabKind, is_active: bool, statuses: &Vec<WorktreeStatus>, theme: &Theme) -> (r: Vec<Span>)
    requires
        index < usize::MAX,
    ensures
        span_views(r@) == tab_spans(index as nat, *kind, is_active, statuses@, *theme),
{
    let mut out: Vec<Span> = Vec::new();
    match kind {
        TabKind::ControlPanel { .. } => {
            let (fg, bg) = if is_active {
                theme.active_control_tab_colors()
            } else {
                theme.inactive_control_tab_colors()
            };
            push_span(&mut out, Span::styled(" 1 Control ", Style::new().fg(fg).bg(bg)));
        },
        TabKind::Worktree { path, branch, .. } => {
            let (fg, bg) = if is_active {
                theme.active_tab_colors()
            } else {
                theme.inactive_tab_colors()
            };
            let mut label = String::from_str(" ");
            let number = decimal_string(index + 1);
            label.append(number.as_str());
            label.append(" ");
            label.append(branch.as_str());
            label.append(" ");
            push_span(&mut out, styled_string(label, Style::new().fg(fg).bg(bg)));
            if is_dirty_path(statuses, path) {
                push_span(&mut out, Span::styled("●", Style::new().fg(red())));
            }
        },
    }
    push_span(&mut out, Span::raw(" "));
    proof {
        let t = tab_spans(index as nat, *kind, is_active, statuses@, *theme);
        assert(span_views(out@) =~= t);
    }
    out
}

/// The spans of the tab bar: each tab's label, numbered from one, in the
/// control or worktree colors, active or not; a red dot after each worktree
/// whose status says it is dirty.
pub fn tab_bar_spans<T>(app: &App<T>, statuses: &Vec<WorktreeStatus>, theme: &Theme) -> (r: Vec<Span>)
    ensures
        span_views(r@) == tab_bar_spec(tab_kinds(app.tabs@), app.active_tab as int, statuses@, *theme),
{
    let mut out: Vec<Span> = Vec::new();
    let mut i: usize = 0;
    let ghost kinds = tab_kinds(app.tabs@);
    assert(kinds.take(0) =~= Seq::<TabKind>::empty());
    while i < app.tabs.len()
        invariant
            i <= app.tabs@.len(),
            kinds == tab_kinds(app.tabs@),
            span_views(out@) == tab_bar_spec(kinds.take(i as int), app.active_tab as int, statuses@, *theme),
        decreases app.tabs@.len() - i,
    {
        let spans = tab_spans_exec(i, &app.tabs[i].kind, i == app.active_tab, statuses, theme);
        append_spans(&mut out, spans);
        assert(kinds.take(i + 1).drop_last() =~= kinds.take(i as int));
        assert(kinds.take(i + 1).last() == app.tabs@[i as int].kind);
        i = i + 1;
    }
    assert(kinds.take(app.tabs@.len() as int) =~= kinds);
    out
}

/// The column of the quit button `[X]` at the right end of a tab bar `width`
/// cells wide.
pub fn quit_button_x(width: u16) -> (r: u16)
    ensures
        r == if width >= 3 { width - 3 } else { 0 },
{
    width.saturating_sub(3)
}

// ---------------------------------------------------------------------------
// Status bar
// ---------------------------------------------------------------------------

/// The spans of one shortcut of the status bar: the key, the action, a space.
pub open spec fn shortcut_spans(key: Seq<char>, action: Seq<char>, theme: Theme) -> Seq<SpanView> {
    seq![
        (" "@ + key + " "@, fg_bg(theme.bg, theme.accents.green)),
        (" "@ + action + " "@, fg_only(theme.highlight)),
        (" "@, Style::plain()),
    ]
}

/// The spans of the status bar: the keyboard shortcuts in turn.
pub open spec fn status_bar_spec(theme: Theme) -> Seq<SpanView> {
    shortcut_spans("Alt+0-9"@, "Tabs"@, theme) + shortcut_spans("Alt+h/l"@, "Focus"@, theme)
        + shortcut_spans("Alt+u/d"@, "Scroll"@, theme) + shortcut_spans("Alt+t"@, "Theme"@, theme)
        + shortcut_spans("Alt+q"@, "Quit"@, theme)
}

fn push_shortcut(out: &mut Vec<Span>, key: &str, action: &str, theme: &Theme)
    ensures
        span_views(final(out)@) == span_views(old(out)@) + shortcut_spans(key@, action@, *theme),
{
    let (key_fg, key_bg) = theme.status_key_colors();
    let key_style = Style::new().fg(key_fg).bg(key_bg);
    let action_style = Style::new().fg(theme.status_action_color());
    let mut k = String::from_str(" ");
    k.append(key);
    k.append(" ");
    let mut a = String::from_str(" ");
    a.append(action);
    a.append(" ");
    let ghost start = span_views(out@);
    push_span(out, styled_string(k, key_style));
    push_span(out, styled_string(a, action_style));
    push_span(out, Span::raw(" "));
    assert(span_views(out@) =~= start + shortcut_spans(key@, action@, *theme));
}

/// The spans of the status bar: each shortcut's key in the key colors, its
/// action in the action color, then a space.
pub fn status_bar_spans(theme: &Theme) -> (r: Vec<Span>)
    ensures
        span_views(r@) == status_bar_spec(*theme),
{
    let mut out: Vec<Span> = Vec::new();
    assert(span_views(out@) =~= Seq::<SpanView>::empty());
    push_shortcut(&mut out, "Alt+0-9", "Tabs", theme);
    push_shortcut(&mut out, "Alt+h/l", "Focus", theme);
    push_shortcut(&mut out, "Alt+u/d", "Scroll", theme);
    push_shortcut(&mut out, "Alt+t", "Theme", theme);
    push_shortcut(&mut out, "Alt+q", "Quit", theme);
    assert(span_views(out@) =~= status_bar_spec(*theme));
    out
}

// ---------------------------------------------------------------------------
// Control panel
// ---------------------------------------------------------------------------

/// The text of the input field: the input, with a cursor `_` after it when
/// the field is focused.
pub fn input_display(input: &str, focused: bool) -> (r: String)
    ensures
        r@ == if focused {
            input@ + "_"@
        } else {
            input@
        },
{
    let mut s = String::from_str(input);
    if focused {
        s.append("_");
    }
    s
}

/// The line of one worktree in the worktree pane: a selection marker, the
/// branch (`detached` without one, cyan and bold when selected), then a red
/// dot when dirty and the commits ahead (green) and behind (orange).
pub open spec fn worktree_line(status: WorktreeStatus, is_selected: bool, theme: Theme) -> LineView {
    let branch = match status.worktree.branch {
        Some(b) => b@,
        None => "detached"@,
    };
    let prefix = if is_selected {
        " > "@
    } else {
        "   "@
    };
    let branch_style = if is_selected {
        fg_only(Color::Cyan).with_modifier(bold_mod())
    } else {
        Style::plain()
    };
    let dirty = if status.is_dirty {
        seq![(" ●"@, fg_only(theme.accents.red))]
    } else {
        Seq::<SpanView>::empty()
    };
    let ahead = if status.ahead > 0 {
        seq![(" ↑"@ + decimal_chars(status.ahead as nat), fg_only(theme.accents.green))]
    } else {
        Seq::<SpanView>::empty()
    };
    let behind = if status.behind > 0 {
        seq![(" ↓"@ + decimal_chars(status.behind as nat), fg_only(theme.accents.orange))]
    } else {
        Seq::<SpanView>::empty()
    };
    seq![(prefix, Style::plain()), (branch, branch_style)] + dirty + ahead + behind
}

/// The legend under the worktree list.
pub open spec fn legend_line(theme: Theme) -> LineView {
    seq![
        (" "@, Style::plain()),
        ("●"@, fg_only(theme.accents.red)),
        (" dirty  "@, Style::plain()),
        ("↑"@, fg_only(theme.accents.green)),
        (" ahead  "@, Style::plain()),
        ("↓"@, fg_only(theme.accents.orange)),
        (" behind"@, Style::plain()),
    ]
}

/// The lines of the worktree pane: one line per worktree, the `selected` one
/// marked when the pane is focused, then a blank line and the legend when
/// there is any worktree.
pub open spec fn worktree_pane_spec(statuses: Seq<WorktreeStatus>, selected: int, focused: bool, theme: Theme) -> Seq<LineView> {
    let rows = Seq::new(
        statuses.len(),
        |i: int| worktree_line(statuses[i], i == selected && focused, theme),
    );
    if statuses.len() == 0 {
        rows
    } else {
        rows + seq![Seq::<SpanView>::empty(), legend_line(theme)]
    }
}

fn worktree_line_exec(status: &WorktreeStatus, is_selected: bool, theme: &Theme) -> (r: Line)
    ensures
        r@ == worktree_line(*status, is_selected, *theme),
{
    let mut spans: Vec<Span> = Vec::new();
    push_span(&mut spans, Span::raw(if is_selected { " > " } else { "   " }));
    let branch_style = if is_selected {
        Style::new().fg(Color::Cyan).add_modifier(Modifier::bold())
    } else {
        Style::new()
    };
    match &status.worktree.branch {
        Some(b) => push_span(&mut spans, Span::styled(b.as_str(), branch_style)),
        None => push_span(&mut spans, Span::styled("detached", branch_style)),
    }
    if status.is_dirty {
        push_span(&mut spans, Span::styled(" ●", Style::new().fg(theme.accents.red)));
    }
    if status.ahead > 0 {
        let mut s = String::from_str(" ↑");
        let n = decimal_string(status.ahead);
        s.append(n.as_str());
        push_span(&mut spans, styled_string(s, Style::new().fg(theme.accents.green)));
    }
    if status.behind > 0 {
        let mut s = String::from_str(" ↓");
        let n = decimal_string(status.behind);
        s.append(n.as_str());
        push_span(&mut spans, styled_string(s, Style::new().fg(theme.accents.orange)));
    }
    let r = line_of(spans);
    assert(r@ =~= worktree_line(*status, is_selected, *theme));
    r
}

fn legend_line_exec(theme: &Theme) -> (r: Line)
    ensures
        r@ == legend_line(*theme),
{
    let mut spans: Vec<Span> = Vec::new();
    push_span(&mut spans, Span::raw(" "));
    push_span(&mut spans, Span::styled("●", Style::new().fg(theme.accents.red)));
    push_span(&mut spans, Span::raw(" dirty  "));
    push_span(&mut spans, Span::styled("↑", Style::new().fg(theme.accents.green)));
    push_span(&mut spans, Span::raw(" ahead  "));
    push_span(&mut spans, Span::styled("↓", Style::new().fg(theme.accents.orange)));
    push_span(&mut spans, Span::raw(" behind"));
    let r = line_of(spans);
    assert(r@ =~= legend_line(*theme));
    r
}

/// The lines of the worktree pane.
pub fn worktree_pane_lines(statuses: &Vec<WorktreeStatus>, selected: usize, focused: bool, theme: &Theme) -> (r: Vec<Line>)
    ensures
        line_views(r@) == worktree_pane_spec(statuses@, selected as int, focused, *theme),
{
    let mut out: Vec<Line> = Vec::new();
    let ghost rows = Seq::new(
        statuses@.len(),
        |i: int| worktree_line(statuses@[i], i == selected && focused, *theme),
    );
    let mut i: usize = 0;
    while i < statuses.len()
        invariant
            i <= statuses@.len(),
            rows == Seq::new(
                statuses@.len(),
                |i: int| worktree_line(statuses@[i], i == selected && focused, *theme),
            ),
            line_views(out@) == rows.take(i as int),
        decreases statuses@.len() - i,
    {
        let l = worktree_line_exec(&statuses[i], i == selected && focused, theme);
        push_line(&mut out, l);
        assert(rows.take(i + 1) =~= rows.take(i as int).push(rows[i as int]));
        i = i + 1;
    }
    assert(rows.take(statuses@.len() as int) =~= rows);
    if statuses.len() > 0 {
        push_line(&mut out, Line::blank());
        push_line(&mut out, legend_line_exec(theme));
        assert(line_views(out@) =~= rows + seq![Seq::<SpanView>::empty(), legend_line(*theme)]);
    }
    out
}

/// The line of one ready issue: the trimmed text after a space, red when it
/// mentions priority `[P0]`, orange for `[P1]`, plain otherwise.
pub open spec fn issue_line(t: Seq<char>, theme: Theme) -> LineView {
    let text = " "@ + t;
    if contains_sub(t, "[P0]"@) {
        seq![(text, fg_only(theme.accents.red))]
    } else if contains_sub(t, "[P1]"@) {
        seq![(text, fg_only(theme.accents.orange))]
    } else {
        seq![(text, Style::plain())]
    }
}

/// Whether a line of `bd ready` output is left out of the issue list: blank
/// once trimmed, or the header that starts with a clipboard.
pub open spec fn skipped_issue(line: Seq<char>) -> bool {
    trim(line).len() == 0 || has_prefix(trim(line), "📋"@)
}

/// The issue lines for the lines of `bd ready` output, in order.
pub open spec fn issue_lines(lines: Seq<Seq<char>>, theme: Theme) -> Seq<LineView>
    decreases lines.len(),
{
    if lines.len() == 0 {
        Seq::empty()
    } else {
        let before = issue_lines(lines.drop_last(), theme);
        if skipped_issue(lines.last()) {
            before
        } else {
            before.push(issue_line(trim(lines.last()), theme))
        }
    }
}

/// The views of a sequence of strings.
pub open spec fn strings_view(v: Seq<String>) -> Seq<Seq<char>> {
    v.map_values(|s: String| s@)
}

/// The lines of the ready-issues pane: a muted `(no ready issues)` when there
/// is no output, else one line per issue.
pub open spec fn issues_pane_spec(output: Seq<String>, theme: Theme) -> Seq<LineView> {
    if output.len() == 0 {
        seq![seq![(" (no ready issues)"@, fg_only(theme.tx_muted))]]
    } else {
        issue_lines(strings_view(output), theme)
    }
}

/// The lines of the ready-issues pane for the `bd ready` output `output`.
pub fn issues_pane_lines(output: &[String], theme: &Theme) -> (r: Vec<Line>)
    ensures
        line_views(r@) == issues_pane_spec(output@, *theme),
{
    let mut out: Vec<Line> = Vec::new();
    if output.len() == 0 {
        push_line(&mut out, Line::from_span(Span::styled(" (no ready issues)", Style::new().fg(theme.tx_muted))));
        assert(line_views(out@) =~= issues_pane_spec(output@, *theme));
        return out;
    }
    let ghost lines = strings_view(output@);
    let mut i: usize = 0;
    assert(lines.take(0) =~= Seq::<Seq<char>>::empty());
    while i < output.len()
        invariant
            i <= output@.len(),
            lines == strings_view(output@),
            line_views(out@) == issue_lines(lines.take(i as int), *theme),
        decreases output@.len() - i,
    {
        assert(lines.take(i + 1).drop_last() =~= lines.take(i as int));
        assert(lines.take(i + 1).last() == output@[i as int]@);
        let c = chars_of(output[i].as_str());
        let t = trim_chars(&c);
        if t.len() == 0 || starts_with(&t, "📋") {
        } else {
            let mut text = String::from_str(" ");
            let ts = string_of(&t);
            text.append(ts.as_str());
            let style = if contains_str(&t, "[P0]") {
                Style::new().fg(theme.accents.red)
            } else if contains_str(&t, "[P1]") {
                Style::new().fg(theme.accents.orange)
            } else {
                Style::new()
            };
            let l = Line::from_span(styled_string(text, style));
            push_line(&mut out, l);
            assert(l@ =~= issue_line(t@, *theme));
        }
        i = i + 1;
    }
    assert(lines.take(output@.len() as int) =~= lines);
    out
}

// ---------------------------------------------------------------------------
// Dialogs
// ---------------------------------------------------------------------------

/// What a dialog shows: its title, its lines and its border color.
pub struct DialogView {
    pub title: String,
    pub lines: Vec<Line>,
    pub border: Color,
}

/// The branch name in a dialog: cyan and bold.
pub open spec fn branch_style(theme: Theme) -> Style {
    fg_only(theme.accents.cyan).with_modifier(bold_mod())
}

/// The lines of the dialog asking to confirm the deletion of `branch`.
pub open spec fn confirm_delete_lines(branch: Seq<char>, unmerged: bool, theme: Theme) -> Seq<LineView> {
    let head = seq![
        Seq::<SpanView>::empty(),
        seq![
            ("  Delete worktree "@, Style::plain()),
            (branch, branch_style(theme)),
            ("?"@, Style::plain()),
        ],
    ];
    let warning = if unmerged {
        seq![
            Seq::<SpanView>::empty(),
            seq![("  ⚠ WARNING: Branch has unmerged commits!"@, fg_only(theme.accents.yellow))],
        ]
    } else {
        Seq::<LineView>::empty()
    };
    let tail = seq![
        Seq::<SpanView>::empty(),
        seq![
            ("  Press "@, Style::plain()),
            ("Y"@, fg_only(theme.accents.green).with_modifier(bold_mod())),
            (" to confirm, "@, Style::plain()),
            ("N"@, fg_only(theme.accents.red).with_modifier(bold_mod())),
            (" to cancel"@, Style::plain()),
        ],
    ];
    head + warning + tail
}

/// The lines of the dialog offering to merge or remove the worktree of
/// `branch`.
pub open spec fn worktree_action_lines(branch: Seq<char>, theme: Theme) -> Seq<LineView> {
    seq![
        Seq::<SpanView>::empty(),
        seq![("  Worktree: "@, Style::plain()), (branch, branch_style(theme))],
        Seq::<SpanView>::empty(),
        seq![("  Choose an action:"@, Style::plain())],
        Seq::<SpanView>::empty(),
        seq![
            ("  Press "@, Style::plain()),
            ("M"@, fg_only(theme.accents.green).with_modifier(bold_mod())),
            (" to merge, "@, Style::plain()),
            ("R"@, fg_only(theme.accents.red).with_modifier(bold_mod())),
            (" to remove, "@, Style::plain()),
            ("Esc"@, fg_only(Color::DarkGray).with_modifier(bold_mod())),
            (" to cancel"@, Style::plain()),
        ],
    ]
}

/// The lines of the dialog refusing to delete `branch`, which has
/// uncommitted changes.
pub open spec fn uncommitted_lines(branch: Seq<char>, theme: Theme) -> Seq<LineView> {
    seq![
        Seq::<SpanView>::empty(),
        seq![("  Cannot delete "@, Style::plain()), (branch, branch_style(theme))],
        Seq::<SpanView>::empty(),
        seq![("  ✗ Worktree has uncommitted changes!"@, fg_only(theme.accents.red))],
        Seq::<SpanView>::empty(),
        seq![("  Please commit or stash your changes first."@, Style::plain())],
        Seq::<SpanView>::empty(),
        seq![
            ("  Press "@, Style::plain()),
            ("any key"@, Style::plain().with_modifier(bold_mod())),
            (" to close"@, Style::plain()),
        ],
    ]
}

/// What the dialog shows: its title, lines and border color; nothing when no
/// dialog is shown.
pub open spec fn dialog_view_spec(dialog: Dialog, theme: Theme) -> Option<(Seq<char>, Seq<LineView>, Color)> {
    match dialog {
        Dialog::Hidden => None,
        Dialog::ConfirmDelete { branch, unmerged } => Some(
            ("Delete Worktree"@, confirm_delete_lines(branch@, unmerged, theme), theme.accents.red),
        ),
        Dialog::UncommittedChanges { branch } => Some(
            ("Cannot Delete"@, uncommitted_lines(branch@, theme), theme.accents.red),
        ),
        Dialog::ThemePicker { selected } => Some(
            ("Theme"@, theme_picker_lines(selected as int, theme), theme.accent),
        ),
        Dialog::WorktreeAction { branch } => Some(
            ("Worktree Action"@, worktree_action_lines(branch@, theme), theme.accent),
        ),
    }
}

/// The line of theme `t` in the theme picker: a marker when it is the
/// highlighted one (accent, bold), its name otherwise in the text color.
pub open spec fn theme_entry(t: Theme, highlighted: bool, theme: Theme) -> LineView {
    let marker = if highlighted {
        "▸ "@
    } else {
        "  "@
    };
    let style = if highlighted {
        fg_only(theme.accent).with_modifier(bold_mod())
    } else {
        fg_only(theme.tx)
    };
    seq![("  "@ + marker + "  "@ + t.name@, style)]
}

/// The lines of the theme picker with theme `selected` highlighted: a heading,
/// one line per theme, and the keys.
pub open spec fn theme_picker_lines(selected: int, theme: Theme) -> Seq<LineView> {
    seq![
        Seq::<SpanView>::empty(),
        seq![("  Select a theme:"@, fg_only(theme.highlight))],
        Seq::<SpanView>::empty(),
    ] + Seq::new(
        themes_spec().len(),
        |i: int| theme_entry(themes_spec()[i], i == selected, theme),
    ) + seq![
        Seq::<SpanView>::empty(),
        seq![
            ("  "@, Style::plain()),
            ("j/k"@, Style::plain().with_modifier(bold_mod())),
            (" navigate  "@, Style::plain()),
            ("Enter"@, Style::plain().with_modifier(bold_mod())),
            (" select  "@, Style::plain()),
            ("Esc"@, Style::plain().with_modifier(bold_mod())),
            (" cancel"@, Style::plain()),
        ],
    ]
}

fn theme_picker_exec(selected: usize, theme: &Theme) -> (r: Vec<Line>)
    ensures
        line_views(r@) == theme_picker_lines(selected as int, *theme),
{
    let bold = Modifier::bold();
    let mut out: Vec<Line> = Vec::new();
    push_line(&mut out, Line::blank());
    push_line(&mut out, Line::from_span(Span::styled("  Select a theme:", Style::new().fg(theme.highlight))));
    push_line(&mut out, Line::blank());
    let ghost head = line_views(out@);
    let themes = all_themes();
    let ghost entries = Seq::new(
        themes_spec().len(),
        |i: int| theme_entry(themes_spec()[i], i == selected, *theme),
    );
    let mut i: usize = 0;
    while i < themes.len()
        invariant
            themes@ == themes_spec(),
            bold == bold_mod(),
            i <= themes@.len(),
            entries == Seq::new(
                themes_spec().len(),
                |i: int| theme_entry(themes_spec()[i], i == selected, *theme),
            ),
            line_views(out@) == head + entries.take(i as int),
        decreases themes@.len() - i,
    {
        let highlighted = i == selected;
        let mut text = String::from_str("  ");
        if highlighted {
            text.append("▸ ");
        } else {
            text.append("  ");
        }
        text.append("  ");
        let t = themes[i];
        assert(t == themes_spec()[i as int]);
        text.append(t.name);
        assert(text@ == "  "@ + (if highlighted { "▸ "@ } else { "  "@ }) + "  "@ + themes_spec()[i as int].name@);
        let style = if highlighted {
            Style::new().fg(theme.accent).add_modifier(bold)
        } else {
            Style::new().fg(theme.tx)
        };
        let l = Line::from_span(styled_string(text, style));
        assert(bold == bold_mod());
        assert(l@ == seq![(text@, style)]);
        assert(style == (if highlighted { fg_only(theme.accent).with_modifier(bold_mod()) } else { fg_only(theme.tx) }));
        assert(l@ == theme_entry(themes_spec()[i as int], i == selected, *theme));
        push_line(&mut out, l);
        assert(entries.take(i + 1) =~= entries.take(i as int).push(entries[i as int]));
        i = i + 1;
    }
    assert(entries.take(themes@.len() as int) =~= entries);
    push_line(&mut out, Line::blank());
    let mut keys: Vec<Span> = Vec::new();
    push_span(&mut keys, Span::raw("  "));
    push_span(&mut keys, Span::styled("j/k", Style::new().add_modifier(bold)));
    push_span(&mut keys, Span::raw(" navigate  "));
    push_span(&mut keys, Span::styled("Enter", Style::new().add_modifier(bold)));
    push_span(&mut keys, Span::raw(" select  "));
    push_span(&mut keys, Span::styled("Esc", Style::new().add_modifier(bold)));
    push_span(&mut keys, Span::raw(" cancel"));
    push_line(&mut out, line_of(keys));
    assert(line_views(out@) =~~= theme_picker_lines(selected as int, *theme));
    out
}

fn raw_line(text: &str) -> (r: Line)
    ensures
        r@ == seq![(text@, Style::plain())],
{
    Line::from_span(Span::raw(text))
}

fn confirm_delete_exec(branch: &String, unmerged: bool, theme: &Theme) -> (r: Vec<Line>)
    ensures
        line_views(r@) == confirm_delete_lines(branch@, unmerged, *theme),
{
    let bold = Modifier::bold();
    let mut out: Vec<Line> = Vec::new();
    push_line(&mut out, Line::blank());
    let mut s1: Vec<Span> = Vec::new();
    push_span(&mut s1, Span::raw("  Delete worktree "));
    push_span(&mut s1, Span::styled(branch.as_str(), Style::new().fg(theme.accents.cyan).add_modifier(bold)));
    push_span(&mut s1, Span::raw("?"));
    push_line(&mut out, line_of(s1));
    if unmerged {
        push_line(&mut out, Line::blank());
        push_line(
            &mut out,
            Line::from_span(Span::styled("  ⚠ WARNING: Branch has unmerged commits!", Style::new().fg(theme.accents.yellow))),
        );
    }
    push_line(&mut out, Line::blank());
    let mut s2: Vec<Span> = Vec::new();
    push_span(&mut s2, Span::raw("  Press "));
    push_span(&mut s2, Span::styled("Y", Style::new().fg(theme.accents.green).add_modifier(bold)));
    push_span(&mut s2, Span::raw(" to confirm, "));
    push_span(&mut s2, Span::styled("N", Style::new().fg(theme.accents.red).add_modifier(bold)));
    push_span(&mut s2, Span::raw(" to cancel"));
    push_line(&mut out, line_of(s2));
    assert(line_views(out@) =~~= confirm_delete_lines(branch@, unmerged, *theme));
    out
}

fn worktree_action_exec(branch: &String, theme: &Theme) -> (r: Vec<Line>)
    ensures
        line_views(r@) == worktree_action_lines(branch@, *theme),
{
    let bold = Modifier::bold();
    let mut out: Vec<Line> = Vec::new();
    push_line(&mut out, Line::blank());
    let mut s1: Vec<Span> = Vec::new();
    push_span(&mut s1, Span::raw("  Worktree: "));
    push_span(&mut s1, Span::styled(branch.as_str(), Style::new().fg(theme.accents.cyan).add_modifier(bold)));
    push_line(&mut out, line_of(s1));
    push_line(&mut out, Line::blank());
    push_line(&mut out, raw_line("  Choose an action:"));
    push_line(&mut out, Line::blank());
    let mut s2: Vec<Span> = Vec::new();
    push_span(&mut s2, Span::raw("  Press "));
    push_span(&mut s2, Span::styled("M", Style::new().fg(theme.accents.green).add_modifier(bold)));
    push_span(&mut s2, Span::raw(" to merge, "));
    push_span(&mut s2, Span::styled("R", Style::new().fg(theme.accents.red).add_modifier(bold)));
    push_span(&mut s2, Span::raw(" to remove, "));
    push_span(&mut s2, Span::styled("Esc", Style::new().fg(Color::DarkGray).add_modifier(bold)));
    push_span(&mut s2, Span::raw(" to cancel"));
    push_line(&mut out, line_of(s2));
    assert(line_views(out@) =~~= worktree_action_lines(branch@, *theme));
    out
}

fn uncommitted_exec(branch: &String, theme: &Theme) -> (r: Vec<Line>)
    ensures
        line_views(r@) == uncommitted_lines(branch@, *theme),
{
    let bold = Modifier::bold();
    let mut out: Vec<Line> = Vec::new();
    push_line(&mut out, Line::blank());
    let mut s1: Vec<Span> = Vec::new();
    push_span(&mut s1, Span::raw("  Cannot delete "));
    push_span(&mut s1, Span::styled(branch.as_str(), Style::new().fg(theme.accents.cyan).add_modifier(bold)));
    push_line(&mut out, line_of(s1));
    push_line(&mut out, Line::blank());
    push_line(
        &mut out,
        Line::from_span(Span::styled("  ✗ Worktree has uncommitted changes!", Style::new().fg(theme.accents.red))),
    );
    push_line(&mut out, Line::blank());
    push_line(&mut out, raw_line("  Please commit or stash your changes first."));
    push_line(&mut out, Line::blank());
    let mut s2: Vec<Span> = Vec::new();
    push_span(&mut s2, Span::raw("  Press "));
    push_span(&mut s2, Span::styled("any key", Style::new().add_modifier(bold)));
    push_span(&mut s2, Span::raw(" to close"));
    push_line(&mut out, line_of(s2));
    assert(line_views(out@) =~~= uncommitted_lines(branch@, *theme));
    out
}

/// What the dialog shows, or `None` when no dialog is shown.
pub fn dialog_view(dialog: &Dialog, theme: &Theme) -> (r: Option<DialogView>)
    ensures
        match (r, dialog_view_spec(*dialog, *theme)) {
            (None, None) => true,
            (Some(v), Some((title, lines, border))) => v.title@ == title && line_views(v.lines@)
                == lines && v.border == border,
            _ => false,
        },
{
    match dialog {
        Dialog::Hidden => None,
        Dialog::ConfirmDelete { branch, unmerged } => Some(
            DialogView {
                title: String::from_str("Delete Worktree"),
                lines: confirm_delete_exec(branch, *unmerged, theme),
                border: theme.accents.red,
            },
        ),
        Dialog::UncommittedChanges { branch } => Some(
            DialogView {
                title: String::from_str("Cannot Delete"),
                lines: uncommitted_exec(branch, theme),
                border: theme.accents.red,
            },
        ),
        Dialog::ThemePicker { selected } => Some(
            DialogView {
                title: String::from_str("Theme"),
                lines: theme_picker_exec(*selected, theme),
                border: theme.accent,
            },
        ),
        Dialog::WorktreeAction { branch } => Some(
            DialogView {
                title: String::from_str("Worktree Action"),
                lines: worktree_action_exec(branch, theme),
                border: theme.accent,
            },
        ),
    }
}

/// The height of `dialog`: the theme picker has room for every theme, the
/// others are 9 rows high.
pub open spec fn dialog_height_spec(dialog: Dialog) -> u16 {
    match dialog {
        Dialog::ThemePicker { .. } => (themes_spec().len() + 6) as u16,
        _ => 9,
    }
}

/// The height of `dialog` (see [`dialog_height_spec`]).
pub fn dialog_height(dialog: &Dialog) -> (r: u16)
    ensures
        r == dialog_height_spec(*dialog),
{
    match dialog {
        Dialog::ThemePicker { .. } => {
            let n = all_themes().len();
            (n + 6) as u16
        },
        _ => 9,
    }
}

/// Where a dialog `h` rows high is drawn in `area`: 60 columns wide (4 fewer
/// than the area when that is narrower), centered.
pub open spec fn dialog_area_spec(area: Rect, h: u16) -> Rect {
    let w: int = if area.width >= 64 {
        60
    } else if area.width >= 4 {
        area.width - 4
    } else {
        0
    };
    let x: int = area.x + (area.width - w) / 2;
    let y: int = area.y + (if area.height >= h { area.height - h } else { 0 }) / 2;
    Rect {
        x: x as u16,
        y: y as u16,
        width: if w > u16::MAX - x { (u16::MAX - x) as u16 } else { w as u16 },
        height: if h > u16::MAX - y { (u16::MAX - y) as u16 } else { h },
    }
}

/// Where `dialog` is drawn in `area`, which lies within the screen.
pub fn dialog_area(area: Rect, dialog: &Dialog) -> (r: Rect)
    requires
        area.x + area.width <= u16::MAX,
        area.y + area.height <= u16::MAX,
    ensures
        r == dialog_area_spec(area, dialog_height_spec(*dialog)),
{
    let h = dialog_height(dialog);
    let w: u16 = if area.width.saturating_sub(4) < 60 {
        area.width.saturating_sub(4)
    } else {
        60
    };
    let x: u16 = area.x + (area.width - w) / 2;
    let y: u16 = area.y + area.height.saturating_sub(h) / 2;
    Rect::new(x, y, w, h)
}

} // verus!
