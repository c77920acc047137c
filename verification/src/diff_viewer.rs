//! Git diff viewer: colours the lines of `git diff` output and scrolls through them.

use vstd::prelude::*;
use crate::style::{line_views, Color, Line, Modifier, Span, Style};
use crate::text::{chars_of, has_prefix, lines_of, split_lines, starts_with, string_of};
use crate::theme::{cyan, green, red, tx, tx_2, tx_3};

verus! {

/// The style of one line of `git diff` output: file headers (`diff --git`) bold
/// cyan, file paths (`+++`, `---`) faint, hunk headers (`@@`) cyan, additions
/// green, deletions red, context in the normal text color.
pub open spec fn diff_line_style(line: Seq<char>) -> Style {
    if has_prefix(line, "diff --git"@) {
        Style::plain().fg_spec(Color::Rgb(0x3A, 0xA9, 0x9F)).with_modifier(
            Modifier { bold: true, ..Modifier::none_spec() },
        )
    } else if has_prefix(line, "+++"@) || has_prefix(line, "---"@) {
        Style::plain().fg_spec(Color::Rgb(0x6F, 0x6E, 0x69))
    } else if has_prefix(line, "@@"@) {
        Style::plain().fg_spec(Color::Rgb(0x3A, 0xA9, 0x9F))
    } else if has_prefix(line, "+"@) {
        Style::plain().fg_spec(Color::Rgb(0x87, 0x9A, 0x39))
    } else if has_prefix(line, "-"@) {
        Style::plain().fg_spec(Color::Rgb(0xD1, 0x4D, 0x41))
    } else {
        Style::plain().fg_spec(Color::Rgb(0xB7, 0xB5, 0xAC))
    }
}

/// The styled lines for a diff: each line of it as one span in its style.
pub open spec fn diff_lines_spec(diff: Seq<char>) -> Seq<Seq<(Seq<char>, Style)>> {
    lines_of(diff).map_values(|l: Seq<char>| seq![(l, diff_line_style(l))])
}

/// The lines shown when there are no changes.
pub open spec fn empty_state_spec() -> Seq<Seq<(Seq<char>, Style)>> {
    seq![
        Seq::empty(),
        Seq::empty(),
        seq![("   No uncommitted changes"@, Style::plain().fg_spec(Color::Rgb(0x87, 0x85, 0x80)))],
        Seq::empty(),
        seq![("   Changes will appear here"@, Style::plain().fg_spec(Color::Rgb(0x6F, 0x6E, 0x69)))],
        seq![("   as you work."@, Style::plain().fg_spec(Color::Rgb(0x6F, 0x6E, 0x69)))],
    ]
}

/// The lines for the diffs of several files: each file's lines followed by a
/// blank line.
pub open spec fn files_lines_spec(diffs: Seq<Seq<char>>) -> Seq<Seq<(Seq<char>, Style)>>
    decreases diffs.len(),
{
    if diffs.len() == 0 {
        Seq::empty()
    } else {
        files_lines_spec(diffs.drop_last()) + diff_lines_spec(diffs.last()).push(Seq::empty())
    }
}

/// Where scrolling by `delta` from `offset` lands with `total` lines: up stops
/// at the first line, down at the last.
pub open spec fn scrolled_offset(offset: u16, total: u16, delta: i16) -> u16 {
    if delta < 0 {
        if offset >= -delta {
            (offset + delta) as u16
        } else {
            0
        }
    } else {
        let down = if offset + delta > u16::MAX {
            u16::MAX as int
        } else {
            offset + delta
        };
        let last = if total >= 1 {
            total - 1
        } else {
            0
        };
        if down < last {
            down as u16
        } else {
            last as u16
        }
    }
}

/// A git diff viewer for one worktree.
pub struct DiffViewer {
    /// Styled lines of diff output
    lines: Vec<Line>,
    /// Current scroll offset (line index at top of view)
    scroll_offset: u16,
    /// Hash of last diff content (for change detection)
    last_diff_hash: u64,
    /// Path to the worktree directory
    worktree_path: String,
    /// Total number of lines (the count, cut to 16 bits)
    total_lines: u16,
}

impl DiffViewer {
    /// The lines shown, as plain values.
    pub closed spec fn shown(&self) -> Seq<Seq<(Seq<char>, Style)>> {
        line_views(self.lines@)
    }

    /// The scroll offset.
    pub closed spec fn offset(&self) -> u16 {
        self.scroll_offset
    }

    /// The recorded line count.
    pub closed spec fn total(&self) -> u16 {
        self.total_lines
    }

    /// The hash of the diff last shown.
    pub closed spec fn hash(&self) -> u64 {
        self.last_diff_hash
    }

    /// The worktree path.
    pub closed spec fn path(&self) -> Seq<char> {
        self.worktree_path@
    }

    /// Whether the recorded count is that of the lines shown.
    pub open spec fn wf(&self) -> bool {
        self.total() == (self.shown().len() as u16)
    }

    /// A viewer for the worktree at `worktree_path`, showing nothing yet.
    pub fn new(worktree_path: String) -> (r: DiffViewer)
        ensures
            r.shown().len() == 0,
            r.offset() == 0,
            r.total() == 0,
            r.hash() == 0,
            r.path() == worktree_path@,
            r.wf(),
    {
        DiffViewer {
            lines: Vec::new(),
            scroll_offset: 0,
            last_diff_hash: 0,
            worktree_path,
            total_lines: 0,
        }
    }

    /// The worktree path.
    pub fn worktree_path(&self) -> (r: &str)
        ensures
            r@ == self.path(),
    {
        self.worktree_path.as_str()
    }

    /// Whether a diff state with hash `new_hash` differs from the one shown.
    pub fn is_stale(&self, new_hash: u64) -> (r: bool)
        ensures
            r == (new_hash != self.hash()),
    {
        new_hash != self.last_diff_hash
    }

    /// Refreshes the content from the current diff state: its hash, and the diff
    /// of each changed file in display order. Returns whether the diff changed:
    /// when the hash is the one shown, nothing changes; otherwise the viewer shows
    /// the files' lines (or the empty-state message when no file changed).
    pub fn refresh(&mut self, new_hash: u64, file_diffs: &Vec<String>) -> (r: bool)
        ensures
            r == (new_hash != old(self).hash()),
            !r ==> *final(self) == *old(self),
            r ==> final(self).hash() == new_hash,
            r ==> final(self).shown() == if file_diffs@.len() == 0 {
                empty_state_spec()
            } else {
                files_lines_spec(file_diffs@.map_values(|d: String| d@))
            },
            r ==> final(self).total() == (final(self).shown().len() as u16),
            final(self).offset() == old(self).offset(),
            final(self).path() == old(self).path(),
    {
        if new_hash == self.last_diff_hash {
            return false;
        }
        self.last_diff_hash = new_hash;
        if file_diffs.len() == 0 {
            self.lines = empty_state_lines();
            self.total_lines = #[verifier::truncate] (self.lines.len() as u16);
            return true;
        }
        let ghost diffs = file_diffs@.map_values(|d: String| d@);
        let mut lines: Vec<Line> = Vec::new();
        let mut i: usize = 0;
        while i < file_diffs.len()
            invariant
                i <= file_diffs@.len(),
                diffs == file_diffs@.map_values(|d: String| d@),
                line_views(lines@) == files_lines_spec(diffs.take(i as int)),
            decreases file_diffs@.len() - i,
        {
            assert(diffs.take(i + 1).drop_last() =~= diffs.take(i as int));
            let parsed = parse_diff(file_diffs[i].as_str());
            let ghost l0 = lines@;
            append_lines(&mut lines, &parsed);
            let ghost l1 = lines@;
            let blank = Line::blank();
            lines.push(blank);
            proof {
                assert(line_views(lines@) =~= line_views(l1).push(blank@));
                assert(diffs.take(i + 1).last() == file_diffs@[i as int]@);
                assert(line_views(lines@) =~= files_lines_spec(diffs.take(i + 1)));
            }
            i = i + 1;
        }
        assert(diffs.take(file_diffs@.len() as int) =~= diffs);
        self.lines = lines;
        self.total_lines = #[verifier::truncate] (self.lines.len() as u16);
        true
    }

    /// Scrolls by `delta` (positive: down, towards the end; negative: up, towards
    /// the beginning); stops at the first and at the last line.
    pub fn scroll(&mut self, delta: i16)
        requires
            delta != i16::MIN,
        ensures
            final(self).offset() == scrolled_offset(old(self).offset(), old(self).total(), delta),
            final(self).shown() == old(self).shown(),
            final(self).total() == old(self).total(),
            final(self).hash() == old(self).hash(),
            final(self).path() == old(self).path(),
    {
        if delta < 0 {
            self.scroll_offset = self.scroll_offset.saturating_sub((-delta) as u16);
        } else {
            let new_offset = self.scroll_offset.saturating_add(delta as u16);
            let last = self.total_lines.saturating_sub(1);
            self.scroll_offset = if new_offset < last {
                new_offset
            } else {
                last
            };
        }
    }

    /// The lines visible in a view `height` lines tall: from the scroll offset
    /// on, as many as fit and exist.
    pub fn widget(&self, height: u16) -> (r: Vec<Line>)
        ensures
            line_views(r@) == if (self.offset() as int) < self.shown().len() {
                self.shown().subrange(
                    self.offset() as int,
                    if self.offset() + height < self.shown().len() {
                        self.offset() + height
                    } else {
                        self.shown().len() as int
                    },
                )
            } else {
                Seq::empty()
            },
    {
        let start = self.scroll_offset as usize;
        let end = if start + (height as usize) < self.lines.len() {
            start + (height as usize)
        } else {
            self.lines.len()
        };
        let mut visible: Vec<Line> = Vec::new();
        if start < self.lines.len() {
            let mut i = start;
            while i < end
                invariant
                    start <= i <= end <= self.lines@.len(),
                    line_views(visible@) =~= line_views(self.lines@).subrange(start as int, i as int),
                decreases end - i,
            {
                let l = self.lines[i].copy();
                let ghost before = visible@;
                visible.push(l);
                assert(line_views(visible@) =~= line_views(before).push(l@));
                i = i + 1;
            }
        }
        visible
    }

    /// Shows `lines` (and counts them), as a refresh would.
    pub fn set_lines(&mut self, lines: Vec<Line>)
        ensures
            final(self).shown() == line_views(lines@),
            final(self).total() == (lines@.len() as u16),
            final(self).offset() == old(self).offset(),
            final(self).hash() == old(self).hash(),
            final(self).path() == old(self).path(),
    {
        self.total_lines = #[verifier::truncate] (lines.len() as u16);
        self.lines = lines;
    }

    /// Moves the view to start at line `offset`.
    pub fn set_scroll_offset(&mut self, offset: u16)
        ensures
            final(self).offset() == offset,
            final(self).shown() == old(self).shown(),
            final(self).total() == old(self).total(),
            final(self).hash() == old(self).hash(),
            final(self).path() == old(self).path(),
    {
        self.scroll_offset = offset;
    }

    /// The scroll offset.
    pub fn scroll_offset(&self) -> (r: u16)
        ensures
            r == self.offset(),
    {
        self.scroll_offset
    }

    /// The recorded line count.
    pub fn total_lines(&self) -> (r: u16)
        ensures
            r == self.total(),
    {
        self.total_lines
    }
}

/// Appends copies of `src` to `dst`.
fn append_lines(dst: &mut Vec<Line>, src: &Vec<Line>)
    ensures
        line_views(final(dst)@) == line_views(old(dst)@) + line_views(src@),
{
    let ghost start = line_views(dst@);
    let mut j: usize = 0;
    while j < src.len()
        invariant
            j <= src@.len(),
            line_views(dst@) =~= start + line_views(src@).take(j as int),
        decreases src@.len() - j,
    {
        let l = src[j].copy();
        let ghost before = dst@;
        dst.push(l);
        assert(line_views(dst@) =~= line_views(before).push(l@));
        j = j + 1;
    }
    assert(line_views(src@).take(src@.len() as int) =~= line_views(src@));
}

fn diff_style_of(line: &Vec<char>) -> (r: Style)
    ensures
        r == diff_line_style(line@),
{
    if starts_with(line, "diff --git") {
        Style::new().fg(cyan()).add_modifier(Modifier::bold())
    } else if starts_with(line, "+++") || starts_with(line, "---") {
        Style::new().fg(tx_3())
    } else if starts_with(line, "@@") {
        Style::new().fg(cyan())
    } else if starts_with(line, "+") {
        Style::new().fg(green())
    } else if starts_with(line, "-") {
        Style::new().fg(red())
    } else {
        Style::new().fg(tx())
    }
}

/// Styles the lines of `git diff` output (see [`diff_lines_spec`]).
pub fn parse_diff(diff: &str) -> (r: Vec<Line>)
    ensures
        line_views(r@) == diff_lines_spec(diff@),
{
    let chars = chars_of(diff);
    let lines = split_lines(&chars);
    let ghost ls = lines_of(diff@);
    let mut out: Vec<Line> = Vec::new();
    let mut i: usize = 0;
    while i < lines.len()
        invariant
            i <= lines@.len(),
            ls == lines_of(diff@),
            lines@.len() == ls.len(),
            forall|k: int| 0 <= k < lines@.len() ==> #[trigger] lines@[k]@ == ls[k],
            line_views(out@) =~= diff_lines_spec(diff@).take(i as int),
        decreases lines@.len() - i,
    {
        let style = diff_style_of(&lines[i]);
        let text = string_of(&lines[i]);
        let ghost tv = text@;
        let line = Line::from_span(Span { content: text, style });
        assert(line@ == seq![(tv, style)]);
        let ghost before = out@;
        out.push(line);
        proof {
            assert(line_views(out@) =~= line_views(before).push(line@));
            assert(diff_lines_spec(diff@)[i as int] == seq![(ls[i as int], diff_line_style(ls[i as int]))]);
            assert(diff_lines_spec(diff@).take(i + 1) =~= diff_lines_spec(diff@).take(i as int).push(
                diff_lines_spec(diff@)[i as int],
            ));
        }
        i = i + 1;
    }
    out
}

/// The lines shown when there are no changes (see [`empty_state_spec`]).
pub fn empty_state_lines() -> (r: Vec<Line>)
    ensures
        line_views(r@) == empty_state_spec(),
{
    let r = vec![
        Line::blank(),
        Line::blank(),
        Line::from_span(Span::styled("   No uncommitted changes", Style::new().fg(tx_2()))),
        Line::blank(),
        Line::from_span(Span::styled("   Changes will appear here", Style::new().fg(tx_3()))),
        Line::from_span(Span::styled("   as you work.", Style::new().fg(tx_3()))),
    ];
    assert(line_views(r@) =~= empty_state_spec());
    r
}

} // verus!

verus! {

/// The files named in `git diff --name-only` output: its non-empty lines.
pub open spec fn changed_files_spec(output: Seq<char>) -> Seq<Seq<char>> {
    lines_of(output).filter(|l: Seq<char>| l.len() > 0)
}

/// The files named in `git diff --name-only` output, in order.
pub fn changed_files(output: &str) -> (r: Vec<String>)
    ensures
        r@.map_values(|s: String| s@) == changed_files_spec(output@),
{
    let chars = chars_of(output);
    let lines = split_lines(&chars);
    let ghost ls = lines_of(output@);
    let mut out: Vec<String> = Vec::new();
    let mut i: usize = 0;
    while i < lines.len()
        invariant
            i <= lines@.len(),
            ls == lines_of(output@),
            lines@.len() == ls.len(),
            forall|k: int| 0 <= k < lines@.len() ==> #[trigger] lines@[k]@ == ls[k],
            out@.map_values(|s: String| s@) == ls.take(i as int).filter(|l: Seq<char>| l.len() > 0),
        decreases lines@.len() - i,
    {
        let ghost before = out@;
        proof {
            reveal(Seq::filter);
            assert(ls.take(i + 1).drop_last() =~= ls.take(i as int));
        }
        if lines[i].len() > 0 {
            let s = string_of(&lines[i]);
            out.push(s);
            assert(out@.map_values(|s: String| s@) =~= before.map_values(|s: String| s@).push(
                ls[i as int],
            ));
        }
        i = i + 1;
    }
    assert(ls.take(ls.len() as int) =~= ls);
    out
}

/// `x` put into `sorted` after every element whose time is not later than its
/// own: the step of a stable sort by modification time.
pub open spec fn insert_by_time(sorted: Seq<(String, i128)>, x: (String, i128)) -> Seq<(String, i128)>
    decreases sorted.len(),
{
    if sorted.len() == 0 {
        seq![x]
    } else if sorted.last().1 <= x.1 {
        sorted.push(x)
    } else {
        insert_by_time(sorted.drop_last(), x).push(sorted.last())
    }
}

/// `files` ordered by modification time, oldest first; files with the same
/// time keep their order.
pub open spec fn sort_by_time(files: Seq<(String, i128)>) -> Seq<(String, i128)>
    decreases files.len(),
{
    if files.len() == 0 {
        files
    } else {
        insert_by_time(sort_by_time(files.drop_last()), files.last())
    }
}

/// Whether the times of `s` never decrease.
pub open spec fn time_ordered(s: Seq<(String, i128)>) -> bool {
    forall|i: int, j: int| 0 <= i <= j < s.len() ==> s[i].1 <= s[j].1
}

/// The names of `files`.
pub open spec fn file_names(files: Seq<(String, i128)>) -> Seq<Seq<char>> {
    files.map_values(|f: (String, i128)| f.0@)
}

fn insert_sorted(out: &mut Vec<(String, i128)>, x: (String, i128))
    ensures
        final(out)@ == insert_by_time(old(out)@, x),
{
    let ghost t = out@;
    let mut p: usize = out.len();
    proof {
        assert(t.take(t.len() as int) =~= t);
        assert(insert_by_time(t, x) + t.skip(t.len() as int) =~= insert_by_time(t, x));
    }
    while p > 0 && out[p - 1].1 > x.1
        invariant
            out@ == t,
            p <= t.len(),
            insert_by_time(t, x) == insert_by_time(t.take(p as int), x) + t.skip(p as int),
        decreases p,
    {
        proof {
            let tp = t.take(p as int);
            assert(tp.drop_last() =~= t.take(p - 1));
            assert(tp.last() == t[p - 1]);
            assert(t.skip(p - 1) =~= seq![t[p - 1]] + t.skip(p as int));
            assert(insert_by_time(tp, x) == insert_by_time(t.take(p - 1), x).push(t[p - 1]));
            assert(insert_by_time(t.take(p - 1), x).push(t[p - 1]) + t.skip(p as int)
                =~= insert_by_time(t.take(p - 1), x) + t.skip(p - 1));
        }
        p = p - 1;
    }
    proof {
        if p == 0 {
            assert(t.take(0) =~= Seq::<(String, i128)>::empty());
        } else {
            assert(t.take(p as int).last() == t[p - 1]);
        }
        assert(insert_by_time(t.take(p as int), x) == t.take(p as int).push(x));
        assert(t.insert(p as int, x) =~= t.take(p as int).push(x) + t.skip(p as int));
    }
    out.insert(p, x);
}

/// Orders `files` by modification time, oldest first, keeping the order of
/// files with the same time, and gives their names: newest changes come last.
pub fn files_by_mtime(files: Vec<(String, i128)>) -> (r: Vec<String>)
    ensures
        r@.map_values(|s: String| s@) == file_names(sort_by_time(files@)),
{
    let mut sorted: Vec<(String, i128)> = Vec::new();
    let mut rest = files;
    let ghost all = rest@;
    let mut i: usize = 0;
    let n = rest.len();
    let mut items: Vec<(String, i128)> = Vec::new();
    // Move the items out in order.
    while rest.len() > 0
        invariant
            items@ + rest@.reverse() == all.reverse(),
        decreases rest@.len(),
    {
        let ghost before_items = items@;
        let ghost before_rest = rest@;
        let x = rest.pop().unwrap();
        items.push(x);
        proof {
            assert(before_rest == rest@.push(x));
            assert(before_rest.reverse() =~= seq![x] + rest@.reverse());
            assert(items@ + rest@.reverse() =~= before_items + before_rest.reverse());
        }
    }
    proof {
        assert(rest@.reverse() =~= Seq::<(String, i128)>::empty());
        assert(items@ =~= all.reverse());
    }
    // `items` holds the files last first; take them back from its end.
    while items.len() > 0
        invariant
            i <= n,
            n == all.len(),
            items@.len() + i == n,
            items@ == all.skip(i as int).reverse(),
            sorted@ == sort_by_time(all.take(i as int)),
        decreases items@.len(),
    {
        let ghost before_items = items@;
        let x = items.pop().unwrap();
        proof {
            assert(all.skip(i as int).reverse() == before_items);
            assert(x == all[i as int]);
            assert(items@ =~= all.skip(i + 1).reverse());
            assert(all.take(i + 1).drop_last() =~= all.take(i as int));
        }
        insert_sorted(&mut sorted, x);
        i = i + 1;
    }
    assert(all.take(n as int) =~= all);
    let mut names: Vec<String> = Vec::new();
    let mut j: usize = 0;
    while j < sorted.len()
        invariant
            j <= sorted@.len(),
            names@.map_values(|s: String| s@) == file_names(sorted@).take(j as int),
        decreases sorted@.len() - j,
    {
        let ghost before = names@;
        let c = sorted[j].0.clone();
        assert(c@ == sorted@[j as int].0@);
        names.push(c);
        assert(names@ == before.push(c));
        assert(file_names(sorted@).take(j + 1) =~= file_names(sorted@).take(j as int).push(c@));
        assert(names@.map_values(|s: String| s@) =~= before.map_values(|s: String| s@).push(c@));
        j = j + 1;
    }
    assert(file_names(sorted@).take(sorted@.len() as int) =~= file_names(sorted@));
    names
}

proof fn lemma_insert_keeps_files(sorted: Seq<(String, i128)>, x: (String, i128))
    ensures
        insert_by_time(sorted, x).to_multiset() =~= sorted.to_multiset().insert(x),
    decreases sorted.len(),
{
    broadcast use vstd::seq_lib::group_to_multiset_ensures;

    if sorted.len() > 0 && sorted.last().1 > x.1 {
        lemma_insert_keeps_files(sorted.drop_last(), x);
        assert(sorted.drop_last().push(sorted.last()) =~= sorted);
    }
}

proof fn lemma_insert_ordered(sorted: Seq<(String, i128)>, x: (String, i128))
    requires
        time_ordered(sorted),
    ensures
        time_ordered(insert_by_time(sorted, x)),
        insert_by_time(sorted, x).len() == sorted.len() + 1,
        forall|k: int|
            0 <= k < insert_by_time(sorted, x).len() ==> #[trigger] insert_by_time(sorted, x)[k]
                == x || sorted.contains(insert_by_time(sorted, x)[k]),
    decreases sorted.len(),
{
    if sorted.len() > 0 && sorted.last().1 > x.1 {
        let t = sorted.drop_last();
        lemma_insert_ordered(t, x);
        let u = insert_by_time(t, x);
        assert forall|k: int| 0 <= k < u.len() implies u[k].1 <= sorted.last().1 by {
            if u[k] != x {
                let m = choose|m: int| 0 <= m < t.len() && t[m] == u[k];
                assert(sorted[m] == t[m]);
            }
        }
        assert forall|k: int| 0 <= k < u.len() && u[k] != x implies sorted.contains(u[k]) by {
            let m = choose|m: int| 0 <= m < t.len() && t[m] == u[k];
            assert(sorted[m] == t[m]);
        }
    } else if sorted.len() > 0 {
        assert forall|k: int| 0 <= k < sorted.len() implies sorted.contains(sorted[k]) by {}
    }
}

/// Sorting by modification time orders the files by time: no file comes after
/// a file changed later.
pub proof fn lemma_sort_by_time_ordered(files: Seq<(String, i128)>)
    ensures
        time_ordered(sort_by_time(files)),
        sort_by_time(files).len() == files.len(),
    decreases files.len(),
{
    if files.len() > 0 {
        lemma_sort_by_time_ordered(files.drop_last());
        lemma_insert_ordered(sort_by_time(files.drop_last()), files.last());
    }
}

/// Sorting by modification time keeps every file, as often as it was there.
pub proof fn lemma_sort_by_time_keeps_files(files: Seq<(String, i128)>)
    ensures
        sort_by_time(files).to_multiset() =~= files.to_multiset(),
    decreases files.len(),
{
    broadcast use vstd::seq_lib::group_to_multiset_ensures;

    if files.len() > 0 {
        lemma_sort_by_time_keeps_files(files.drop_last());
        lemma_insert_keeps_files(sort_by_time(files.drop_last()), files.last());
        assert(files.drop_last().push(files.last()) =~= files);
    }
}

/// Whether a file was changed at time `t`.
pub open spec fn at_time(t: i128) -> spec_fn((String, i128)) -> bool {
    |f: (String, i128)| f.1 == t
}

proof fn lemma_insert_filter(sorted: Seq<(String, i128)>, x: (String, i128), t: i128)
    ensures
        insert_by_time(sorted, x).filter(at_time(t)) == if x.1 == t {
            sorted.filter(at_time(t)).push(x)
        } else {
            sorted.filter(at_time(t))
        },
    decreases sorted.len(),
{
    reveal(Seq::filter);
    let p = at_time(t);
    if sorted.len() == 0 {
        let e = Seq::<(String, i128)>::empty();
        assert(sorted =~= e);
        assert(e.filter(p) == e);
        assert(seq![x].drop_last() =~= e);
        assert(seq![x].last() == x);
        assert(insert_by_time(sorted, x) == seq![x]);
        assert(seq![x].filter(p) == if p(x) {
            e.filter(p).push(x)
        } else {
            e.filter(p)
        });
        assert(e.push(x) =~= seq![x]);
    } else if sorted.last().1 <= x.1 {
        assert(sorted.push(x).drop_last() =~= sorted);
        assert(sorted.push(x).last() == x);
        assert(sorted.push(x).filter(p) == if p(x) {
            sorted.filter(p).push(x)
        } else {
            sorted.filter(p)
        });
    } else {
        let d = sorted.drop_last();
        let l = sorted.last();
        lemma_insert_filter(d, x, t);
        let u = insert_by_time(d, x);
        assert(u.push(l).drop_last() =~= u);
        assert(u.push(l).last() == l);
        assert(sorted.filter(p) == if p(l) {
            d.filter(p).push(l)
        } else {
            d.filter(p)
        });
    }
}

/// Sorting by modification time is stable: the files changed at any one time
/// come out in the order in which they were given.
pub proof fn lemma_sort_by_time_stable(files: Seq<(String, i128)>, t: i128)
    ensures
        sort_by_time(files).filter(at_time(t)) == files.filter(at_time(t)),
    decreases files.len(),
{
    reveal(Seq::filter);
    if files.len() > 0 {
        let d = files.drop_last();
        let l = files.last();
        lemma_sort_by_time_stable(d, t);
        lemma_insert_filter(sort_by_time(d), l, t);
    }
}

/// Files that are already in order of time stay as they are; in particular
/// files changed at the same time keep their order.
pub proof fn lemma_sort_by_time_ordered_unchanged(files: Seq<(String, i128)>)
    requires
        time_ordered(files),
    ensures
        sort_by_time(files) == files,
    decreases files.len(),
{
    if files.len() > 0 {
        let t = files.drop_last();
        assert(time_ordered(t));
        lemma_sort_by_time_ordered_unchanged(t);
        assert(t.push(files.last()) =~= files);
        if t.len() > 0 {
            assert(t.last() == files[files.len() - 2]);
        }
    }
}

} // verus!

verus! {

/// The last line a view can start at: the last line, or the first when there
/// are none.
pub open spec fn last_start(total: u16) -> int {
    if total >= 1 {
        total - 1
    } else {
        0
    }
}

/// Scrolling never takes a view that starts within the text out of it: from
/// an offset at or before the last line, any scroll lands at or before it.
pub proof fn lemma_scroll_stays_in_text(offset: u16, total: u16, delta: i16)
    requires
        offset <= last_start(total),
    ensures
        scrolled_offset(offset, total, delta) <= last_start(total),
{
}

/// Scrolling up never moves the view down, and scrolling down never moves it
/// up from within the text.
pub proof fn lemma_scroll_direction(offset: u16, total: u16, delta: i16)
    requires
        offset <= last_start(total),
    ensures
        delta <= 0 ==> scrolled_offset(offset, total, delta) <= offset,
        delta >= 0 ==> scrolled_offset(offset, total, delta) >= offset,
{
}

} // verus!
