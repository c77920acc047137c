//! Git worktree management.
//!
//! Worktrees are created as siblings of the main repository at
//! `../<repo-name>.<branch-name>`.

use vstd::prelude::*;
use crate::text::{
    ascii_alnum, ascii_lower, chars_of, is_ascii_alnum, join_chars, join_with, runs, runs_acc,
    split_words, string_of, to_ascii_lower, words, has_prefix, opt_view, lines_of,
    split_lines, strip_prefix, chars_eq_str, trim, trim_chars, chars_eq, chars_from, parse_usize,
    parse_usize_spec, is_ws,
};

verus! {

// ---------------------------------------------------------------------------
// Branch names from prompts
// ---------------------------------------------------------------------------

/// How one character of the joined words appears in a branch name.
pub open spec fn slug_char(c: char) -> char {
    if is_ascii_alnum(c) {
        ascii_lower(c)
    } else {
        '-'
    }
}

/// The first five words of the prompt, joined with dashes, each character mapped
/// by [`slug_char`].
pub open spec fn slug_source(prompt: Seq<char>) -> Seq<char> {
    join_with(first_words(prompt), '-').map_values(|c: char| slug_char(c))
}

/// At most the first five words of the prompt.
pub open spec fn first_words(prompt: Seq<char>) -> Seq<Seq<char>> {
    let w = words(prompt);
    if w.len() <= 5 {
        w
    } else {
        w.take(5)
    }
}

/// The dash-free pieces of [`slug_source`].
pub open spec fn slug_pieces(prompt: Seq<char>) -> Seq<Seq<char>> {
    runs(slug_source(prompt), |c: char| c == '-')
}

/// The branch name for a prompt: the dash-free pieces joined by single dashes,
/// or `worktree` when there are none.
pub open spec fn slug_of(prompt: Seq<char>) -> Seq<char> {
    let r = join_with(slug_pieces(prompt), '-');
    if r.len() == 0 {
        "worktree"@
    } else {
        r
    }
}

/// Each piece followed by a dash.
spec fn dash_terminated(d: Seq<Seq<char>>) -> Seq<char>
    decreases d.len(),
{
    if d.len() == 0 {
        Seq::empty()
    } else {
        dash_terminated(d.drop_last()) + d.last().push('-')
    }
}

proof fn lemma_dash_terminated(d: Seq<Seq<char>>)
    requires
        d.len() > 0,
    ensures
        dash_terminated(d) == join_with(d, '-').push('-'),
    decreases d.len(),
{
    if d.len() == 1 {
        assert(d.drop_last() =~= Seq::<Seq<char>>::empty());
        assert(dash_terminated(d.drop_last()) == Seq::<char>::empty());
        assert(dash_terminated(d) =~= d[0].push('-'));
    } else {
        lemma_dash_terminated(d.drop_last());
        assert(join_with(d.drop_last(), '-').push('-') + d.last().push('-') =~= (join_with(
            d.drop_last(),
            '-',
        ).push('-') + d.last()).push('-'));
    }
}

proof fn lemma_dash_terminated_then(d: Seq<Seq<char>>, cur: Seq<char>)
    ensures
        dash_terminated(d) + cur == join_with(d.push(cur), '-'),
{
    if d.len() == 0 {
        assert(d.push(cur) =~= seq![cur]);
        assert(dash_terminated(d) + cur =~= cur);
    } else {
        lemma_dash_terminated(d);
        assert(d.push(cur).drop_last() =~= d);
    }
}

/// A character that may stand in a branch name besides the dash: a
/// lower-case ASCII letter or a digit.
pub open spec fn is_slug_char(c: char) -> bool {
    ('a' <= c <= 'z') || ('0' <= c <= '9')
}

/// Whether `r` is a clean dash-separated name: not empty, no dash at either
/// end, never two dashes in a row.
pub open spec fn dash_clean(r: Seq<char>) -> bool {
    &&& r.len() > 0
    &&& r[0] != '-'
    &&& r.last() != '-'
    &&& forall|i: int| 0 <= i < r.len() - 1 ==> !(#[trigger] r[i] == '-' && r[i + 1] == '-')
}

proof fn lemma_runs_acc_pieces(s: Seq<char>, sep: spec_fn(char) -> bool)
    requires
        forall|i: int| 0 <= i < s.len() && !sep(s[i]) ==> is_slug_char(#[trigger] s[i]),
    ensures
        forall|k: int|
            0 <= k < runs_acc(s, sep).0.len() ==> (#[trigger] runs_acc(s, sep).0[k]).len() > 0,
        forall|k: int, j: int|
            0 <= k < runs_acc(s, sep).0.len() && 0 <= j < runs_acc(s, sep).0[k].len()
                ==> is_slug_char(#[trigger] runs_acc(s, sep).0[k][j]) && !sep(
                runs_acc(s, sep).0[k][j],
            ),
        forall|j: int|
            0 <= j < runs_acc(s, sep).1.len() ==> is_slug_char(#[trigger] runs_acc(s, sep).1[j])
                && !sep(runs_acc(s, sep).1[j]),
    decreases s.len(),
{
    if s.len() > 0 {
        let t = s.drop_last();
        assert forall|i: int| 0 <= i < t.len() && !sep(t[i]) implies is_slug_char(#[trigger] t[i]) by {
            assert(t[i] == s[i]);
        }
        lemma_runs_acc_pieces(t, sep);
        let (done, cur) = runs_acc(t, sep);
        assert(s.last() == s[s.len() - 1]);
        if !sep(s.last()) {
            let c2 = cur.push(s.last());
            assert forall|j: int| 0 <= j < c2.len() implies is_slug_char(#[trigger] c2[j]) && !sep(
                c2[j],
            ) by {
                if j < cur.len() {
                    assert(c2[j] == cur[j]);
                }
            }
        } else if cur.len() > 0 {
            let d2 = done.push(cur);
            assert forall|k: int, j: int| 0 <= k < d2.len() && 0 <= j < d2[k].len() implies is_slug_char(
                #[trigger] d2[k][j],
            ) && !sep(d2[k][j]) by {
                if k < done.len() {
                    assert(d2[k] == done[k]);
                } else {
                    assert(d2[k] == cur);
                }
            }
        }
    }
}

proof fn lemma_runs_pieces(s: Seq<char>, sep: spec_fn(char) -> bool)
    requires
        forall|i: int| 0 <= i < s.len() && !sep(s[i]) ==> is_slug_char(#[trigger] s[i]),
    ensures
        forall|k: int| 0 <= k < runs(s, sep).len() ==> (#[trigger] runs(s, sep)[k]).len() > 0,
        forall|k: int, j: int|
            0 <= k < runs(s, sep).len() && 0 <= j < runs(s, sep)[k].len() ==> is_slug_char(
                #[trigger] runs(s, sep)[k][j],
            ) && !sep(runs(s, sep)[k][j]),
{
    lemma_runs_acc_pieces(s, sep);
    let (done, cur) = runs_acc(s, sep);
    if cur.len() > 0 {
        let d2 = done.push(cur);
        assert forall|k: int| 0 <= k < d2.len() implies (#[trigger] d2[k]).len() > 0 by {
            if k < done.len() {
                assert(d2[k] == done[k]);
            }
        }
        assert forall|k: int, j: int| 0 <= k < d2.len() && 0 <= j < d2[k].len() implies is_slug_char(
            #[trigger] d2[k][j],
        ) && !sep(d2[k][j]) by {
            if k < done.len() {
                assert(d2[k] == done[k]);
            } else {
                assert(d2[k] == cur);
            }
        }
    }
}

proof fn lemma_join_clean(segs: Seq<Seq<char>>)
    requires
        segs.len() > 0,
        forall|k: int| 0 <= k < segs.len() ==> (#[trigger] segs[k]).len() > 0,
        forall|k: int, j: int|
            0 <= k < segs.len() && 0 <= j < segs[k].len() ==> is_slug_char(#[trigger] segs[k][j]),
    ensures
        dash_clean(join_with(segs, '-')),
        forall|j: int|
            0 <= j < join_with(segs, '-').len() ==> is_slug_char(#[trigger] join_with(segs, '-')[j])
                || join_with(segs, '-')[j] == '-',
    decreases segs.len(),
{
    let r = join_with(segs, '-');
    if segs.len() == 1 {
        let p = segs[0];
        assert(r == p);
        assert(is_slug_char(p[0]));
        assert(is_slug_char(p[p.len() - 1]));
        assert forall|i: int| 0 <= i < p.len() - 1 implies !(#[trigger] p[i] == '-' && p[i + 1]
            == '-') by {
            assert(is_slug_char(p[i]));
        }
    } else {
        let init = segs.drop_last();
        assert forall|k: int| 0 <= k < init.len() implies (#[trigger] init[k]).len() > 0 by {
            assert(init[k] == segs[k]);
        }
        assert forall|k: int, j: int| 0 <= k < init.len() && 0 <= j < init[k].len() implies is_slug_char(
            #[trigger] init[k][j],
        ) by {
            assert(init[k] == segs[k]);
        }
        lemma_join_clean(init);
        let a = join_with(init, '-');
        let b = segs.last();
        assert(b == segs[segs.len() - 1]);
        assert(r == a.push('-') + b);
        assert forall|j: int| 0 <= j < b.len() implies is_slug_char(#[trigger] b[j]) by {
            assert(is_slug_char(segs[segs.len() - 1][j]));
        }
        assert(r[0] == a[0]);
        assert(r.last() == b[b.len() - 1]);
        assert(is_slug_char(b[b.len() - 1]));
        assert forall|i: int| 0 <= i < r.len() - 1 implies !(#[trigger] r[i] == '-' && r[i + 1]
            == '-') by {
            if i < a.len() - 1 {
                assert(r[i] == a[i] && r[i + 1] == a[i + 1]);
            } else if i == a.len() - 1 {
                assert(r[i] == a.last());
            } else if i == a.len() {
                assert(r[i + 1] == b[0]);
                assert(is_slug_char(b[0]));
            } else {
                assert(r[i] == b[i - a.len() - 1]);
                assert(is_slug_char(b[i - a.len() - 1]));
            }
        }
        assert forall|j: int| 0 <= j < r.len() implies is_slug_char(#[trigger] r[j]) || r[j]
            == '-' by {
            if j < a.len() {
                assert(r[j] == a[j]);
            } else if j > a.len() {
                assert(r[j] == b[j - a.len() - 1]);
            }
        }
    }
}

/// The branch name made from a prompt is a clean git branch name: it is not
/// empty, holds only lower-case ASCII letters, digits and dashes, neither
/// starts nor ends with a dash, and never has two dashes in a row.
pub proof fn lemma_slug_is_branch_name(prompt: Seq<char>)
    ensures
        dash_clean(slug_of(prompt)),
        forall|j: int|
            0 <= j < slug_of(prompt).len() ==> is_slug_char(#[trigger] slug_of(prompt)[j])
                || slug_of(prompt)[j] == '-',
{
    let src = slug_source(prompt);
    let joined = join_with(first_words(prompt), '-');
    let sep = |c: char| c == '-';
    assert forall|i: int| 0 <= i < src.len() && !sep(src[i]) implies is_slug_char(
        #[trigger] src[i],
    ) by {
        let c = joined[i];
        assert(src[i] == slug_char(c));
        if 'A' <= c <= 'Z' {
            assert((c as u32) + 32 <= 'z' as u32);
        }
    }
    lemma_runs_pieces(src, sep);
    let pieces = slug_pieces(prompt);
    assert(pieces == runs(src, sep));
    if pieces.len() > 0 {
        lemma_join_clean(pieces);
    } else {
        reveal_strlit("worktree");
        assert(join_with(pieces, '-').len() == 0);
        let w = "worktree"@;
        assert forall|i: int| 0 <= i < w.len() - 1 implies !(#[trigger] w[i] == '-' && w[i + 1]
            == '-') by {}
        assert forall|j: int| 0 <= j < w.len() implies is_slug_char(#[trigger] w[j]) || w[j]
            == '-' by {}
    }
}

proof fn lemma_runs_acc_no_sep(s: Seq<char>, sep: spec_fn(char) -> bool)
    requires
        forall|i: int| 0 <= i < s.len() ==> !sep(#[trigger] s[i]),
    ensures
        runs_acc(s, sep) == (Seq::<Seq<char>>::empty(), s),
    decreases s.len(),
{
    if s.len() == 0 {
        assert(s =~= Seq::<char>::empty());
    } else {
        let t = s.drop_last();
        assert forall|i: int| 0 <= i < t.len() implies !sep(#[trigger] t[i]) by {
            assert(t[i] == s[i]);
        }
        lemma_runs_acc_no_sep(t, sep);
        assert(!sep(s[s.len() - 1]));
        assert(t.push(s.last()) =~= s);
    }
}

proof fn lemma_dash_terminated_last(d: Seq<Seq<char>>)
    requires
        d.len() > 0,
    ensures
        dash_terminated(d).len() > 0,
        dash_terminated(d).last() == '-',
{
    let x = dash_terminated(d.drop_last());
    let y = d.last().push('-');
    assert(dash_terminated(d) == x + y);
    assert((x + y)[(x + y).len() - 1] == y[y.len() - 1]);
}

proof fn lemma_dash_runs_rebuild(s: Seq<char>, sep: spec_fn(char) -> bool)
    requires
        sep == (|c: char| c == '-'),
        s.len() > 0 ==> s[0] != '-',
        forall|i: int| 0 <= i < s.len() - 1 ==> !(#[trigger] s[i] == '-' && s[i + 1] == '-'),
    ensures
        dash_terminated(runs_acc(s, sep).0) + runs_acc(s, sep).1 == s,
    decreases s.len(),
{
    if s.len() == 0 {
        assert(dash_terminated(Seq::<Seq<char>>::empty()) + Seq::<char>::empty() =~= s);
    } else {
        let t = s.drop_last();
        assert forall|i: int| 0 <= i < t.len() - 1 implies !(#[trigger] t[i] == '-' && t[i + 1]
            == '-') by {
            assert(t[i] == s[i] && t[i + 1] == s[i + 1]);
        }
        if t.len() > 0 {
            assert(t[0] == s[0]);
        }
        lemma_dash_runs_rebuild(t, sep);
        let (d, cur) = runs_acc(t, sep);
        let x = s.last();
        assert(x == s[s.len() - 1]);
        if x == '-' {
            assert(t.len() > 0);
            assert(t.last() == s[t.len() - 1]);
            assert(!(s[t.len() - 1] == '-' && s[t.len() as int] == '-'));
            if cur.len() == 0 {
                assert(t =~= dash_terminated(d));
                if d.len() > 0 {
                    lemma_dash_terminated_last(d);
                }
            }
            assert(cur.len() > 0);
            assert(d.push(cur).drop_last() =~= d);
            assert(dash_terminated(d.push(cur)) == dash_terminated(d) + cur.push('-'));
            assert(dash_terminated(d) + cur.push('-') + Seq::<char>::empty() =~= t.push('-'));
            assert(t.push('-') =~= s);
        } else {
            assert(dash_terminated(d) + cur.push(x) =~= t.push(x));
            assert(t.push(x) =~= s);
        }
    }
}

/// A branch name made from a prompt is its own branch name: making a branch
/// name from it again changes nothing.
pub proof fn lemma_slug_idempotent(prompt: Seq<char>)
    ensures
        slug_of(slug_of(prompt)) == slug_of(prompt),
{
    let s = slug_of(prompt);
    lemma_slug_is_branch_name(prompt);
    let ws = |c: char| is_ws(c);
    assert forall|i: int| 0 <= i < s.len() implies !ws(#[trigger] s[i]) by {
        assert(is_slug_char(s[i]) || s[i] == '-');
    }
    lemma_runs_acc_no_sep(s, ws);
    assert(words(s) =~= seq![s]);
    assert(first_words(s) =~= seq![s]);
    assert(join_with(seq![s], '-') == s);
    assert(slug_source(s) =~= s) by {
        assert forall|j: int| 0 <= j < s.len() implies slug_char(#[trigger] s[j]) == s[j] by {
            assert(is_slug_char(s[j]) || s[j] == '-');
        }
    }
    let sep = |c: char| c == '-';
    assert(s[0] != '-');
    lemma_dash_runs_rebuild(s, sep);
    let (d, cur) = runs_acc(s, sep);
    if cur.len() == 0 {
        assert(s =~= dash_terminated(d));
        if d.len() > 0 {
            lemma_dash_terminated_last(d);
        }
        assert(false);
    }
    assert(slug_pieces(s) == d.push(cur));
    lemma_dash_terminated_then(d, cur);
    assert(join_with(slug_pieces(s), '-') == s);
}

/// Generates a git-friendly branch name from a prompt: the first five words,
/// lower-cased, with every run of characters other than ASCII letters and
/// digits turned into a single dash and no dash at either end; `worktree` when
/// nothing is left.
pub fn slugify_prompt(prompt: &str) -> (r: String)
    ensures
        r@ == slug_of(prompt@),
{
    let chars = chars_of(prompt);
    let mut ws = split_words(&chars);
    let ghost all_words = words(chars@);
    ws.truncate(5);
    proof {
        let n = ws@.len();
        assert(ws@.map_values(|v: Vec<char>| v@) =~= all_words.take(n as int));
        if all_words.len() <= 5 {
            assert(all_words =~= all_words.take(n as int));
        }
    }
    let joined = join_chars(&ws, '-');
    let ghost m = slug_source(prompt@);
    let ghost sep = |c: char| c == '-';
    let mut result: Vec<char> = Vec::new();
    let mut prev_dash = true;
    let mut i: usize = 0;
    let ghost mut cur: Seq<char> = Seq::empty();
    while i < joined.len()
        invariant
            i <= joined@.len(),
            m == joined@.map_values(|c: char| slug_char(c)),
            sep == (|c: char| c == '-'),
            runs_acc(m.take(i as int), sep).1 == cur,
            result@ == dash_terminated(runs_acc(m.take(i as int), sep).0) + cur,
            prev_dash == (cur.len() == 0),
            forall|k: int| 0 <= k < cur.len() ==> cur[k] != '-',
        decreases joined@.len() - i,
    {
        assert(m.take(i + 1).drop_last() =~= m.take(i as int));
        let c0 = joined[i];
        let c = if ascii_alnum(c0) {
            to_ascii_lower(c0)
        } else {
            '-'
        };
        assert(c == m[i as int]);
        let ghost d = runs_acc(m.take(i as int), sep).0;
        if c == '-' {
            if !prev_dash {
                result.push(c);
                prev_dash = true;
                proof {
                    assert(dash_terminated(d.push(cur)).len() > 0);
                    assert(d.push(cur).drop_last() =~= d);
                    assert(result@ =~= dash_terminated(d.push(cur)) + Seq::<char>::empty());
                }
            }
            proof {
                cur = Seq::empty();
            }
        } else {
            result.push(c);
            prev_dash = false;
            proof {
                assert(result@ =~= dash_terminated(d) + cur.push(c));
                cur = cur.push(c);
            }
        }
        i = i + 1;
    }
    proof {
        assert(m.take(joined@.len() as int) =~= m);
        let d = runs_acc(m, sep).0;
        if cur.len() > 0 {
            lemma_dash_terminated_then(d, cur);
        } else if d.len() > 0 {
            lemma_dash_terminated(d);
        }
    }
    let n = result.len();
    if n > 0 && result[n - 1] == '-' {
        result.pop();
        proof {
            let d = runs_acc(m, sep).0;
            if cur.len() > 0 {
                assert(result@.push('-') == dash_terminated(d) + cur);
                assert((dash_terminated(d) + cur).last() == cur.last());
            }
        }
    }
    if result.len() == 0 {
        String::from_str("worktree")
    } else {
        string_of(&result)
    }
}

} // verus!

verus! {

// ---------------------------------------------------------------------------
// Worktrees and their listing
// ---------------------------------------------------------------------------

/// A git worktree.
#[derive(Debug, Clone, PartialEq)]
pub struct Worktree {
    /// Absolute path to the worktree directory
    pub path: String,
    /// Branch name (None for bare/detached worktrees)
    pub branch: Option<String>,
    /// Whether this is the main worktree
    pub is_main: bool,
    /// Whether the worktree is bare
    pub is_bare: bool,
}

/// What a [`Worktree`] holds, as plain values.
pub struct WorktreeView {
    pub path: Seq<char>,
    pub branch: Option<Seq<char>>,
    pub is_main: bool,
    pub is_bare: bool,
}

impl View for Worktree {
    type V = WorktreeView;

    open spec fn view(&self) -> WorktreeView {
        WorktreeView {
            path: self.path@,
            branch: opt_view(self.branch),
            is_main: self.is_main,
            is_bare: self.is_bare,
        }
    }
}

/// The views of a sequence of worktrees.
pub open spec fn worktree_views(ws: Seq<Worktree>) -> Seq<WorktreeView> {
    ws.map_values(|w: Worktree| w@)
}

/// State while reading `git worktree list --porcelain`: the worktrees finished so
/// far and the fields of the one being read.
pub struct ListState {
    pub done: Seq<WorktreeView>,
    pub path: Option<Seq<char>>,
    pub branch: Option<Seq<char>>,
    pub bare: bool,
}

/// The worktree whose fields `st` holds, about to be finished with `path`.
pub open spec fn finished(st: ListState, path: Seq<char>) -> WorktreeView {
    WorktreeView { path, branch: st.branch, is_main: st.done.len() == 0, is_bare: st.bare }
}

/// One line of the listing: `worktree <path>` finishes the worktree being read
/// (if any) and starts a new one, `branch refs/heads/<name>` sets the branch,
/// `bare` marks it bare; other lines change nothing.
pub open spec fn list_step(st: ListState, line: Seq<char>) -> ListState {
    if has_prefix(line, "worktree "@) {
        let rest = line.skip("worktree "@.len() as int);
        match st.path {
            Some(p) => ListState {
                done: st.done.push(finished(st, p)),
                path: Some(rest),
                branch: None,
                bare: false,
            },
            None => ListState { done: st.done, path: Some(rest), branch: st.branch, bare: st.bare },
        }
    } else if has_prefix(line, "branch refs/heads/"@) {
        ListState {
            done: st.done,
            path: st.path,
            branch: Some(line.skip("branch refs/heads/"@.len() as int)),
            bare: st.bare,
        }
    } else if line == "bare"@ {
        ListState { done: st.done, path: st.path, branch: st.branch, bare: true }
    } else {
        st
    }
}

/// The state after reading `lines` from the start.
pub open spec fn list_state(lines: Seq<Seq<char>>) -> ListState
    decreases lines.len(),
{
    if lines.len() == 0 {
        ListState { done: Seq::empty(), path: None, branch: None, bare: false }
    } else {
        list_step(list_state(lines.drop_last()), lines.last())
    }
}

/// The worktrees that `git worktree list --porcelain` printed as `output`: the
/// first is the main worktree.
pub open spec fn worktree_list_spec(output: Seq<char>) -> Seq<WorktreeView> {
    let st = list_state(lines_of(output));
    match st.path {
        Some(p) => st.done.push(finished(st, p)),
        None => st.done,
    }
}

/// The paths of the `worktree <path>` lines among `lines`, in order.
pub open spec fn header_paths(lines: Seq<Seq<char>>) -> Seq<Seq<char>>
    decreases lines.len(),
{
    if lines.len() == 0 {
        Seq::empty()
    } else {
        let h = header_paths(lines.drop_last());
        if has_prefix(lines.last(), "worktree "@) {
            h.push(lines.last().skip("worktree "@.len() as int))
        } else {
            h
        }
    }
}

/// The paths of the worktrees finished in `st`, then that of the one being read.
pub open spec fn state_paths(st: ListState) -> Seq<Seq<char>> {
    st.done.map_values(|w: WorktreeView| w.path) + match st.path {
        Some(p) => seq![p],
        None => Seq::<Seq<char>>::empty(),
    }
}

proof fn lemma_list_state_paths(lines: Seq<Seq<char>>)
    ensures
        state_paths(list_state(lines)) == header_paths(lines),
        forall|k: int|
            0 <= k < list_state(lines).done.len() ==> (#[trigger] list_state(lines).done[k]).is_main
                == (k == 0),
        list_state(lines).done.len() > 0 ==> list_state(lines).path is Some,
    decreases lines.len(),
{
    if lines.len() > 0 {
        let t = lines.drop_last();
        lemma_list_state_paths(t);
        let st = list_state(t);
        let l = lines.last();
        let st2 = list_state(lines);
        assert(st2 == list_step(st, l));
        if has_prefix(l, "worktree "@) {
            let rest = l.skip("worktree "@.len() as int);
            match st.path {
                Some(p) => {
                    assert(st2.done == st.done.push(finished(st, p)));
                    assert(st2.done.map_values(|w: WorktreeView| w.path) =~= st.done.map_values(
                        |w: WorktreeView| w.path,
                    ).push(p));
                    assert(state_paths(st2) =~= state_paths(st).push(rest));
                    assert forall|k: int| 0 <= k < st2.done.len() implies (
                    #[trigger] st2.done[k]).is_main == (k == 0) by {
                        if k < st.done.len() {
                            assert(st2.done[k] == st.done[k]);
                        }
                    }
                },
                None => {
                    assert(state_paths(st) =~= st.done.map_values(|w: WorktreeView| w.path));
                    assert(state_paths(st2) =~= state_paths(st).push(rest));
                },
            }
        } else {
            assert(state_paths(st2) == state_paths(st));
        }
    }
}

/// The listing has one worktree for each `worktree <path>` line, in order and
/// with that path, and only the first is the main worktree.
pub proof fn lemma_listing_follows_headers(output: Seq<char>)
    ensures
        worktree_list_spec(output).map_values(|w: WorktreeView| w.path) == header_paths(
            lines_of(output),
        ),
        forall|i: int|
            0 <= i < worktree_list_spec(output).len() ==> (#[trigger] worktree_list_spec(
                output,
            )[i]).is_main == (i == 0),
{
    let lines = lines_of(output);
    lemma_list_state_paths(lines);
    let st = list_state(lines);
    let ws = worktree_list_spec(output);
    match st.path {
        Some(p) => {
            assert(ws == st.done.push(finished(st, p)));
            assert(ws.map_values(|w: WorktreeView| w.path) =~= state_paths(st));
            assert forall|i: int| 0 <= i < ws.len() implies (#[trigger] ws[i]).is_main == (i == 0) by {
                if i < st.done.len() {
                    assert(ws[i] == st.done[i]);
                }
            }
        },
        None => {
            assert(ws.map_values(|w: WorktreeView| w.path) =~= state_paths(st));
        },
    }
}

/// Whether `line` starts a worktree's block: `worktree <path>`.
pub open spec fn is_header(line: Seq<char>) -> bool {
    has_prefix(line, "worktree "@)
}

/// Whether `line` names the branch of its block: `branch refs/heads/<name>`.
pub open spec fn is_branch_line(line: Seq<char>) -> bool {
    !is_header(line) && has_prefix(line, "branch refs/heads/"@)
}

/// Whether `line` marks its block bare: `bare`.
pub open spec fn is_bare_line(line: Seq<char>) -> bool {
    !is_header(line) && !has_prefix(line, "branch refs/heads/"@) && line == "bare"@
}

/// The blocks of the listing: for each `worktree <path>` line, the lines after
/// it up to the next such line. Lines before the first one belong to no block.
pub open spec fn listing_blocks(lines: Seq<Seq<char>>) -> Seq<Seq<Seq<char>>>
    decreases lines.len(),
{
    if lines.len() == 0 {
        Seq::empty()
    } else {
        let b = listing_blocks(lines.drop_last());
        let l = lines.last();
        if is_header(l) {
            b.push(Seq::empty())
        } else if b.len() == 0 {
            b
        } else {
            b.update(b.len() - 1, b.last().push(l))
        }
    }
}

/// The branch that `block` names: that of its last `branch refs/heads/<name>`
/// line, none without one.
pub open spec fn block_branch(block: Seq<Seq<char>>) -> Option<Seq<char>>
    decreases block.len(),
{
    if block.len() == 0 {
        None
    } else if is_branch_line(block.last()) {
        Some(block.last().skip("branch refs/heads/"@.len() as int))
    } else {
        block_branch(block.drop_last())
    }
}

/// Whether `block` has a `bare` line.
pub open spec fn block_bare(block: Seq<Seq<char>>) -> bool
    decreases block.len(),
{
    block.len() > 0 && (is_bare_line(block.last()) || block_bare(block.drop_last()))
}

/// Whether every `branch` or `bare` line of `lines` comes after some
/// `worktree <path>` line.
pub open spec fn fields_after_header(lines: Seq<Seq<char>>) -> bool {
    forall|k: int|
        0 <= k < lines.len() && (is_branch_line(#[trigger] lines[k]) || is_bare_line(lines[k]))
            ==> exists|j: int| 0 <= j < k && is_header(#[trigger] lines[j])
}

proof fn lemma_list_state_blocks(lines: Seq<Seq<char>>)
    requires
        fields_after_header(lines),
    ensures
        ({
            let st = list_state(lines);
            let b = listing_blocks(lines);
            &&& st.path is None ==> b.len() == 0 && st.done.len() == 0 && st.branch is None
                && !st.bare && forall|j: int| 0 <= j < lines.len() ==> !is_header(#[trigger] lines[j])
            &&& st.path is Some ==> b.len() == st.done.len() + 1 && st.branch == block_branch(
                b.last(),
            ) && st.bare == block_bare(b.last())
            &&& forall|k: int|
                0 <= k < st.done.len() ==> (#[trigger] st.done[k]).branch == block_branch(b[k])
                    && st.done[k].is_bare == block_bare(b[k])
        }),
    decreases lines.len(),
{
    if lines.len() > 0 {
        let t = lines.drop_last();
        assert forall|k: int|
            0 <= k < t.len() && (is_branch_line(#[trigger] t[k]) || is_bare_line(t[k])) implies exists|
            j: int,
        | 0 <= j < k && is_header(#[trigger] t[j]) by {
            assert(t[k] == lines[k]);
            let j = choose|j: int| 0 <= j < k && is_header(#[trigger] lines[j]);
            assert(t[j] == lines[j]);
        }
        lemma_list_state_blocks(t);
        let st = list_state(t);
        let b = listing_blocks(t);
        let l = lines.last();
        let st2 = list_state(lines);
        let b2 = listing_blocks(lines);
        assert(st2 == list_step(st, l));
        assert(l == lines[lines.len() - 1]);
        if is_header(l) {
            let nb = b.push(Seq::<Seq<char>>::empty());
            assert(b2 == nb);
            assert(block_branch(nb.last()) is None);
            assert(!block_bare(nb.last()));
            match st.path {
                Some(p) => {
                    assert forall|k: int| 0 <= k < st2.done.len() implies (
                    #[trigger] st2.done[k]).branch == block_branch(b2[k]) && st2.done[k].is_bare
                        == block_bare(b2[k]) by {
                        assert(b2[k] == b[k]);
                        if k < st.done.len() {
                            assert(st2.done[k] == st.done[k]);
                        }
                    }
                },
                None => {},
            }
        } else if st.path is None {
            assert forall|j: int| 0 <= j < lines.len() implies !is_header(#[trigger] lines[j]) by {
                if j < t.len() {
                    assert(lines[j] == t[j]);
                }
            }
            if is_branch_line(l) || is_bare_line(l) {
                let j = choose|j: int| 0 <= j < lines.len() - 1 && is_header(#[trigger] lines[j]);
                assert(false);
            }
            assert(b2 == b);
        } else {
            let last = b.last().push(l);
            assert(b2 == b.update(b.len() - 1, last));
            assert(b2.last() == last);
            assert(last.drop_last() =~= b.last());
            assert(last.last() == l);
            assert forall|k: int| 0 <= k < st2.done.len() implies (#[trigger] st2.done[k]).branch
                == block_branch(b2[k]) && st2.done[k].is_bare == block_bare(b2[k]) by {
                assert(b2[k] == b[k]);
                assert(st2.done[k] == st.done[k]);
            }
        }
    }
}

/// The listing has one worktree per block (see [`listing_blocks`]), and each
/// has the branch and the bare mark its block gives, provided no `branch` or
/// `bare` line comes before the first `worktree <path>` line.
pub proof fn lemma_listing_block_fields(output: Seq<char>)
    requires
        fields_after_header(lines_of(output)),
    ensures
        worktree_list_spec(output).len() == listing_blocks(lines_of(output)).len(),
        forall|i: int|
            0 <= i < worktree_list_spec(output).len() ==> {
                &&& (#[trigger] worktree_list_spec(output)[i]).branch == block_branch(
                    listing_blocks(lines_of(output))[i],
                )
                &&& worktree_list_spec(output)[i].is_bare == block_bare(
                    listing_blocks(lines_of(output))[i],
                )
            },
{
    let lines = lines_of(output);
    lemma_list_state_blocks(lines);
    let st = list_state(lines);
    let b = listing_blocks(lines);
    let ws = worktree_list_spec(output);
    match st.path {
        Some(p) => {
            assert(ws == st.done.push(finished(st, p)));
            assert forall|i: int| 0 <= i < ws.len() implies (#[trigger] ws[i]).branch
                == block_branch(b[i]) && ws[i].is_bare == block_bare(b[i]) by {
                if i < st.done.len() {
                    assert(ws[i] == st.done[i]);
                }
            }
        },
        None => {},
    }
}

/// The view of an optional character vector.
pub open spec fn opt_chars(o: Option<Vec<char>>) -> Option<Seq<char>> {
    match o {
        Some(v) => Some(v@),
        None => None,
    }
}

fn opt_string(o: Option<Vec<char>>) -> (r: Option<String>)
    ensures
        opt_view(r) == opt_chars(o),
{
    match o {
        Some(v) => Some(string_of(&v)),
        None => None,
    }
}

/// Parses the output of `git worktree list --porcelain` (see [`worktree_list_spec`]).
pub fn parse_worktree_list(output: &str) -> (r: Vec<Worktree>)
    ensures
        worktree_views(r@) == worktree_list_spec(output@),
{
    let chars = chars_of(output);
    let lines = split_lines(&chars);
    let ghost ls = lines_of(output@);
    let mut done: Vec<Worktree> = Vec::new();
    let mut path: Option<Vec<char>> = None;
    let mut branch: Option<Vec<char>> = None;
    let mut bare = false;
    let mut i: usize = 0;
    while i < lines.len()
        invariant
            i <= lines@.len(),
            lines@.len() == ls.len(),
            forall|k: int| 0 <= k < lines@.len() ==> #[trigger] lines@[k]@ == ls[k],
            worktree_views(done@) == list_state(ls.take(i as int)).done,
            opt_chars(path) == list_state(ls.take(i as int)).path,
            opt_chars(branch) == list_state(ls.take(i as int)).branch,
            bare == list_state(ls.take(i as int)).bare,
        decreases lines@.len() - i,
    {
        assert(ls.take(i + 1).drop_last() =~= ls.take(i as int));
        assert(ls.take(i + 1).last() == lines@[i as int]@);
        let line = &lines[i];
        let ghost st = list_state(ls.take(i as int));
        if let Some(rest) = strip_prefix(line, "worktree ") {
            let old_path = path;
            path = None;
            match old_path {
                Some(p) => {
                    let w = Worktree {
                        path: string_of(&p),
                        branch: opt_string(branch),
                        is_main: done.len() == 0,
                        is_bare: bare,
                    };
                    done.push(w);
                    assert(worktree_views(done@) =~= st.done.push(finished(st, p@)));
                    branch = None;
                    bare = false;
                },
                None => {},
            }
            path = Some(rest);
        } else if let Some(rest) = strip_prefix(line, "branch refs/heads/") {
            branch = Some(rest);
        } else if chars_eq_str(line, "bare") {
            bare = true;
        }
        i = i + 1;
    }
    assert(ls.take(lines@.len() as int) =~= ls);
    match path {
        Some(p) => {
            let ghost st = list_state(ls);
            let w = Worktree {
                path: string_of(&p),
                branch: opt_string(branch),
                is_main: done.len() == 0,
                is_bare: bare,
            };
            done.push(w);
            assert(worktree_views(done@) =~= st.done.push(finished(st, p@)));
        },
        None => {},
    }
    done
}

} // verus!

verus! {

// ---------------------------------------------------------------------------
// Paths
// ---------------------------------------------------------------------------

/// What `Path::file_name` gives for the path `p`: its final component, if any.
pub uninterp spec fn path_file_name(p: Seq<char>) -> Option<Seq<char>>;

/// What `Path::parent` gives for the path `p`: the path without its final
/// component, if there is one.
pub uninterp spec fn path_parent(p: Seq<char>) -> Option<Seq<char>>;

/// What `Path::join` gives for `base` and `rest`.
pub uninterp spec fn path_join(base: Seq<char>, rest: Seq<char>) -> Seq<char>;

/// What `==` on `Path` gives: whether the two paths have the same components.
pub uninterp spec fn path_eq(a: Seq<char>, b: Seq<char>) -> bool;

/// Calls `std::path::Path::file_name`; the result is named [`path_file_name`].
#[verifier::external_body]
pub(crate) fn file_name_of(p: &str) -> (r: Option<String>)
    ensures
        opt_view(r) == path_file_name(p@),
{
    std::path::Path::new(p).file_name().map(|n| n.to_string_lossy().into_owned())
}

/// Calls `std::path::Path::parent`; the result is named [`path_parent`]. The
/// parent is the path with its final component removed, so it is shorter.
#[verifier::external_body]
pub(crate) fn parent_of(p: &str) -> (r: Option<String>)
    ensures
        opt_view(r) == path_parent(p@),
        r is Some ==> r->0@.len() < p@.len(),
{
    std::path::Path::new(p).parent().map(|q| q.to_string_lossy().into_owned())
}

/// Calls `std::path::Path::join`; the result is named [`path_join`].
#[verifier::external_body]
pub(crate) fn join_path(base: &str, rest: &str) -> (r: String)
    ensures
        r@ == path_join(base@, rest@),
{
    std::path::Path::new(base).join(rest).to_string_lossy().into_owned()
}

/// Compares two paths with `==` on `std::path::Path`; the result is named
/// [`path_eq`]. Two equal strings are the same path.
#[verifier::external_body]
pub(crate) fn same_path(a: &str, b: &str) -> (r: bool)
    ensures
        r == path_eq(a@, b@),
        a@ == b@ ==> r,
{
    std::path::Path::new(a) == std::path::Path::new(b)
}

/// Calls `std::path::Path::exists`. Whether a path exists depends on the file
/// system at the time of the call, so nothing is stated of the result.
#[verifier::external_body]
pub(crate) fn path_exists(p: &str) -> bool {
    std::path::Path::new(p).exists()
}

/// Calls `std::path::Path::is_file`. The answer depends on the file system at
/// the time of the call, so nothing is stated of the result.
#[verifier::external_body]
pub(crate) fn path_is_file(p: &str) -> bool {
    std::path::Path::new(p).is_file()
}

/// The parent of `p`, or the root `/` when it has none.
pub open spec fn parent_or_root(p: Seq<char>) -> Seq<char> {
    match path_parent(p) {
        Some(q) => q,
        None => "/"@,
    }
}

/// The path of the worktree for `branch` of the repository at `root` named
/// `name`: the sibling `<name>.<branch>` of the repository.
pub open spec fn worktree_path_spec(root: Seq<char>, name: Seq<char>, branch: Seq<char>) -> Seq<
    char,
> {
    path_join(parent_or_root(root), name + "."@ + branch)
}

// ---------------------------------------------------------------------------
// Reading git's answers
// ---------------------------------------------------------------------------

/// What a git command answered.
#[derive(Debug, Clone)]
pub struct GitOutput {
    /// Whether the command exited successfully
    pub success: bool,
    /// Standard output, decoded as UTF-8 with invalid sequences replaced
    pub stdout: String,
    /// Standard error, decoded the same way
    pub stderr: String,
}

/// `s` with every leading `"* "` removed (how `git branch` marks the current branch).
pub open spec fn strip_markers(s: Seq<char>) -> Seq<char>
    decreases s.len(),
{
    if s.len() >= 2 && s[0] == '*' && s[1] == ' ' {
        strip_markers(s.skip(2))
    } else {
        s
    }
}

fn strip_markers_exec(s: Vec<char>) -> (r: Vec<char>)
    ensures
        r@ == strip_markers(s@),
{
    let mut i: usize = 0;
    assert(s@.skip(0) =~= s@);
    while i < s.len() && s.len() - i >= 2 && s[i] == '*' && s[i + 1] == ' '
        invariant
            i <= s@.len(),
            strip_markers(s@) == strip_markers(s@.skip(i as int)),
        decreases s@.len() - i,
    {
        assert(s@.skip(i as int).skip(2) =~= s@.skip(i + 2));
        i = i + 2;
    }
    let r = chars_from(&s, i);
    r
}

/// Whether `branch` is one of the branches that `git branch --merged` listed in
/// `output`: some line, trimmed and without its `"* "` marker, equals it.
pub open spec fn branch_listed(output: Seq<char>, branch: Seq<char>) -> bool {
    exists|i: int|
        0 <= i < lines_of(output).len() && strip_markers(trim(#[trigger] lines_of(output)[i]))
            == branch
}

/// Decides [`branch_listed`].
pub fn is_branch_listed(output: &str, branch: &str) -> (r: bool)
    ensures
        r == branch_listed(output@, branch@),
{
    let chars = chars_of(output);
    let lines = split_lines(&chars);
    let b = chars_of(branch);
    let mut i: usize = 0;
    while i < lines.len()
        invariant
            i <= lines@.len(),
            lines@.len() == lines_of(output@).len(),
            b@ == branch@,
            forall|k: int| 0 <= k < lines@.len() ==> #[trigger] lines@[k]@ == lines_of(output@)[k],
            forall|k: int|
                0 <= k < i ==> strip_markers(trim(#[trigger] lines_of(output@)[k])) != branch@,
        decreases lines@.len() - i,
    {
        let t = trim_chars(&lines[i]);
        let m = strip_markers_exec(t);
        if chars_eq(&m, &b) {
            assert(lines@[i as int]@ == lines_of(output@)[i as int]);
            return true;
        }
        assert(lines@[i as int]@ == lines_of(output@)[i as int]);
        i = i + 1;
    }
    false
}

/// Whether `git status --porcelain` reported changes: its output holds more
/// than whitespace.
pub open spec fn reports_changes(output: Seq<char>) -> bool {
    trim(output).len() > 0
}

/// Decides [`reports_changes`].
pub fn has_changes(output: &str) -> (r: bool)
    ensures
        r == reports_changes(output@),
{
    let chars = chars_of(output);
    let t = trim_chars(&chars);
    t.len() > 0
}

/// The (ahead, behind) counts that `git rev-list --left-right --count main...branch`
/// printed: with exactly two whitespace-separated fields, the second is the
/// number of commits ahead and the first the number behind (a field that is
/// not a number counts as 0); any other output gives (0, 0).
pub open spec fn ahead_behind_spec(output: Seq<char>) -> (usize, usize) {
    let w = words(output);
    if w.len() == 2 {
        (
            match parse_usize_spec(w[1]) {
                Some(n) => n,
                None => 0,
            },
            match parse_usize_spec(w[0]) {
                Some(n) => n,
                None => 0,
            },
        )
    } else {
        (0, 0)
    }
}

/// Reads the counts of [`ahead_behind_spec`].
pub fn parse_ahead_behind(output: &str) -> (r: (usize, usize))
    ensures
        r == ahead_behind_spec(output@),
{
    let chars = chars_of(output);
    let parts = split_words(&chars);
    if parts.len() == 2 {
        let behind = match parse_usize(&parts[0]) {
            Some(n) => n,
            None => 0,
        };
        let ahead = match parse_usize(&parts[1]) {
            Some(n) => n,
            None => 0,
        };
        (ahead, behind)
    } else {
        (0, 0)
    }
}

} // verus!

verus! {

// ---------------------------------------------------------------------------
// Errors
// ---------------------------------------------------------------------------

/// Why a worktree operation failed.
#[derive(Debug, Clone, PartialEq)]
pub enum WorktreeError {
    /// A git command could not be run at all (`context` says which step)
    Exec { context: String, cause: String },
    /// `git rev-parse --show-toplevel` failed: not inside a repository
    NotARepository { stderr: String },
    /// The repository root has no final path component
    InvalidRepositoryPath,
    /// A git command ran and reported failure
    CommandFailed { command: String, stderr: String },
    /// The path chosen for a new worktree is already taken
    PathExists { path: String },
    /// No worktree is checked out for the branch
    NoWorktree { branch: String },
    /// Neither `main` nor `master` exists
    NoMainBranch,
}

impl WorktreeError {
    /// The text a user sees for this error.
    pub open spec fn message_spec(&self) -> Seq<char> {
        match self {
            WorktreeError::Exec { context, .. } => context@,
            WorktreeError::NotARepository { stderr } => "Not a git repository: "@ + stderr@,
            WorktreeError::InvalidRepositoryPath => "Invalid repository path"@,
            WorktreeError::CommandFailed { command, stderr } => command@ + " failed: "@
                + stderr@,
            WorktreeError::PathExists { path } => "Worktree path already exists: "@ + path@,
            WorktreeError::NoWorktree { branch } => "No worktree found for branch: "@ + branch@,
            WorktreeError::NoMainBranch => "No main or master branch found"@,
        }
    }

    /// The text a user sees for this error (see [`WorktreeError::message_spec`]).
    pub fn message(&self) -> (r: String)
        ensures
            r@ == self.message_spec(),
    {
        match self {
            WorktreeError::Exec { context, .. } => context.clone(),
            WorktreeError::NotARepository { stderr } => concat2("Not a git repository: ", stderr),
            WorktreeError::InvalidRepositoryPath => String::from_str("Invalid repository path"),
            WorktreeError::CommandFailed { command, stderr } => {
                let mut s = command.clone();
                s.append(" failed: ");
                s.append(stderr.as_str());
                s
            },
            WorktreeError::PathExists { path } => concat2("Worktree path already exists: ", path),
            WorktreeError::NoWorktree { branch } => concat2(
                "No worktree found for branch: ",
                branch,
            ),
            WorktreeError::NoMainBranch => String::from_str("No main or master branch found"),
        }
    }
}

/// `a` followed by `b`.
pub fn concat2(a: &str, b: &String) -> (r: String)
    ensures
        r@ == a@ + b@,
{
    let mut s = String::from_str(a);
    s.append(b.as_str());
    s
}

/// `s` without surrounding whitespace, as a string.
pub fn trimmed(s: &String) -> (r: String)
    ensures
        r@ == trim(s@),
{
    let c = chars_of(s.as_str());
    let t = trim_chars(&c);
    string_of(&t)
}

fn exec_error(context: &str, cause: String) -> (r: WorktreeError)
    ensures
        r matches WorktreeError::Exec { context: c, cause: e } && c@ == context@ && e == cause,
{
    WorktreeError::Exec { context: String::from_str(context), cause }
}

fn command_failed(command: &str, stderr: &String) -> (r: WorktreeError)
    ensures
        r matches WorktreeError::CommandFailed { command: c, stderr: e } && c@ == command@ && e@
            == trim(stderr@),
{
    WorktreeError::CommandFailed { command: String::from_str(command), stderr: trimmed(stderr) }
}

// ---------------------------------------------------------------------------
// Running git
// ---------------------------------------------------------------------------

/// Runs git commands. Implemented by the program with a real `git` process, and
/// by tests with scripted answers.
pub trait GitBackend {
    /// Runs git with `args`; `Err` when the command could not be started.
    fn execute(&self, args: &[&str]) -> Result<GitOutput, String>;

    /// Runs git with `args` in the directory `dir`.
    fn execute_in_dir(&self, dir: &str, args: &[&str]) -> Result<GitOutput, String>;
}

} // verus!

verus! {

// ---------------------------------------------------------------------------
// Decisions on git's answers
// ---------------------------------------------------------------------------

/// Warning returned when the safety checks before removing a worktree fail.
#[derive(Debug, Clone, PartialEq)]
pub enum RemoveWarning {
    /// Branch has not been merged to main
    NotMerged { branch: String },
    /// Worktree has uncommitted changes
    UncommittedChanges,
}

/// Status information for a worktree.
#[derive(Debug, Clone)]
pub struct WorktreeStatus {
    /// The worktree
    pub worktree: Worktree,
    /// Whether there are uncommitted changes
    pub is_dirty: bool,
    /// Commits ahead of main
    pub ahead: usize,
    /// Commits behind main
    pub behind: usize,
}

/// The repository root and name read from `git rev-parse --show-toplevel`: the
/// root is the trimmed output and the name its final path component.
pub fn repo_from_output(out: Result<GitOutput, String>) -> (r: Result<(String, String), WorktreeError>)
    ensures
        (match out {
            Err(e) => r matches Err(WorktreeError::Exec { context, cause }) && context@
                == "Failed to execute git"@ && cause == e,
            Ok(o) => if !o.success {
                r matches Err(WorktreeError::NotARepository { stderr }) && stderr@ == trim(
                    o.stderr@,
                )
            } else {
                match path_file_name(trim(o.stdout@)) {
                    None => r matches Err(WorktreeError::InvalidRepositoryPath),
                    Some(n) => r matches Ok((root, name)) && root@ == trim(o.stdout@) && name@
                        == n,
                }
            },
        }),
{
    match out {
        Err(e) => Err(exec_error("Failed to execute git", e)),
        Ok(o) => {
            if !o.success {
                return Err(WorktreeError::NotARepository { stderr: trimmed(&o.stderr) });
            }
            let root = trimmed(&o.stdout);
            match file_name_of(root.as_str()) {
                None => Err(WorktreeError::InvalidRepositoryPath),
                Some(name) => Ok((root, name)),
            }
        },
    }
}

/// What `git worktree list --porcelain` answered means: the worktrees it
/// listed, or the error.
pub open spec fn list_answer(out: Result<GitOutput, String>, r: Result<Vec<Worktree>, WorktreeError>) -> bool {
    match out {
        Err(e) => r matches Err(WorktreeError::Exec { context, cause }) && context@
            == "Failed to execute git worktree list"@ && cause == e,
        Ok(o) => if !o.success {
            r matches Err(WorktreeError::CommandFailed { command, stderr }) && command@
                == "git worktree list"@ && stderr@ == trim(o.stderr@)
        } else {
            r matches Ok(v) && worktree_views(v@) == worktree_list_spec(o.stdout@)
        },
    }
}

/// The worktrees read from `git worktree list --porcelain`.
pub fn list_from_output(out: Result<GitOutput, String>) -> (r: Result<Vec<Worktree>, WorktreeError>)
    ensures
        list_answer(out, r),
{
    match out {
        Err(e) => Err(exec_error("Failed to execute git worktree list", e)),
        Ok(o) => {
            if !o.success {
                Err(command_failed("git worktree list", &o.stderr))
            } else {
                Ok(parse_worktree_list(o.stdout.as_str()))
            }
        },
    }
}

/// Whether the worktree is dirty, read from `git status --porcelain`.
pub fn dirty_from_output(out: Result<GitOutput, String>) -> (r: Result<bool, WorktreeError>)
    ensures
        (match out {
            Err(e) => r matches Err(WorktreeError::Exec { context, cause }) && context@
                == "Failed to check worktree status"@ && cause == e,
            Ok(o) => if !o.success {
                r matches Err(WorktreeError::CommandFailed { command, stderr }) && command@
                    == "git status"@ && stderr@ == trim(o.stderr@)
            } else {
                r == Ok::<bool, WorktreeError>(reports_changes(o.stdout@))
            },
        }),
{
    match out {
        Err(e) => Err(exec_error("Failed to check worktree status", e)),
        Ok(o) => {
            if !o.success {
                Err(command_failed("git status", &o.stderr))
            } else {
                Ok(has_changes(o.stdout.as_str()))
            }
        },
    }
}

/// What `git rev-list --left-right --count` answered means: the counts it
/// printed, (0, 0) when it failed, or the error when it could not run.
pub open spec fn ahead_behind_answer(out: Result<GitOutput, String>, r: Result<(usize, usize), WorktreeError>) -> bool {
    match out {
        Err(e) => r matches Err(WorktreeError::Exec { context, cause }) && context@
            == "Failed to get ahead/behind count"@ && cause == e,
        Ok(o) => if !o.success {
            r == Ok::<(usize, usize), WorktreeError>((0, 0))
        } else {
            r == Ok::<(usize, usize), WorktreeError>(ahead_behind_spec(o.stdout@))
        },
    }
}

/// The (ahead, behind) counts read from `git rev-list --left-right --count`:
/// a failed command counts as (0, 0).
pub fn ahead_behind_from_output(out: Result<GitOutput, String>) -> (r: Result<
    (usize, usize),
    WorktreeError,
>)
    ensures
        ahead_behind_answer(out, r),
{
    match out {
        Err(e) => Err(exec_error("Failed to get ahead/behind count", e)),
        Ok(o) => {
            if !o.success {
                Ok((0, 0))
            } else {
                Ok(parse_ahead_behind(o.stdout.as_str()))
            }
        },
    }
}

/// The path of the first listed worktree on `branch`.
pub open spec fn find_by_branch(ws: Seq<WorktreeView>, branch: Seq<char>) -> Option<Seq<char>>
    decreases ws.len(),
{
    if ws.len() == 0 {
        None
    } else if ws[0].branch == Some(branch) {
        Some(ws[0].path)
    } else {
        find_by_branch(ws.drop_first(), branch)
    }
}

/// The path of the first listed worktree whose path is `expected`.
pub open spec fn find_by_path(ws: Seq<WorktreeView>, expected: Seq<char>) -> Option<Seq<char>>
    decreases ws.len(),
{
    if ws.len() == 0 {
        None
    } else if path_eq(ws[0].path, expected) {
        Some(ws[0].path)
    } else {
        find_by_path(ws.drop_first(), expected)
    }
}

/// The worktree found for `branch` is the first listed on that branch; when
/// none is found, no listed worktree is on it.
pub proof fn lemma_find_by_branch_first(ws: Seq<WorktreeView>, branch: Seq<char>)
    ensures
        find_by_branch(ws, branch) matches Some(p) ==> exists|i: int|
            0 <= i < ws.len() && (#[trigger] ws[i]).branch == Some(branch) && ws[i].path == p
                && forall|j: int| 0 <= j < i ==> (#[trigger] ws[j]).branch != Some(branch),
        find_by_branch(ws, branch) is None ==> forall|j: int|
            0 <= j < ws.len() ==> (#[trigger] ws[j]).branch != Some(branch),
    decreases ws.len(),
{
    if ws.len() > 0 && ws[0].branch != Some(branch) {
        let rest = ws.drop_first();
        lemma_find_by_branch_first(rest, branch);
        if find_by_branch(ws, branch) is Some {
            let i = choose|i: int|
                0 <= i < rest.len() && (#[trigger] rest[i]).branch == Some(branch) && rest[i].path
                    == find_by_branch(ws, branch)->0 && forall|j: int|
                    0 <= j < i ==> (#[trigger] rest[j]).branch != Some(branch);
            assert(ws[i + 1] == rest[i]);
            assert forall|j: int| 0 <= j < i + 1 implies (#[trigger] ws[j]).branch != Some(branch) by {
                if j > 0 {
                    assert(ws[j] == rest[j - 1]);
                }
            }
        } else {
            assert forall|j: int| 0 <= j < ws.len() implies (#[trigger] ws[j]).branch != Some(branch) by {
                if j > 0 {
                    assert(ws[j] == rest[j - 1]);
                }
            }
        }
    }
}

/// The worktree found at `expected` is the first listed at the same path;
/// when none is found, no listed worktree is at it.
pub proof fn lemma_find_by_path_first(ws: Seq<WorktreeView>, expected: Seq<char>)
    ensures
        find_by_path(ws, expected) matches Some(p) ==> exists|i: int|
            0 <= i < ws.len() && path_eq((#[trigger] ws[i]).path, expected) && ws[i].path == p
                && forall|j: int| 0 <= j < i ==> !path_eq((#[trigger] ws[j]).path, expected),
        find_by_path(ws, expected) is None ==> forall|j: int|
            0 <= j < ws.len() ==> !path_eq((#[trigger] ws[j]).path, expected),
    decreases ws.len(),
{
    if ws.len() > 0 && !path_eq(ws[0].path, expected) {
        let rest = ws.drop_first();
        lemma_find_by_path_first(rest, expected);
        if find_by_path(ws, expected) is Some {
            let i = choose|i: int|
                0 <= i < rest.len() && path_eq((#[trigger] rest[i]).path, expected) && rest[i].path
                    == find_by_path(ws, expected)->0 && forall|j: int|
                    0 <= j < i ==> !path_eq((#[trigger] rest[j]).path, expected);
            assert(ws[i + 1] == rest[i]);
            assert forall|j: int| 0 <= j < i + 1 implies !path_eq((#[trigger] ws[j]).path, expected) by {
                if j > 0 {
                    assert(ws[j] == rest[j - 1]);
                }
            }
        } else {
            assert forall|j: int| 0 <= j < ws.len() implies !path_eq((#[trigger] ws[j]).path, expected) by {
                if j > 0 {
                    assert(ws[j] == rest[j - 1]);
                }
            }
        }
    }
}

/// Where to switch for `branch`: the first worktree on that branch, else the
/// first at the path that the naming convention gives.
pub open spec fn switch_target(ws: Seq<WorktreeView>, branch: Seq<char>, expected: Seq<char>) -> Option<
    Seq<char>,
> {
    match find_by_branch(ws, branch) {
        Some(p) => Some(p),
        None => find_by_path(ws, expected),
    }
}

/// Finds the worktree to switch to (see [`switch_target`]).
pub fn find_worktree_path(worktrees: &Vec<Worktree>, branch: &str, expected: &str) -> (r: Option<
    String,
>)
    ensures
        opt_view(r) == switch_target(worktree_views(worktrees@), branch@, expected@),
{
    let ghost ws = worktree_views(worktrees@);
    let mut i: usize = 0;
    assert(ws.skip(0) =~= ws);
    while i < worktrees.len()
        invariant
            i <= worktrees@.len(),
            ws == worktree_views(worktrees@),
            find_by_branch(ws, branch@) == find_by_branch(ws.skip(i as int), branch@),
        decreases worktrees@.len() - i,
    {
        assert(ws.skip(i as int).drop_first() =~= ws.skip(i + 1));
        assert(ws.skip(i as int)[0] == worktrees@[i as int]@);
        let matches = match &worktrees[i].branch {
            Some(b) => b.eq(&String::from_str(branch)),
            None => false,
        };
        if matches {
            return Some(worktrees[i].path.clone());
        }
        i = i + 1;
    }
    assert(ws.skip(worktrees@.len() as int) =~= Seq::<WorktreeView>::empty());
    let mut j: usize = 0;
    while j < worktrees.len()
        invariant
            j <= worktrees@.len(),
            ws == worktree_views(worktrees@),
            find_by_branch(ws, branch@) is None,
            find_by_path(ws, expected@) == find_by_path(ws.skip(j as int), expected@),
        decreases worktrees@.len() - j,
    {
        assert(ws.skip(j as int).drop_first() =~= ws.skip(j + 1));
        assert(ws.skip(j as int)[0] == worktrees@[j as int]@);
        if same_path(worktrees[j].path.as_str(), expected) {
            return Some(worktrees[j].path.clone());
        }
        j = j + 1;
    }
    assert(ws.skip(worktrees@.len() as int) =~= Seq::<WorktreeView>::empty());
    None
}

/// The warnings for a branch that is merged or not and a worktree that is dirty
/// or not: `NotMerged` first when unmerged, then `UncommittedChanges` when dirty.
pub open spec fn warnings_for(ws: Seq<RemoveWarning>, branch: Seq<char>, merged: bool, dirty: bool) -> bool {
    &&& ws.len() == (if merged { 0int } else { 1int }) + (if dirty { 1int } else { 0int })
    &&& !merged ==> (ws[0] matches RemoveWarning::NotMerged { branch: b } && b@ == branch)
    &&& dirty ==> (ws.last() matches RemoveWarning::UncommittedChanges)
}

/// The warnings for some outcome of the two safety checks.
pub open spec fn warning_list(ws: Seq<RemoveWarning>, branch: Seq<char>) -> bool {
    ||| warnings_for(ws, branch, true, false)
    ||| warnings_for(ws, branch, true, true)
    ||| warnings_for(ws, branch, false, false)
    ||| warnings_for(ws, branch, false, true)
}

/// The warnings that stand against removing the worktree of `branch`.
pub fn removal_warnings(branch: &str, merged: bool, dirty: bool) -> (r: Vec<RemoveWarning>)
    ensures
        warnings_for(r@, branch@, merged, dirty),
{
    let mut warnings: Vec<RemoveWarning> = Vec::new();
    if !merged {
        warnings.push(RemoveWarning::NotMerged { branch: String::from_str(branch) });
    }
    if dirty {
        warnings.push(RemoveWarning::UncommittedChanges);
    }
    warnings
}

/// The prompt given to the assistant for a merge commit message.
pub open spec fn merge_prompt_spec(branch: Seq<char>, main_branch: Seq<char>, diff: Seq<char>) -> Seq<
    char,
> {
    "Generate a concise git merge commit message for merging branch '"@ + branch + "' into '"@
        + main_branch
        + "'. The message should summarize the changes. Here's the diff:\n\n"@ + diff
}

/// The prompt asking the assistant to rebase `branch`, checked out at `path`,
/// onto the main branch and then merge it.
pub open spec fn rebase_prompt_spec(branch: Seq<char>, path: Seq<char>) -> Seq<char> {
    "Rebase the branch '"@ + branch + "' in the worktree at "@ + path
        + " onto the main branch, resolve any conflicts, and then merge it into the main branch."@
}

/// Builds the prompt of [`rebase_prompt_spec`].
pub fn rebase_prompt(branch: &str, path: &str) -> (r: String)
    ensures
        r@ == rebase_prompt_spec(branch@, path@),
{
    let mut s = String::from_str("Rebase the branch '");
    s.append(branch);
    s.append("' in the worktree at ");
    s.append(path);
    s.append(" onto the main branch, resolve any conflicts, and then merge it into the main branch.");
    s
}

/// Builds the prompt that asks the assistant for a merge commit message.
pub fn merge_message_prompt(branch: &str, main_branch: &str, diff: &str) -> (r: String)
    ensures
        r@ == merge_prompt_spec(branch@, main_branch@, diff@),
{
    let mut s = String::from_str(
        "Generate a concise git merge commit message for merging branch '",
    );
    s.append(branch);
    s.append("' into '");
    s.append(main_branch);
    s.append("'. The message should summarize the changes. Here's the diff:\n\n");
    s.append(diff);
    s
}

} // verus!

verus! {

// ---------------------------------------------------------------------------
// The git commands the manager runs
// ---------------------------------------------------------------------------

/// The arguments of a git command, as strings.
pub open spec fn strs_view(a: Seq<&str>) -> Seq<Seq<char>> {
    a.map_values(|s: &str| s@)
}

/// `git rev-parse --show-toplevel`: the root of the repository.
pub fn toplevel_args() -> (r: Vec<&'static str>)
    ensures
        strs_view(r@) == seq!["rev-parse"@, "--show-toplevel"@],
{
    let mut v: Vec<&'static str> = Vec::new();
    v.push("rev-parse");
    v.push("--show-toplevel");
    assert(strs_view(v@) =~= seq!["rev-parse"@, "--show-toplevel"@]);
    v
}

/// `git worktree list --porcelain`: the worktrees, one block each.
pub fn list_args() -> (r: Vec<&'static str>)
    ensures
        strs_view(r@) == seq!["worktree"@, "list"@, "--porcelain"@],
{
    let mut v: Vec<&'static str> = Vec::new();
    v.push("worktree");
    v.push("list");
    v.push("--porcelain");
    assert(strs_view(v@) =~= seq!["worktree"@, "list"@, "--porcelain"@]);
    v
}

/// `git worktree add -b <branch> <path>`: a new branch checked out at `path`.
pub fn add_args<'a>(branch: &'a str, path: &'a str) -> (r: Vec<&'a str>)
    ensures
        strs_view(r@) == seq!["worktree"@, "add"@, "-b"@, branch@, path@],
{
    let mut v: Vec<&'a str> = Vec::new();
    v.push("worktree");
    v.push("add");
    v.push("-b");
    v.push(branch);
    v.push(path);
    assert(strs_view(v@) =~= seq!["worktree"@, "add"@, "-b"@, branch@, path@]);
    v
}

/// `git branch --merged <base>`: the branches merged into `base`.
pub fn merged_args<'a>(base: &'a str) -> (r: Vec<&'a str>)
    ensures
        strs_view(r@) == seq!["branch"@, "--merged"@, base@],
{
    let mut v: Vec<&'a str> = Vec::new();
    v.push("branch");
    v.push("--merged");
    v.push(base);
    assert(strs_view(v@) =~= seq!["branch"@, "--merged"@, base@]);
    v
}

/// `git status --porcelain`: the uncommitted changes, one per line.
pub fn status_args() -> (r: Vec<&'static str>)
    ensures
        strs_view(r@) == seq!["status"@, "--porcelain"@],
{
    let mut v: Vec<&'static str> = Vec::new();
    v.push("status");
    v.push("--porcelain");
    assert(strs_view(v@) =~= seq!["status"@, "--porcelain"@]);
    v
}

/// `git worktree remove [--force] <path>`, with `--force` exactly when `force`.
pub fn remove_args<'a>(path: &'a str, force: bool) -> (r: Vec<&'a str>)
    ensures
        strs_view(r@) == seq!["worktree"@, "remove"@] + (if force {
            seq!["--force"@]
        } else {
            Seq::<Seq<char>>::empty()
        }) + seq![path@],
{
    let mut v: Vec<&'a str> = Vec::new();
    v.push("worktree");
    v.push("remove");
    if force {
        v.push("--force");
    }
    v.push(path);
    assert(strs_view(v@) =~= seq!["worktree"@, "remove"@] + (if force {
        seq!["--force"@]
    } else {
        Seq::<Seq<char>>::empty()
    }) + seq![path@]);
    v
}

/// `git diff <range>`.
pub fn diff_args<'a>(range: &'a str) -> (r: Vec<&'a str>)
    ensures
        strs_view(r@) == seq!["diff"@, range@],
{
    let mut v: Vec<&'a str> = Vec::new();
    v.push("diff");
    v.push(range);
    assert(strs_view(v@) =~= seq!["diff"@, range@]);
    v
}

/// `git checkout <branch>`.
pub fn checkout_args<'a>(branch: &'a str) -> (r: Vec<&'a str>)
    ensures
        strs_view(r@) == seq!["checkout"@, branch@],
{
    let mut v: Vec<&'a str> = Vec::new();
    v.push("checkout");
    v.push(branch);
    assert(strs_view(v@) =~= seq!["checkout"@, branch@]);
    v
}

/// `git merge <branch>`, followed by `-m <message>` when a message is given.
pub fn merge_args<'a>(branch: &'a str, message: Option<&'a str>) -> (r: Vec<&'a str>)
    ensures
        strs_view(r@) == seq!["merge"@, branch@] + match message {
            Some(m) => seq!["-m"@, m@],
            None => Seq::<Seq<char>>::empty(),
        },
{
    let mut v: Vec<&'a str> = Vec::new();
    v.push("merge");
    v.push(branch);
    match message {
        Some(m) => {
            v.push("-m");
            v.push(m);
        },
        None => {},
    }
    assert(strs_view(v@) =~= seq!["merge"@, branch@] + match message {
        Some(m) => seq!["-m"@, m@],
        None => Seq::<Seq<char>>::empty(),
    });
    v
}

/// `git rev-parse --verify <name>`: whether the branch `name` exists.
pub fn verify_args<'a>(name: &'a str) -> (r: Vec<&'a str>)
    ensures
        strs_view(r@) == seq!["rev-parse"@, "--verify"@, name@],
{
    let mut v: Vec<&'a str> = Vec::new();
    v.push("rev-parse");
    v.push("--verify");
    v.push(name);
    assert(strs_view(v@) =~= seq!["rev-parse"@, "--verify"@, name@]);
    v
}

/// `git rev-list --left-right --count <range>`: the commits on either side.
pub fn rev_list_args<'a>(range: &'a str) -> (r: Vec<&'a str>)
    ensures
        strs_view(r@) == seq!["rev-list"@, "--left-right"@, "--count"@, range@],
{
    let mut v: Vec<&'a str> = Vec::new();
    v.push("rev-list");
    v.push("--left-right");
    v.push("--count");
    v.push(range);
    assert(strs_view(v@) =~= seq!["rev-list"@, "--left-right"@, "--count"@, range@]);
    v
}

} // verus!

verus! {

// ---------------------------------------------------------------------------
// The manager
// ---------------------------------------------------------------------------

/// Manages the worktrees of one repository, running git through `G`.
pub struct WorktreeManager<G: GitBackend> {
    /// Root path of the main repository
    repo_root: String,
    /// Name of the repository (last component of repo_root)
    repo_name: String,
    /// Git backend for command execution
    git: G,
}

impl<G: GitBackend> WorktreeManager<G> {
    /// The repository root.
    pub closed spec fn root(&self) -> Seq<char> {
        self.repo_root@
    }

    /// The repository name.
    pub closed spec fn name(&self) -> Seq<char> {
        self.repo_name@
    }

    /// The git backend in use.
    pub closed spec fn backend(&self) -> G {
        self.git
    }

    /// Creates a manager for the repository that `git rev-parse --show-toplevel`
    /// names; the repository name is the final component of its root.
    pub fn with_backend(git: G) -> (r: Result<Self, WorktreeError>)
        ensures
            r matches Ok(m) ==> m.backend() == git && path_file_name(m.root()) == Some(m.name())
                && exists|out: Seq<char>| m.root() == trim(out),
            r matches Err(e) ==> (e matches WorktreeError::Exec { context, .. } && context@
                == "Failed to execute git"@) || (e is NotARepository) || (e is InvalidRepositoryPath),
    {
        let args = toplevel_args();
        let out = git.execute(args.as_slice());
        match repo_from_output(out) {
            Ok((repo_root, repo_name)) => Ok(WorktreeManager { repo_root, repo_name, git }),
            Err(e) => Err(e),
        }
    }

    /// The repository root path.
    pub fn repo_root(&self) -> (r: &str)
        ensures
            r@ == self.root(),
    {
        self.repo_root.as_str()
    }

    /// The repository name.
    pub fn repo_name(&self) -> (r: &str)
        ensures
            r@ == self.name(),
    {
        self.repo_name.as_str()
    }

    /// The path for a worktree of `branch`: `<parent of root>/<name>.<branch>`.
    pub fn resolve_worktree_path(&self, branch: &str) -> (r: String)
        ensures
            r@ == worktree_path_spec(self.root(), self.name(), branch@),
    {
        let parent = match parent_of(self.repo_root.as_str()) {
            Some(p) => p,
            None => String::from_str("/"),
        };
        let mut leaf = self.repo_name.clone();
        leaf.append(".");
        leaf.append(branch);
        join_path(parent.as_str(), leaf.as_str())
    }

    /// Lists the worktrees of the repository.
    pub fn list(&self) -> (r: Result<Vec<Worktree>, WorktreeError>)
        ensures
            exists|out: Result<GitOutput, String>| #[trigger] list_answer(out, r),
            r matches Ok(v) ==> exists|out: Seq<char>|
                worktree_views(v@) == #[trigger] worktree_list_spec(out),
            r matches Err(e) ==> (e matches WorktreeError::Exec { .. }) || (
            e matches WorktreeError::CommandFailed { .. }),
    {
        let args = list_args();
        let out = self.git.execute(args.as_slice());
        let r = list_from_output(out);
        assert(list_answer(out, r));
        r
    }

    /// Creates a worktree with a new branch at the resolved path; fails when
    /// that path already exists. The prompt is not used here.
    pub fn create(&self, branch: &str, _prompt: Option<&str>) -> (r: Result<
        Worktree,
        WorktreeError,
    >)
        ensures
            r matches Ok(w) ==> w@ == (WorktreeView {
                path: worktree_path_spec(self.root(), self.name(), branch@),
                branch: Some(branch@),
                is_main: false,
                is_bare: false,
            }),
            r matches Err(WorktreeError::PathExists { path }) ==> path@ == worktree_path_spec(
                self.root(),
                self.name(),
                branch@,
            ),
            !(r matches Err(WorktreeError::PathExists { .. })) ==> exists|
                out: Result<GitOutput, String>,
            |
                #[trigger] added_answer(
                    out,
                    worktree_path_spec(self.root(), self.name(), branch@),
                    branch@,
                    r,
                ),
    {
        let path = self.resolve_worktree_path(branch);
        if path_exists(path.as_str()) {
            return Err(WorktreeError::PathExists { path });
        }
        let out = {
            let args = add_args(branch, path.as_str());
            self.git.execute(args.as_slice())
        };
        let ghost p = path@;
        let r = added_worktree(out, path, branch);
        assert(added_answer(out, p, branch@, r));
        r
    }

    /// The path to switch to for `branch`: the worktree on that branch, else the
    /// one at the resolved path; an error when there is none.
    pub fn switch(&self, branch: &str) -> (r: Result<String, WorktreeError>)
        ensures
            r matches Ok(p) ==> exists|out: Seq<char>|
                switch_target(
                    worktree_list_spec(out),
                    branch@,
                    worktree_path_spec(self.root(), self.name(), branch@),
                ) == Some(p@),
            r matches Err(WorktreeError::NoWorktree { branch: b }) ==> b@ == branch@ && exists|
                out: Seq<char>,
            |
                switch_target(
                    worktree_list_spec(out),
                    branch@,
                    worktree_path_spec(self.root(), self.name(), branch@),
                ) is None,
            r matches Err(e) ==> (e matches WorktreeError::Exec { context, .. } && context@
                == "Failed to execute git worktree list"@) || (
            e matches WorktreeError::CommandFailed { command, .. } && command@
                == "git worktree list"@) || (e is NoWorktree),
    {
        let worktrees = match self.list() {
            Ok(v) => v,
            Err(e) => {
                return Err(e);
            },
        };
        let expected = self.resolve_worktree_path(branch);
        match find_worktree_path(&worktrees, branch, expected.as_str()) {
            Some(p) => Ok(p),
            None => Err(WorktreeError::NoWorktree { branch: String::from_str(branch) }),
        }
    }

    /// Whether `branch` is merged into `main` (or `master` when `main` cannot be
    /// asked): listed by `git branch --merged`.
    fn is_branch_merged(&self, branch: &str) -> (r: Result<bool, WorktreeError>)
        ensures
            r matches Ok(true) ==> exists|out: Seq<char>| branch_listed(out, branch@),
            r matches Err(e) ==> e matches WorktreeError::Exec { context, .. } && context@
                == "Failed to check merged branches"@,
    {
        let on_main = self.git.execute(merged_args("main").as_slice());
        match merged_from_main(on_main, branch) {
            Some(r) => r,
            None => merged_from_master(
                self.git.execute(merged_args("master").as_slice()),
                branch,
            ),
        }
    }

    /// Whether the worktree at `path` has uncommitted changes.
    fn has_uncommitted_changes(&self, path: &str) -> (r: Result<bool, WorktreeError>)
        ensures
            r matches Ok(true) ==> exists|out: Seq<char>| reports_changes(out),
            r matches Err(e) ==> (e matches WorktreeError::Exec { context, .. } && context@
                == "Failed to check worktree status"@) || (e matches WorktreeError::CommandFailed {
                command,
                ..
            } && command@ == "git status"@),
    {
        let args = status_args();
        let out = self.git.execute_in_dir(path, args.as_slice());
        dirty_from_output(out)
    }

    /// Removes the worktree of `branch` after the safety checks. The warnings
    /// found are returned; unless `force` is set, any warning stops the removal.
    pub fn remove(&self, branch: &str, force: bool) -> (r: Result<Vec<RemoveWarning>, WorktreeError>)
        ensures
            r matches Ok(ws) ==> warning_list(ws@, branch@),
            r matches Err(e) ==> (e is Exec) || (e is CommandFailed) || (e matches WorktreeError::NoWorktree {
                branch: b,
            } && b@ == branch@),
            (r is Ok || (r matches Err(e) && removal_step_error(e))) ==> exists|
                merged: bool,
                dirty: bool,
                w: Seq<RemoveWarning>,
                out: Result<GitOutput, String>,
            |
                #![trigger warnings_for(w, branch@, merged, dirty), removal_decided(w, force, out, r)]
                warnings_for(w, branch@, merged, dirty) && removal_decided(w, force, out, r),
    {
        proof {
            reveal_strlit("Failed to execute git worktree remove");
            reveal_strlit("git worktree remove");
        }
        let path = match self.switch(branch) {
            Ok(p) => p,
            Err(e) => {
                proof {
                    reveal_strlit("Failed to execute git worktree list");
                    reveal_strlit("git worktree list");
                    assert("Failed to execute git worktree list"@.len() == 35);
                    assert("Failed to execute git worktree remove"@.len() == 37);
                    assert("git worktree list"@.len() == 17);
                    assert("git worktree remove"@.len() == 19);
                    assert(!removal_step_error(e));
                }
                return Err(e);
            },
        };
        let merged = match self.is_branch_merged(branch) {
            Ok(m) => m,
            Err(e) => {
                proof {
                    reveal_strlit("Failed to check merged branches");
                    assert("Failed to check merged branches"@.len() == 31);
                    assert("Failed to execute git worktree remove"@.len() == 37);
                    assert(!removal_step_error(e));
                }
                return Err(e);
            },
        };
        let dirty = match self.has_uncommitted_changes(path.as_str()) {
            Ok(d) => d,
            Err(e) => {
                proof {
                    reveal_strlit("Failed to check worktree status");
                    reveal_strlit("git status");
                    assert("Failed to check worktree status"@.len() == 31);
                    assert("Failed to execute git worktree remove"@.len() == 37);
                    assert("git status"@.len() == 10);
                    assert("git worktree remove"@.len() == 19);
                    assert(!removal_step_error(e));
                }
                return Err(e);
            },
        };
        let warnings = removal_warnings(branch, merged, dirty);
        let ghost w = warnings@;
        assert(warnings_for(w, branch@, merged, dirty));
        if !should_remove(&warnings, force) {
            let ghost out: Result<GitOutput, String> = arbitrary();
            assert(removal_decided(w, force, out, Ok::<Vec<RemoveWarning>, WorktreeError>(warnings)));
            return Ok(warnings);
        }
        let args = remove_args(path.as_str(), force);
        let out = self.git.execute(args.as_slice());
        let r = removal_outcome(out, warnings);
        assert(removal_decided(w, force, out, r));
        r
    }

    /// The diff between the main branch and `branch` (`git diff main...branch`).
    pub fn get_branch_diff(&self, branch: &str) -> (r: Result<String, WorktreeError>)
        ensures
            r matches Err(e) ==> (e matches WorktreeError::NoMainBranch) || (
            e matches WorktreeError::Exec { context, .. } && (context@ == "Failed to verify branch"@
                || context@ == "Failed to get diff"@)),
            !(r matches Err(e) && main_lookup_error(e)) ==> exists|
                out: Result<GitOutput, String>,
            | #[trigger] diff_answer(out, r),
    {
        let main_branch = match self.get_main_branch() {
            Ok(m) => m,
            Err(e) => {
                return Err(e);
            },
        };
        let range = branch_range(main_branch.as_str(), branch);
        let out = self.git.execute(diff_args(range.as_str()).as_slice());
        let r = diff_from_output(out);
        assert(diff_answer(out, r));
        r
    }

    /// Merges `branch` into the main branch, with `commit_message` when given.
    pub fn merge(&self, branch: &str, commit_message: Option<&str>) -> (r: Result<(), WorktreeError>)
        ensures
            r matches Err(e) ==> (e matches WorktreeError::NoMainBranch) || (
            e matches WorktreeError::Exec { context, .. } && (context@ == "Failed to verify branch"@
                || context@ == "Failed to checkout main branch"@ || context@ == "Failed to merge"@))
                || (e matches WorktreeError::CommandFailed { command, .. } && (command@
                == "git checkout"@ || command@ == "git merge"@)),
            !(r matches Err(e) && main_lookup_error(e)) ==> exists|
                checkout: Result<GitOutput, String>,
                merged: Result<GitOutput, String>,
            |
                #[trigger] merge_steps(checkout, merged, r),
    {
        let main_branch = match self.get_main_branch() {
            Ok(m) => m,
            Err(e) => {
                return Err(e);
            },
        };
        let checkout = self.git.execute(checkout_args(main_branch.as_str()).as_slice());
        let ready = step_outcome(checkout, "Failed to checkout main branch", "git checkout");
        match ready {
            Err(e) => {
                let ghost merged: Result<GitOutput, String> = arbitrary();
                assert(merge_steps(checkout, merged, Err::<(), WorktreeError>(e)));
                return Err(e);
            },
            Ok(()) => {},
        }
        let out = self.git.execute(merge_args(branch, commit_message).as_slice());
        let r = step_outcome(out, "Failed to merge", "git merge");
        assert(merge_steps(checkout, out, r));
        r
    }

    /// The main branch: `main` if git can verify it, else `master`.
    fn get_main_branch(&self) -> (r: Result<String, WorktreeError>)
        ensures
            r matches Ok(m) ==> m@ == "main"@ || m@ == "master"@,
            r matches Err(e) ==> (e matches WorktreeError::NoMainBranch) || (
            e matches WorktreeError::Exec { context, .. } && context@ == "Failed to verify branch"@),
    {
        match main_from_main(self.git.execute(verify_args("main").as_slice())) {
            Some(r) => r,
            None => main_from_master(self.git.execute(verify_args("master").as_slice())),
        }
    }

    /// How many commits `branch` is ahead of and behind the main branch; (0, 0)
    /// for the main branch itself and when git cannot compare them.
    pub fn get_ahead_behind(&self, branch: &str) -> (r: Result<(usize, usize), WorktreeError>)
        ensures
            r matches Ok(ab) ==> ab == (0usize, 0usize) || exists|out: Seq<char>|
                ab == ahead_behind_spec(out),
            r matches Err(e) ==> (e is NoMainBranch) || (e matches WorktreeError::Exec { context, .. }
                && (context@ == "Failed to verify branch"@ || context@
                == "Failed to get ahead/behind count"@)),
            !(r matches Err(e) && main_lookup_error(e)) ==> exists|main_branch: Seq<char>|
                #![trigger counts_of(main_branch, branch@, r)]
                (main_branch == "main"@ || main_branch == "master"@) && counts_of(
                    main_branch,
                    branch@,
                    r,
                ),
    {
        let main_branch = match self.get_main_branch() {
            Ok(m) => m,
            Err(e) => {
                return Err(e);
            },
        };
        if !counts_needed(main_branch.as_str(), branch) {
            assert(counts_of(main_branch@, branch@, Ok::<(usize, usize), WorktreeError>((0, 0))));
            return Ok((0, 0));
        }
        let range = branch_range(main_branch.as_str(), branch);
        let out = self.git.execute(rev_list_args(range.as_str()).as_slice());
        let r = ahead_behind_from_output(out);
        assert(ahead_behind_answer(out, r));
        assert(counts_of(main_branch@, branch@, r));
        r
    }

    /// Lists all worktrees with their status: a status that cannot be read counts
    /// as clean and level with main.
    pub fn list_with_status(&self) -> (r: Result<Vec<WorktreeStatus>, WorktreeError>)
        ensures
            r matches Ok(v) ==> exists|out: Seq<char>|
                #![trigger worktree_list_spec(out)]
                {
                    let ws = worktree_list_spec(out);
                    &&& v@.len() == ws.len()
                    &&& forall|i: int|
                        0 <= i < v@.len() ==> {
                            &&& (#[trigger] v@[i]).worktree@ == ws[i]
                            &&& v@[i].worktree.branch is None ==> v@[i].ahead == 0
                                && v@[i].behind == 0
                            &&& status_from_answers(v@[i])
                        }
                },
            r matches Err(e) ==> (e is Exec) || (e is CommandFailed),
    {
        let mut worktrees = match self.list() {
            Ok(v) => v,
            Err(e) => {
                return Err(e);
            },
        };
        let ghost listed = worktree_views(worktrees@);
        let ghost n = worktrees@.len();
        let mut statuses: Vec<WorktreeStatus> = Vec::new();
        while worktrees.len() > 0
            invariant
                statuses@.len() + worktrees@.len() == n,
                n == listed.len(),
                forall|k: int| 0 <= k < worktrees@.len() ==> #[trigger] worktrees@[k]@ == listed[k + statuses@.len()],
                forall|i: int|
                    0 <= i < statuses@.len() ==> {
                        &&& (#[trigger] statuses@[i]).worktree@ == listed[i]
                        &&& statuses@[i].worktree.branch is None ==> statuses@[i].ahead == 0
                            && statuses@[i].behind == 0
                        &&& status_from_answers(statuses@[i])
                    },
            decreases worktrees@.len(),
        {
            let wt = worktrees.remove(0);
            assert(wt@ == listed[statuses@.len() as int]);
            let dirty = self.has_uncommitted_changes(wt.path.as_str());
            let ahead_behind = match &wt.branch {
                Some(b) => self.get_ahead_behind(b.as_str()),
                None => Ok((0, 0)),
            };
            statuses.push(worktree_status(wt, dirty, ahead_behind));
        }
        Ok(statuses)
    }
}

/// Whether status `s` is what some answers of git give: dirty only when `git
/// status` reported changes, and ahead/behind as some `git rev-list` count
/// printed them, or (0, 0).
pub open spec fn status_from_answers(s: WorktreeStatus) -> bool {
    &&& s.is_dirty ==> exists|out: Seq<char>| reports_changes(out)
    &&& (s.ahead, s.behind) == (0usize, 0usize) || exists|out: Seq<char>|
        (s.ahead, s.behind) == ahead_behind_spec(out)
}

/// `main...branch`, the symmetric range git compares.
pub fn branch_range(main_branch: &str, branch: &str) -> (r: String)
    ensures
        r@ == main_branch@ + "..."@ + branch@,
{
    let mut s = String::from_str(main_branch);
    s.append("...");
    s.append(branch);
    s
}

} // verus!

verus! {

// ---------------------------------------------------------------------------
// Further decisions on git's answers
// ---------------------------------------------------------------------------

/// What `git branch --merged main` answered means for whether `branch` is
/// merged: `None` when git could run but failed, so that `master` is asked.
pub fn merged_from_main(out: Result<GitOutput, String>, branch: &str) -> (r: Option<Result<bool, WorktreeError>>)
    ensures
        (match out {
            Err(e) => r matches Some(Err(WorktreeError::Exec { context, cause })) && context@
                == "Failed to check merged branches"@ && cause == e,
            Ok(o) => if o.success {
                r == Some(Ok::<bool, WorktreeError>(branch_listed(o.stdout@, branch@)))
            } else {
                r is None
            },
        }),
{
    match out {
        Err(e) => Some(Err(exec_error("Failed to check merged branches", e))),
        Ok(o) => {
            if o.success {
                Some(Ok(is_branch_listed(o.stdout.as_str(), branch)))
            } else {
                None
            }
        },
    }
}

/// What `git branch --merged master` answered means for whether `branch` is
/// merged: not merged when git ran but failed.
pub fn merged_from_master(out: Result<GitOutput, String>, branch: &str) -> (r: Result<bool, WorktreeError>)
    ensures
        (match out {
            Err(e) => r matches Err(WorktreeError::Exec { context, cause }) && context@
                == "Failed to check merged branches"@ && cause == e,
            Ok(o) => r == Ok::<bool, WorktreeError>(o.success && branch_listed(o.stdout@, branch@)),
        }),
{
    match out {
        Err(e) => Err(exec_error("Failed to check merged branches", e)),
        Ok(o) => {
            if o.success {
                Ok(is_branch_listed(o.stdout.as_str(), branch))
            } else {
                Ok(false)
            }
        },
    }
}

/// What `git rev-parse --verify main` answered means for the main branch:
/// `main` when it verified, `None` when git ran but failed, so that `master`
/// is asked.
pub fn main_from_main(out: Result<GitOutput, String>) -> (r: Option<Result<String, WorktreeError>>)
    ensures
        (match out {
            Err(e) => r matches Some(Err(WorktreeError::Exec { context, cause })) && context@
                == "Failed to verify branch"@ && cause == e,
            Ok(o) => if o.success {
                r matches Some(Ok(m)) && m@ == "main"@
            } else {
                r is None
            },
        }),
{
    match out {
        Err(e) => Some(Err(exec_error("Failed to verify branch", e))),
        Ok(o) => {
            if o.success {
                Some(Ok(String::from_str("main")))
            } else {
                None
            }
        },
    }
}

/// What `git rev-parse --verify master` answered means for the main branch:
/// `master` when it verified, no main branch when git ran but failed.
pub fn main_from_master(out: Result<GitOutput, String>) -> (r: Result<String, WorktreeError>)
    ensures
        (match out {
            Err(e) => r matches Err(WorktreeError::Exec { context, cause }) && context@
                == "Failed to verify branch"@ && cause == e,
            Ok(o) => if o.success {
                r matches Ok(m) && m@ == "master"@
            } else {
                r matches Err(WorktreeError::NoMainBranch)
            },
        }),
{
    match out {
        Err(e) => Err(exec_error("Failed to verify branch", e)),
        Ok(o) => {
            if o.success {
                Ok(String::from_str("master"))
            } else {
                Err(WorktreeError::NoMainBranch)
            }
        },
    }
}

/// What `git diff` answered means: its output, whether or not git reported
/// success, or the error when it could not run.
pub open spec fn diff_answer(out: Result<GitOutput, String>, r: Result<String, WorktreeError>) -> bool {
    match out {
        Err(e) => r matches Err(WorktreeError::Exec { context, cause }) && context@
            == "Failed to get diff"@ && cause == e,
        Ok(o) => r matches Ok(d) && d@ == o.stdout@,
    }
}

/// What `git diff main...branch` answered: its output, whether or not git
/// reported success.
pub fn diff_from_output(out: Result<GitOutput, String>) -> (r: Result<String, WorktreeError>)
    ensures
        diff_answer(out, r),
{
    match out {
        Err(e) => Err(exec_error("Failed to get diff", e)),
        Ok(o) => Ok(o.stdout),
    }
}

/// Whether git ran and reported success.
pub open spec fn succeeded(out: Result<GitOutput, String>) -> bool {
    out matches Ok(o) && o.success
}

/// What a git step answered means: `Ok` when git ran and succeeded, an error
/// saying `context` when it could not run, or that `command` failed.
pub open spec fn step_answer(out: Result<GitOutput, String>, context: Seq<char>, command: Seq<char>, r: Result<(), WorktreeError>) -> bool {
    match out {
        Err(e) => r matches Err(WorktreeError::Exec { context: c, cause }) && c@ == context
            && cause == e,
        Ok(o) => if o.success {
            r is Ok
        } else {
            r matches Err(WorktreeError::CommandFailed { command: c, stderr }) && c@ == command
                && stderr@ == trim(o.stderr@)
        },
    }
}

/// What a git step of a merge answered: `Ok` when git ran and succeeded; an
/// error saying `context` when it could not run, or that `command` failed with
/// the trimmed error output.
pub fn step_outcome(out: Result<GitOutput, String>, context: &str, command: &str) -> (r: Result<(), WorktreeError>)
    ensures
        step_answer(out, context@, command@, r),
{
    match out {
        Err(e) => Err(exec_error(context, e)),
        Ok(o) => {
            if o.success {
                Ok(())
            } else {
                Err(command_failed(command, &o.stderr))
            }
        },
    }
}

/// What `git worktree remove` answered means: the warnings `w` found before
/// when git ran and succeeded, else the error.
pub open spec fn removal_answer(out: Result<GitOutput, String>, w: Seq<RemoveWarning>, r: Result<Vec<RemoveWarning>, WorktreeError>) -> bool {
    match out {
        Err(e) => r matches Err(WorktreeError::Exec { context, cause }) && context@
            == "Failed to execute git worktree remove"@ && cause == e,
        Ok(o) => if o.success {
            r matches Ok(ws) && ws@ == w
        } else {
            r matches Err(WorktreeError::CommandFailed { command, stderr }) && command@
                == "git worktree remove"@ && stderr@ == trim(o.stderr@)
        },
    }
}

/// What `git worktree remove` answered: the warnings found before, when git
/// ran and succeeded; else the error.
pub fn removal_outcome(out: Result<GitOutput, String>, warnings: Vec<RemoveWarning>) -> (r: Result<Vec<RemoveWarning>, WorktreeError>)
    ensures
        removal_answer(out, warnings@, r),
{
    match out {
        Err(e) => Err(exec_error("Failed to execute git worktree remove", e)),
        Ok(o) => {
            if !o.success {
                Err(command_failed("git worktree remove", &o.stderr))
            } else {
                Ok(warnings)
            }
        },
    }
}

/// The status of worktree `wt` from what the status and ahead/behind checks
/// gave: dirty only when the status check said so, ahead and behind as
/// counted, none when they could not be counted.
pub fn worktree_status(wt: Worktree, dirty: Result<bool, WorktreeError>, ahead_behind: Result<(usize, usize), WorktreeError>) -> (r: WorktreeStatus)
    ensures
        r.worktree == wt,
        r.is_dirty == (dirty matches Ok(true)),
        (r.ahead, r.behind) == (match ahead_behind {
            Ok(ab) => ab,
            Err(_) => (0usize, 0usize),
        }),
{
    let is_dirty = match dirty {
        Ok(d) => d,
        Err(_) => false,
    };
    let (ahead, behind) = match ahead_behind {
        Ok(ab) => ab,
        Err(_) => (0, 0),
    };
    WorktreeStatus { worktree: wt, is_dirty, ahead, behind }
}

} // verus!

verus! {

/// What `git worktree add` answered means: the new worktree at `path` on
/// `branch` when git ran and succeeded, else the error.
pub open spec fn added_answer(out: Result<GitOutput, String>, path: Seq<char>, branch: Seq<char>, r: Result<Worktree, WorktreeError>) -> bool {
    match out {
        Err(e) => r matches Err(WorktreeError::Exec { context, cause }) && context@
            == "Failed to execute git worktree add"@ && cause == e,
        Ok(o) => if o.success {
            r matches Ok(w) && w@ == (WorktreeView {
                path,
                branch: Some(branch),
                is_main: false,
                is_bare: false,
            })
        } else {
            r matches Err(WorktreeError::CommandFailed { command, stderr }) && command@
                == "git worktree add"@ && stderr@ == trim(o.stderr@)
        },
    }
}

/// What `git worktree add` answered: the new worktree at `path` on a new
/// branch `branch`, else the error.
pub fn added_worktree(out: Result<GitOutput, String>, path: String, branch: &str) -> (r: Result<Worktree, WorktreeError>)
    ensures
        added_answer(out, path@, branch@, r),
{
    match out {
        Err(e) => Err(exec_error("Failed to execute git worktree add", e)),
        Ok(o) => {
            if !o.success {
                Err(command_failed("git worktree add", &o.stderr))
            } else {
                Ok(
                    Worktree {
                        path,
                        branch: Some(String::from_str(branch)),
                        is_main: false,
                        is_bare: false,
                    },
                )
            }
        },
    }
}

/// Whether the worktree is removed once the safety checks found `warnings`:
/// when they found none, or when the removal is forced.
pub fn should_remove(warnings: &Vec<RemoveWarning>, force: bool) -> (r: bool)
    ensures
        r == (warnings@.len() == 0 || force),
{
    warnings.len() == 0 || force
}

/// Whether git is asked to count the commits between `main_branch` and
/// `branch`: not when they are the same branch, which is level with itself.
pub fn counts_needed(main_branch: &str, branch: &str) -> (r: bool)
    ensures
        r == (main_branch@ != branch@),
{
    let a = chars_of(main_branch);
    let b = chars_of(branch);
    !chars_eq(&a, &b)
}

/// Whether `e` came from looking up the main branch.
pub open spec fn main_lookup_error(e: WorktreeError) -> bool {
    ||| e is NoMainBranch
    ||| e matches WorktreeError::Exec { context, .. } && context@ == "Failed to verify branch"@
}

/// The counts for `branch` against the main branch `main_branch`: (0, 0) for
/// the main branch itself, else what `git rev-list` answered.
pub open spec fn counts_of(main_branch: Seq<char>, branch: Seq<char>, r: Result<(usize, usize), WorktreeError>) -> bool {
    if main_branch == branch {
        r == Ok::<(usize, usize), WorktreeError>((0, 0))
    } else {
        exists|out: Result<GitOutput, String>| #[trigger] ahead_behind_answer(out, r)
    }
}

/// What removing a worktree gives once the safety checks found the warnings
/// `w`: with none found, or when forced, what `git worktree remove` answered
/// (`out`); else the warnings, and git is not asked.
pub open spec fn removal_decided(w: Seq<RemoveWarning>, force: bool, out: Result<GitOutput, String>, r: Result<Vec<RemoveWarning>, WorktreeError>) -> bool {
    if w.len() == 0 || force {
        removal_answer(out, w, r)
    } else {
        r matches Ok(ws) && ws@ == w
    }
}

/// What a merge gives from what `git checkout` of the main branch answered
/// (`checkout`) and then `git merge` (`merged`): the merge is run only once the
/// checkout succeeded.
pub open spec fn merge_steps(checkout: Result<GitOutput, String>, merged: Result<GitOutput, String>, r: Result<(), WorktreeError>) -> bool {
    if succeeded(checkout) {
        step_answer(merged, "Failed to merge"@, "git merge"@, r)
    } else {
        step_answer(checkout, "Failed to checkout main branch"@, "git checkout"@, r)
    }
}

/// Whether `e` came from the `git worktree remove` step.
pub open spec fn removal_step_error(e: WorktreeError) -> bool {
    ||| e matches WorktreeError::Exec { context, .. } && context@
        == "Failed to execute git worktree remove"@
    ||| e matches WorktreeError::CommandFailed { command, .. } && command@ == "git worktree remove"@
}

} // verus!
