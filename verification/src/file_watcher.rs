//! What the file watcher decides: which worktree a changed file belongs to,
//! which worktrees a batch of changes touches, and which directories are
//! being watched.

use vstd::prelude::*;
use crate::worktree::{join_path, parent_of, path_eq, path_exists, path_is_file, path_join, path_parent};
use crate::text::opt_view;

verus! {

/// Events from the file watcher.
#[derive(Debug, Clone)]
pub enum WatchEvent {
    /// A file changed in the given worktree path
    FileChanged(String),
}

impl WatchEvent {
    /// The worktree path the event is about.
    pub open spec fn path(&self) -> Seq<char> {
        match self {
            WatchEvent::FileChanged(p) => p@,
        }
    }
}

/// The path `k` levels up from `p` (`p` itself for `k == 0`), taking
/// `Path::parent` once per level; `None` once a level has no parent.
pub open spec fn nth_parent(p: Seq<char>, k: nat) -> Option<Seq<char>>
    decreases k,
{
    if k == 0 {
        Some(p)
    } else {
        match nth_parent(p, (k - 1) as nat) {
            Some(q) => path_parent(q),
            None => None,
        }
    }
}

/// Whether `root` is `p` or one of its ancestors.
pub open spec fn is_ancestor_or_self(root: Seq<char>, p: Seq<char>) -> bool {
    exists|k: nat| nth_parent(p, k) == Some(root)
}

/// Where the search for a worktree root starts: the parent of `path` when it is
/// a file (`is_file`), else `path` itself.
pub open spec fn search_start(path: Seq<char>, is_file: bool) -> Option<Seq<char>> {
    if is_file {
        path_parent(path)
    } else {
        Some(path)
    }
}

/// Whether `dirs` is `start` followed by each of its ancestors, up to the one
/// that has no parent.
pub open spec fn ancestor_chain(start: Seq<char>, dirs: Seq<Seq<char>>) -> bool {
    &&& forall|k: int| 0 <= k < dirs.len() ==> nth_parent(start, k as nat) == Some(#[trigger] dirs[k])
    &&& nth_parent(start, dirs.len()) is None
}

/// The entry whose existence marks `dir` as a worktree root: `dir` joined with
/// `.git`.
pub open spec fn git_entry_spec(dir: Seq<char>) -> Seq<char> {
    path_join(dir, ".git"@)
}

/// The path of the `.git` entry of `dir` (see [`git_entry_spec`]).
pub fn git_entry(dir: &str) -> (r: String)
    ensures
        r@ == git_entry_spec(dir@),
{
    join_path(dir, ".git")
}

/// The first of `dirs` whose `.git` entry was found (`found[k]` answers for
/// `dirs[k]`); none when no answer is yes.
pub open spec fn first_found(dirs: Seq<Seq<char>>, found: Seq<bool>) -> Option<Seq<char>>
    decreases found.len(),
{
    if found.len() == 0 || dirs.len() == 0 {
        None
    } else if found[0] {
        Some(dirs[0])
    } else {
        first_found(dirs.drop_first(), found.drop_first())
    }
}

/// `start` and its ancestors, nearest first.
pub fn ancestors(start: &str) -> (r: Vec<String>)
    ensures
        ancestor_chain(start@, string_views(r@)),
{
    let mut out: Vec<String> = Vec::new();
    let mut current = String::from_str(start);
    out.push(current.clone());
    assert(nth_parent(start@, 0) == Some(start@));
    loop
        invariant
            out@.len() > 0,
            current@ == out@.last()@,
            forall|k: int| 0 <= k < out@.len() ==> nth_parent(start@, k as nat) == Some(
                #[trigger] string_views(out@)[k],
            ),
        decreases current@.len(),
    {
        let ghost n = out@.len();
        assert(string_views(out@)[n - 1] == current@);
        match parent_of(current.as_str()) {
            Some(p) => {
                proof {
                    assert(nth_parent(start@, n as nat) == path_parent(current@));
                }
                let ghost before = out@;
                out.push(p.clone());
                assert(string_views(out@) =~= string_views(before).push(p@));
                current = p;
            },
            None => {
                assert(nth_parent(start@, n as nat) == path_parent(current@));
                return out;
            },
        }
    }
}

/// The root that the answers `found` give for the directories `dirs` (see
/// [`first_found`]).
pub fn first_root(dirs: &Vec<String>, found: &Vec<bool>) -> (r: Option<String>)
    ensures
        opt_view(r) == first_found(string_views(dirs@), found@),
{
    let ghost ds = string_views(dirs@);
    let mut i: usize = 0;
    assert(ds.skip(0) =~= ds);
    assert(found@.skip(0) =~= found@);
    while i < found.len() && i < dirs.len()
        invariant
            i <= found@.len(),
            i <= dirs@.len(),
            ds == string_views(dirs@),
            first_found(ds, found@) == first_found(ds.skip(i as int), found@.skip(i as int)),
        decreases found@.len() - i,
    {
        assert(ds.skip(i as int).drop_first() =~= ds.skip(i + 1));
        assert(found@.skip(i as int).drop_first() =~= found@.skip(i + 1));
        assert(ds.skip(i as int)[0] == dirs@[i as int]@);
        assert(found@.skip(i as int)[0] == found@[i as int]);
        if found[i] {
            return Some(dirs[i].clone());
        }
        i = i + 1;
    }
    assert(found@.skip(i as int).len() == 0 || ds.skip(i as int).len() == 0);
    None
}

/// Whether `r` is what the worktree-root search gives for `path`, when `path`
/// is a file or not (`is_file`), the directories looked at are `dirs` and the
/// `.git` checks answered `found`: no root when the search has no start,
/// else the first directory, from the start upward, whose check answered yes.
/// The directories are checked in order, and the checks stop only at the first
/// yes or after the last directory.
pub open spec fn root_search(path: Seq<char>, is_file: bool, dirs: Seq<Seq<char>>, found: Seq<bool>, r: Option<Seq<char>>) -> bool {
    match search_start(path, is_file) {
        None => r is None,
        Some(start) => {
            &&& ancestor_chain(start, dirs)
            &&& found.len() <= dirs.len()
            &&& found.len() == dirs.len() || (found.len() > 0 && found.last())
            &&& forall|k: int| 0 <= k < found.len() - 1 ==> !(#[trigger] found[k])
            &&& r == first_found(dirs, found)
        },
    }
}

/// Finds the worktree root of `path`: starting from `path` (from its parent
/// when `path` is a file), the first directory, walking up, that holds a
/// `.git` entry (see [`git_entry_spec`]).
///
/// Whether `path` is a file and whether an entry exists are questions for the
/// file system at the time of the call, so the contract states the result in
/// terms of those answers (see [`root_search`]), not of the disk.
pub fn find_worktree_root(path: &str) -> (r: Option<String>)
    ensures
        exists|is_file: bool, dirs: Seq<Seq<char>>, found: Seq<bool>|
            #[trigger] root_search(path@, is_file, dirs, found, opt_view(r)),
        r matches Some(root) ==> is_ancestor_or_self(root@, path@),
{
    let is_file = path_is_file(path);
    let start = if is_file {
        match parent_of(path) {
            Some(p) => p,
            None => {
                assert(root_search(path@, is_file, Seq::empty(), Seq::empty(), None));
                return None;
            },
        }
    } else {
        String::from_str(path)
    };
    let dirs = ancestors(start.as_str());
    let ghost ds = string_views(dirs@);
    let mut found: Vec<bool> = Vec::new();
    let mut done = false;
    let mut i: usize = 0;
    while i < dirs.len() && !done
        invariant
            i <= dirs@.len(),
            found@.len() == i,
            ds == string_views(dirs@),
            done == (i > 0 && found@[i - 1]),
            forall|k: int| 0 <= k < i - 1 ==> !(#[trigger] found@[k]),
        decreases dirs@.len() - i,
    {
        let entry = git_entry(dirs[i].as_str());
        let yes = path_exists(entry.as_str());
        found.push(yes);
        done = yes;
        i = i + 1;
    }
    let r = first_root(&dirs, &found);
    proof {
        assert(search_start(path@, is_file) == Some(start@));
        assert(root_search(path@, is_file, ds, found@, opt_view(r)));
        if r is Some {
            lemma_first_found_in(ds, found@);
            let k = choose|k: int| 0 <= k < ds.len() && first_found(ds, found@) == Some(ds[k]);
            assert(nth_parent(start@, k as nat) == Some(ds[k]));
            let a: nat = if is_file { 1nat } else { 0nat };
            assert(nth_parent(path@, 0) == Some(path@));
            assert(nth_parent(path@, 1) == path_parent(path@));
            assert(nth_parent(path@, a) == Some(start@));
            lemma_nth_parent_add(path@, a, k as nat);
            assert(nth_parent(path@, a + k as nat) == Some(r->0@));
        }
    }
    r
}

proof fn lemma_first_found_in(dirs: Seq<Seq<char>>, found: Seq<bool>)
    ensures
        first_found(dirs, found) is Some ==> exists|k: int|
            0 <= k < dirs.len() && first_found(dirs, found) == Some(#[trigger] dirs[k]),
    decreases found.len(),
{
    if found.len() > 0 && dirs.len() > 0 && !found[0] {
        lemma_first_found_in(dirs.drop_first(), found.drop_first());
        if first_found(dirs, found) is Some {
            let k = choose|k: int| 0 <= k < dirs.drop_first().len() && first_found(dirs, found)
                == Some(#[trigger] dirs.drop_first()[k]);
            assert(dirs[k + 1] == dirs.drop_first()[k]);
        }
    } else if found.len() > 0 && dirs.len() > 0 {
        assert(first_found(dirs, found) == Some(dirs[0]));
    }
}

proof fn lemma_nth_parent_add(p: Seq<char>, a: nat, b: nat)
    ensures
        nth_parent(p, a) matches Some(q) ==> nth_parent(q, b) == nth_parent(p, a + b),
    decreases b,
{
    if b > 0 {
        lemma_nth_parent_add(p, a, (b - 1) as nat);
        assert((a + b - 1) as nat == (a + (b - 1)) as nat);
    }
}

/// The paths of `events`, in order.
pub open spec fn event_paths(events: Seq<WatchEvent>) -> Seq<Seq<char>> {
    events.map_values(|e: WatchEvent| e.path())
}

/// Whether some path of `s` is the same path as `p`.
pub open spec fn has_same_path(s: Seq<Seq<char>>, p: Seq<char>) -> bool {
    exists|j: int| 0 <= j < s.len() && path_eq(s[j], p)
}

/// The paths of `s` without repeats: each path kept unless an earlier kept
/// path is the same path.
pub open spec fn distinct_paths(s: Seq<Seq<char>>) -> Seq<Seq<char>>
    decreases s.len(),
{
    if s.len() == 0 {
        s
    } else {
        let before = distinct_paths(s.drop_last());
        if has_same_path(before, s.last()) {
            before
        } else {
            before.push(s.last())
        }
    }
}

/// The views of a sequence of strings.
pub open spec fn string_views(v: Seq<String>) -> Seq<Seq<char>> {
    v.map_values(|s: String| s@)
}

/// Whether some string of `v` is the same path as `p`.
fn contains_path(v: &Vec<String>, p: &str) -> (r: bool)
    ensures
        r == has_same_path(string_views(v@), p@),
        !r ==> forall|j: int| 0 <= j < v@.len() ==> #[trigger] string_views(v@)[j] != p@,
{
    let mut i: usize = 0;
    while i < v.len()
        invariant
            i <= v@.len(),
            forall|j: int| 0 <= j < i ==> !path_eq(#[trigger] string_views(v@)[j], p@),
            forall|j: int| 0 <= j < i ==> #[trigger] string_views(v@)[j] != p@,
        decreases v@.len() - i,
    {
        if crate::worktree::same_path(v[i].as_str(), p) {
            assert(path_eq(string_views(v@)[i as int], p@));
            return true;
        }
        i = i + 1;
    }
    false
}

/// The worktrees that a batch of events asks to refresh: each path once, in
/// the order of its first event; no path is listed twice.
pub fn changed_worktrees(events: Vec<WatchEvent>) -> (r: Vec<String>)
    ensures
        string_views(r@) == distinct_paths(event_paths(events@)),
        forall|i: int, j: int| 0 <= i < j < r@.len() ==> #[trigger] r@[i]@ != #[trigger] r@[j]@,
{
    let mut out: Vec<String> = Vec::new();
    let mut i: usize = 0;
    while i < events.len()
        invariant
            i <= events@.len(),
            string_views(out@) == distinct_paths(event_paths(events@).take(i as int)),
            forall|a: int, b: int| 0 <= a < b < out@.len() ==> #[trigger] out@[a]@ != #[trigger] out@[b]@,
        decreases events@.len() - i,
    {
        let ghost prefix = event_paths(events@).take(i as int);
        let ghost next = event_paths(events@).take(i + 1);
        assert(next.drop_last() =~= prefix);
        assert(next.last() == events@[i as int].path());
        let p = match &events[i] {
            WatchEvent::FileChanged(p) => p,
        };
        if !contains_path(&out, p.as_str()) {
            let ghost before = out@;
            out.push(p.clone());
            assert(string_views(out@) =~= string_views(before).push(p@));
            assert forall|a: int, b: int| 0 <= a < b < out@.len() implies #[trigger] out@[a]@
                != #[trigger] out@[b]@ by {
                if b == out@.len() - 1 {
                    assert(string_views(before)[a] == before[a]@);
                }
            }
        }
        i = i + 1;
    }
    assert(event_paths(events@).take(events@.len() as int) =~= event_paths(events@));
    out
}

/// The directories being watched.
pub struct WatchedPaths {
    paths: Vec<String>,
}

impl View for WatchedPaths {
    type V = Seq<Seq<char>>;

    closed spec fn view(&self) -> Seq<Seq<char>> {
        string_views(self.paths@)
    }
}

impl WatchedPaths {
    /// No directory watched.
    pub fn new() -> (r: WatchedPaths)
        ensures
            r@ == Seq::<Seq<char>>::empty(),
    {
        let r = WatchedPaths { paths: Vec::new() };
        assert(r@ =~= Seq::<Seq<char>>::empty());
        r
    }

    /// Whether `path` is watched.
    pub fn contains(&self, path: &str) -> (r: bool)
        ensures
            r == has_same_path(self@, path@),
    {
        contains_path(&self.paths, path)
    }

    /// Records `path` as watched, unless it already is.
    pub fn insert(&mut self, path: String) -> (r: bool)
        ensures
            r == !has_same_path(old(self)@, path@),
            final(self)@ == if r {
                old(self)@.push(path@)
            } else {
                old(self)@
            },
    {
        if contains_path(&self.paths, path.as_str()) {
            return false;
        }
        let ghost before = self.paths@;
        let ghost pv = path@;
        self.paths.push(path);
        assert(string_views(self.paths@) =~= string_views(before).push(pv));
        true
    }

    /// Stops recording every watched path that is the same path as `path`.
    pub fn remove(&mut self, path: &str) -> (r: bool)
        ensures
            r == has_same_path(old(self)@, path@),
            final(self)@ == old(self)@.filter(|q: Seq<char>| !path_eq(q, path@)),
    {
        let ghost old_view = self@;
        let mut kept: Vec<String> = Vec::new();
        let mut found = false;
        let mut i: usize = 0;
        while i < self.paths.len()
            invariant
                i <= self.paths@.len(),
                old_view == string_views(self.paths@),
                string_views(kept@) == old_view.take(i as int).filter(
                    |q: Seq<char>| !path_eq(q, path@),
                ),
                found == has_same_path(old_view.take(i as int), path@),
            decreases self.paths@.len() - i,
        {
            let ghost before = kept@;
            let ghost pre = old_view.take(i as int);
            let ghost next = old_view.take(i + 1);
            assert(next.drop_last() =~= pre);
            assert(next.last() == self.paths@[i as int]@);
            proof {
                reveal(Seq::filter);
                assert(next.filter(|q: Seq<char>| !path_eq(q, path@)) == if !path_eq(next.last(), path@) {
                    pre.filter(|q: Seq<char>| !path_eq(q, path@)).push(next.last())
                } else {
                    pre.filter(|q: Seq<char>| !path_eq(q, path@))
                });
            }
            if crate::worktree::same_path(self.paths[i].as_str(), path) {
                assert(path_eq(next[i as int], path@));
                found = true;
            } else {
                kept.push(self.paths[i].clone());
                assert(string_views(kept@) =~= string_views(before).push(next.last()));
                assert(forall|j: int| 0 <= j < i ==> next[j] == pre[j]);
            }
            assert(found == has_same_path(next, path@)) by {
                if has_same_path(next, path@) && !has_same_path(pre, path@) {
                    let j = choose|j: int| 0 <= j < next.len() && path_eq(next[j], path@);
                    assert(j == i);
                }
                if has_same_path(pre, path@) {
                    let j = choose|j: int| 0 <= j < pre.len() && path_eq(pre[j], path@);
                    assert(next[j] == pre[j]);
                }
            }
            i = i + 1;
        }
        assert(old_view.take(self.paths@.len() as int) =~= old_view);
        self.paths = kept;
        found
    }
}

} // verus!

verus! {

/// No worktree is asked to refresh twice: no path of the result is the same
/// path as a later one.
pub proof fn lemma_distinct_paths_no_repeats(s: Seq<Seq<char>>)
    ensures
        forall|i: int, j: int|
            0 <= i < j < distinct_paths(s).len() ==> !path_eq(
                #[trigger] distinct_paths(s)[i],
                #[trigger] distinct_paths(s)[j],
            ),
    decreases s.len(),
{
    if s.len() > 0 {
        lemma_distinct_paths_no_repeats(s.drop_last());
        let before = distinct_paths(s.drop_last());
        if !has_same_path(before, s.last()) {
            let d = before.push(s.last());
            assert forall|i: int, j: int| 0 <= i < j < d.len() implies !path_eq(
                #[trigger] d[i],
                #[trigger] d[j],
            ) by {
                if j == d.len() - 1 {
                    assert(d[i] == before[i]);
                } else {
                    assert(d[i] == before[i] && d[j] == before[j]);
                }
            }
        }
    }
}

/// Every changed path is asked for: each path of `s` is in the result, or
/// the result holds the same path.
pub proof fn lemma_distinct_paths_cover(s: Seq<Seq<char>>)
    ensures
        forall|k: int|
            0 <= k < s.len() ==> distinct_paths(s).contains(#[trigger] s[k]) || has_same_path(
                distinct_paths(s),
                s[k],
            ),
    decreases s.len(),
{
    if s.len() > 0 {
        let t = s.drop_last();
        lemma_distinct_paths_cover(t);
        let before = distinct_paths(t);
        let d = distinct_paths(s);
        assert forall|k: int| 0 <= k < s.len() implies d.contains(#[trigger] s[k]) || has_same_path(
            d,
            s[k],
        ) by {
            if k < s.len() - 1 {
                assert(s[k] == t[k]);
                if before.contains(t[k]) {
                    let m = choose|m: int| 0 <= m < before.len() && before[m] == t[k];
                    if !has_same_path(before, s.last()) {
                        assert(d[m] == before[m]);
                    }
                } else {
                    let m = choose|m: int| 0 <= m < before.len() && path_eq(before[m], t[k]);
                    if !has_same_path(before, s.last()) {
                        assert(d[m] == before[m]);
                    }
                }
            } else {
                if !has_same_path(before, s.last()) {
                    assert(d[d.len() - 1] == s.last());
                }
            }
        }
    }
}

} // verus!
