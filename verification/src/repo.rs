//! The model of one local repository.
//!
//! A repository holds its working-tree state (staged and unstaged changes,
//! untracked paths), its commit history most-recent-first, its branch
//! catalogue, and its configured remote. The well-formedness predicate says
//! that every path has exactly one working-tree state and that the branch
//! catalogue is duplicate-free and contains the checked-out branch.

use vstd::prelude::*;
use crate::types::{CommitRecord, GitFileDiff};
use crate::search::{find_key, string_views};

verus! {

/// The paths of a sequence of working-tree diff records.
pub open spec fn diff_paths(s: Seq<GitFileDiff>) -> Seq<Seq<char>> {
    s.map_values(|d: GitFileDiff| d.path@)
}

/// The commit identifiers of a history.
pub open spec fn commit_shas(s: Seq<CommitRecord>) -> Seq<Seq<char>> {
    s.map_values(|c: CommitRecord| c.sha@)
}

/// Whether some string in `s` reads as `t`.
pub open spec fn has_text(s: Seq<String>, t: Seq<char>) -> bool {
    exists|i: int| 0 <= i < s.len() && s[i]@ == t
}

/// Whether some diff record in `s` is about path `p`.
pub open spec fn has_path(s: Seq<GitFileDiff>, p: Seq<char>) -> bool {
    exists|i: int| 0 <= i < s.len() && s[i].path@ == p
}

/// No two strings in `s` read the same.
pub open spec fn texts_distinct(s: Seq<String>) -> bool {
    forall|i: int, j: int| 0 <= i < j < s.len() ==> s[i]@ != s[j]@
}

/// No two diff records in `s` are about the same path.
pub open spec fn paths_distinct(s: Seq<GitFileDiff>) -> bool {
    forall|i: int, j: int| 0 <= i < j < s.len() ==> s[i].path@ != s[j].path@
}

/// No diff record of `a` shares its path with one of `b`.
pub open spec fn diffs_disjoint(a: Seq<GitFileDiff>, b: Seq<GitFileDiff>) -> bool {
    forall|i: int, j: int| 0 <= i < a.len() && 0 <= j < b.len() ==> a[i].path@ != b[j].path@
}

/// No diff record of `a` is about a path listed in `b`.
pub open spec fn diffs_texts_disjoint(a: Seq<GitFileDiff>, b: Seq<String>) -> bool {
    forall|i: int, j: int| 0 <= i < a.len() && 0 <= j < b.len() ==> a[i].path@ != b[j]@
}

/// One local repository as the façade models it.
pub struct Repository {
    /// Changes staged for the next commit.
    pub staged: Vec<GitFileDiff>,
    /// Changes in the working tree not yet staged.
    pub unstaged: Vec<GitFileDiff>,
    /// Paths present in the working tree but unknown to the history.
    pub untracked: Vec<String>,
    /// The commit history, most-recent-first.
    pub commits: Vec<CommitRecord>,
    /// Every branch name of the repository.
    pub branches: Vec<String>,
    /// The branch currently checked out.
    pub current_branch: String,
    /// The configured remote, if any.
    pub remote: Option<String>,
    /// Feeds the identifier of the next commit made through the façade.
    pub next_commit_number: u64,
}

impl Repository {
    /// Every path has exactly one working-tree state, and the branch
    /// catalogue is duplicate-free and contains the checked-out branch.
    pub open spec fn wf(self) -> bool {
        &&& paths_distinct(self.staged@)
        &&& paths_distinct(self.unstaged@)
        &&& texts_distinct(self.untracked@)
        &&& diffs_disjoint(self.staged@, self.unstaged@)
        &&& diffs_texts_disjoint(self.staged@, self.untracked@)
        &&& diffs_texts_disjoint(self.unstaged@, self.untracked@)
        &&& texts_distinct(self.branches@)
        &&& has_text(self.branches@, self.current_branch@)
    }

    /// Whether uncommitted changes block a checkout.
    pub open spec fn is_dirty(self) -> bool {
        self.staged@.len() > 0 || self.unstaged@.len() > 0
    }

    /// A freshly initialized repository: an empty history and working tree
    /// on a single branch, no remote.
    pub fn init() -> (r: Repository)
        ensures
            r.wf(),
            r.staged@.len() == 0,
            r.unstaged@.len() == 0,
            r.untracked@.len() == 0,
            r.commits@.len() == 0,
            r.branches@.len() == 1,
            r.branches@[0]@ == "main"@,
            r.current_branch@ == "main"@,
            r.remote is None,
            r.next_commit_number == 1,
    {
        let mut branches: Vec<String> = Vec::new();
        branches.push(String::from_str("main"));
        let r = Repository {
            staged: Vec::new(),
            unstaged: Vec::new(),
            untracked: Vec::new(),
            commits: Vec::new(),
            branches,
            current_branch: String::from_str("main"),
            remote: None,
            next_commit_number: 1,
        };
        proof {
            assert(r.branches@[0]@ == r.current_branch@);
        }
        r
    }
}

/// Finds the first diff record about `path`.
pub fn diff_position(v: &Vec<GitFileDiff>, path: &String) -> (r: Option<usize>)
    ensures
        match r {
            Some(i) => find_key(diff_paths(v@), path@) == Some(i as int),
            None => find_key(diff_paths(v@), path@) is None,
        },
{
    let ghost keys = diff_paths(v@);
    let mut i: usize = 0;
    while i < v.len()
        invariant
            i <= v@.len(),
            keys == diff_paths(v@),
            keys.len() == v@.len(),
            forall|j: int| 0 <= j < i ==> keys[j] != path@,
        decreases v@.len() - i,
    {
        if v[i].path == *path {
            proof {
                assert(keys[i as int] == v@[i as int].path@);
                crate::search::lemma_find_key_first(keys, path@, i as int);
            }
            return Some(i);
        }
        proof {
            assert(keys[i as int] == v@[i as int].path@);
        }
        i = i + 1;
    }
    proof {
        crate::search::lemma_find_key_none(keys, path@);
    }
    None
}

/// Finds the first commit whose identifier is `sha`.
pub fn commit_position(v: &Vec<CommitRecord>, sha: &String) -> (r: Option<usize>)
    ensures
        match r {
            Some(i) => find_key(commit_shas(v@), sha@) == Some(i as int),
            None => find_key(commit_shas(v@), sha@) is None,
        },
{
    let ghost keys = commit_shas(v@);
    let mut i: usize = 0;
    while i < v.len()
        invariant
            i <= v@.len(),
            keys == commit_shas(v@),
            keys.len() == v@.len(),
            forall|j: int| 0 <= j < i ==> keys[j] != sha@,
        decreases v@.len() - i,
    {
        if v[i].sha == *sha {
            proof {
                assert(keys[i as int] == v@[i as int].sha@);
                crate::search::lemma_find_key_first(keys, sha@, i as int);
            }
            return Some(i);
        }
        proof {
            assert(keys[i as int] == v@[i as int].sha@);
        }
        i = i + 1;
    }
    proof {
        crate::search::lemma_find_key_none(keys, sha@);
    }
    None
}

/// The concatenation of the patch bodies of `s`, in order.
pub open spec fn concat_patches(s: Seq<GitFileDiff>) -> Seq<char>
    decreases s.len(),
{
    if s.len() == 0 {
        Seq::<char>::empty()
    } else {
        concat_patches(s.drop_last()) + s.last().patch@
    }
}

/// A found key is a member; a missing key is no member.
pub proof fn lemma_find_key_membership(s: Seq<String>, t: Seq<char>)
    ensures
        (find_key(string_views(s), t) is Some) == has_text(s, t),
{
    crate::search::lemma_find_key_props(string_views(s), t);
    if find_key(string_views(s), t) is Some {
        let i = find_key(string_views(s), t).unwrap();
        assert(string_views(s)[i] == s[i]@);
    } else {
        assert forall|i: int| 0 <= i < s.len() implies s[i]@ != t by {
            assert(string_views(s)[i] == s[i]@);
        }
    }
}

/// Two repositories that differ at most in their working-tree sets.
pub open spec fn same_except_tree(a: Repository, b: Repository) -> bool {
    &&& b.commits == a.commits
    &&& b.branches == a.branches
    &&& b.current_branch == a.current_branch
    &&& b.remote == a.remote
    &&& b.next_commit_number == a.next_commit_number
}

/// Appending a record about a new path keeps the paths duplicate-free.
pub proof fn lemma_paths_push(s: Seq<GitFileDiff>, d: GitFileDiff)
    requires
        paths_distinct(s),
        !has_path(s, d.path@),
    ensures
        paths_distinct(s.push(d)),
{
}

/// Removing a record keeps the paths duplicate-free; under distinctness it
/// removes the path entirely, and it introduces no path.
pub proof fn lemma_paths_remove(s: Seq<GitFileDiff>, i: int)
    requires
        paths_distinct(s),
        0 <= i < s.len(),
    ensures
        paths_distinct(s.remove(i)),
        !has_path(s.remove(i), s[i].path@),
        forall|p: Seq<char>| has_path(s.remove(i), p) ==> has_path(s, p),
{
    let t = s.remove(i);
    assert forall|a: int, b: int| 0 <= a < b < t.len() implies t[a].path@ != t[b].path@ by {
        let sa: int = if a < i { a } else { a + 1 };
        let sb: int = if b < i { b } else { b + 1 };
        assert(t[a] == s[sa] && t[b] == s[sb]);
    }
    assert forall|j: int| 0 <= j < t.len() implies t[j].path@ != s[i].path@ by {
        let sj: int = if j < i { j } else { j + 1 };
        assert(t[j] == s[sj]);
    }
    assert forall|p: Seq<char>| has_path(t, p) implies has_path(s, p) by {
        let j = choose|j: int| 0 <= j < t.len() && t[j].path@ == p;
        let sj: int = if j < i { j } else { j + 1 };
        assert(s[sj].path@ == p);
    }
}

/// The string-list counterpart of [`lemma_paths_remove`].
pub proof fn lemma_texts_remove(s: Seq<String>, i: int)
    requires
        texts_distinct(s),
        0 <= i < s.len(),
    ensures
        texts_distinct(s.remove(i)),
        !has_text(s.remove(i), s[i]@),
        forall|p: Seq<char>| has_text(s.remove(i), p) ==> has_text(s, p),
{
    let t = s.remove(i);
    assert forall|a: int, b: int| 0 <= a < b < t.len() implies t[a]@ != t[b]@ by {
        let sa: int = if a < i { a } else { a + 1 };
        let sb: int = if b < i { b } else { b + 1 };
        assert(t[a] == s[sa] && t[b] == s[sb]);
    }
    assert forall|j: int| 0 <= j < t.len() implies t[j]@ != s[i]@ by {
        let sj: int = if j < i { j } else { j + 1 };
        assert(t[j] == s[sj]);
    }
    assert forall|p: Seq<char>| has_text(t, p) implies has_text(s, p) by {
        let j = choose|j: int| 0 <= j < t.len() && t[j]@ == p;
        let sj: int = if j < i { j } else { j + 1 };
        assert(s[sj]@ == p);
    }
}

/// A found path is a member of the diff set; a missing one is not.
pub proof fn lemma_find_key_path_membership(s: Seq<GitFileDiff>, p: Seq<char>)
    ensures
        (find_key(diff_paths(s), p) is Some) == has_path(s, p),
{
    crate::search::lemma_find_key_props(diff_paths(s), p);
    if find_key(diff_paths(s), p) is Some {
        let i = find_key(diff_paths(s), p).unwrap();
        assert(diff_paths(s)[i] == s[i].path@);
    } else {
        assert forall|i: int| 0 <= i < s.len() implies s[i].path@ != p by {
            assert(diff_paths(s)[i] == s[i].path@);
        }
    }
}

/// Membership test on the branch catalogue and other string lists.
pub fn member_string(v: &Vec<String>, t: &String) -> (r: bool)
    ensures
        r == has_text(v@, t@),
{
    let p = crate::search::string_position(v, t);
    proof {
        lemma_find_key_membership(v@, t@);
    }
    p.is_some()
}

} // verus!
