//! The read-only local operations of the catalogue: status, diffs, log,
//! commit diff, remote URL, branch list, root discovery, and the combined
//! working-tree patch.
//!
//! Every operation defers its error cases to [`resolve_err`]: the
//! capability gate first, then the registry lookup, then root validation.
//! Reads never change the context; each takes it by shared reference.

use vstd::prelude::*;
use crate::errors::{ErrView, GitOpError};
use crate::repo::{commit_shas, concat_patches, Repository};
use crate::search::{find_key, pair_keys, string_views};
use crate::state::{repo_of, resolve_err, resolve_index, ws_find, ws_root, GitUiCore};
use crate::types::{
    entry_of, file_diff_like, summary_of, BranchList, CommitSummary, GitCommitDiff, GitFileDiff,
    GitLogResponse, GitStatus, StatusEntry, clone_file_diff, clone_strings, opt_text_like,
};

verus! {

/// A failed result carrying exactly this error.
pub open spec fn fails_with<T>(res: Result<T, GitOpError>, ev: ErrView) -> bool {
    res matches Err(e) && e@ == ev
}

/// A status report reads as the repository's working-tree state.
pub open spec fn status_matches(st: GitStatus, r: Repository) -> bool {
    &&& st.staged@.len() == r.staged@.len()
    &&& (forall|i: int| 0 <= i < r.staged@.len() ==> entry_of(#[trigger] st.staged@[i], r.staged@[i]))
    &&& st.unstaged@.len() == r.unstaged@.len()
    &&& (forall|i: int|
        0 <= i < r.unstaged@.len() ==> entry_of(#[trigger] st.unstaged@[i], r.unstaged@[i]))
    &&& st.untracked@.len() == r.untracked@.len()
    &&& (forall|i: int|
        0 <= i < r.untracked@.len() ==> (#[trigger] st.untracked@[i])@ == r.untracked@[i]@)
}

/// The status entries of a diff set, in order.
fn entries_of(diffs: &Vec<GitFileDiff>) -> (r: Vec<StatusEntry>)
    ensures
        r@.len() == diffs@.len(),
        forall|i: int| 0 <= i < diffs@.len() ==> entry_of(#[trigger] r@[i], diffs@[i]),
{
    let mut r: Vec<StatusEntry> = Vec::new();
    let mut i: usize = 0;
    while i < diffs.len()
        invariant
            i <= diffs@.len(),
            r@.len() == i,
            forall|j: int| 0 <= j < i ==> entry_of(#[trigger] r@[j], diffs@[j]),
        decreases diffs@.len() - i,
    {
        r.push(StatusEntry { path: diffs[i].path.clone(), kind: diffs[i].kind });
        i = i + 1;
    }
    r
}

/// Reports the working-tree state of the workspace's repository: staged and
/// unstaged entries plus untracked paths. Non-mutating.
pub fn get_git_status_core(core: &GitUiCore, workspace_id: String) -> (res: Result<
    GitStatus,
    GitOpError,
>)
    ensures
        match resolve_err(*core, workspace_id@) {
            Some(ev) => fails_with(res, ev),
            None => res matches Ok(st) && status_matches(st, repo_of(*core, workspace_id@)),
        },
{
    let i = match resolve_index(core, workspace_id) {
        Ok(i) => i,
        Err(e) => {
            return Err(e);
        },
    };
    let repo = &core.repos[i].1;
    Ok(GitStatus {
        staged: entries_of(&repo.staged),
        unstaged: entries_of(&repo.unstaged),
        untracked: clone_strings(&repo.untracked),
    })
}

/// A combined diff listing reads as the staged set followed by the unstaged
/// set.
pub open spec fn diffs_match(out: Seq<GitFileDiff>, r: Repository) -> bool {
    &&& out.len() == r.staged@.len() + r.unstaged@.len()
    &&& (forall|i: int|
        0 <= i < r.staged@.len() ==> file_diff_like(r.staged@[i], #[trigger] out[i]))
    &&& (forall|i: int|
        0 <= i < r.unstaged@.len() ==> file_diff_like(
            r.unstaged@[i],
            #[trigger] out[r.staged@.len() + i],
        ))
}

/// Collects the combined working-tree diff: staged changes first, then
/// unstaged ones; an empty sequence if the tree is clean. Non-mutating.
pub fn get_git_diffs_core(core: &GitUiCore, workspace_id: String) -> (res: Result<
    Vec<GitFileDiff>,
    GitOpError,
>)
    ensures
        match resolve_err(*core, workspace_id@) {
            Some(ev) => fails_with(res, ev),
            None => res matches Ok(v) && diffs_match(v@, repo_of(*core, workspace_id@)),
        },
{
    let i = match resolve_index(core, workspace_id) {
        Ok(i) => i,
        Err(e) => {
            return Err(e);
        },
    };
    let repo = &core.repos[i].1;
    let mut out: Vec<GitFileDiff> = Vec::new();
    let mut k: usize = 0;
    while k < repo.staged.len()
        invariant
            k <= repo.staged@.len(),
            out@.len() == k,
            forall|j: int| 0 <= j < k ==> file_diff_like(repo.staged@[j], #[trigger] out@[j]),
        decreases repo.staged@.len() - k,
    {
        out.push(clone_file_diff(&repo.staged[k]));
        k = k + 1;
    }
    let mut k: usize = 0;
    while k < repo.unstaged.len()
        invariant
            k <= repo.unstaged@.len(),
            out@.len() == repo.staged@.len() + k,
            forall|j: int|
                0 <= j < repo.staged@.len() ==> file_diff_like(repo.staged@[j], #[trigger] out@[j]),
            forall|j: int|
                0 <= j < k ==> file_diff_like(
                    repo.unstaged@[j],
                    #[trigger] out@[repo.staged@.len() + j],
                ),
        decreases repo.unstaged@.len() - k,
    {
        out.push(clone_file_diff(&repo.unstaged[k]));
        k = k + 1;
    }
    Ok(out)
}

/// How many log entries a request is allowed: the caller's limit, or the
/// configured default when the caller passes none.
pub open spec fn effective_limit(c: GitUiCore, limit: Option<usize>) -> int {
    match limit {
        Some(l) => l as int,
        None => c.settings.default_log_limit as int,
    }
}

/// A log response reads as the first `eff` commits of the history (all of
/// them when the history is shorter), most-recent-first.
pub open spec fn log_matches(resp: GitLogResponse, r: Repository, eff: int) -> bool {
    &&& resp.commits@.len() == (if eff < r.commits@.len() {
        eff
    } else {
        r.commits@.len() as int
    })
    &&& (forall|i: int|
        0 <= i < resp.commits@.len() ==> summary_of(#[trigger] resp.commits@[i], r.commits@[i]))
}

/// Returns the commit history, most-recent-first, truncated at the caller's
/// limit or at the configured default. Non-mutating.
pub fn get_git_log_core(core: &GitUiCore, workspace_id: String, limit: Option<usize>) -> (res:
    Result<GitLogResponse, GitOpError>)
    ensures
        match resolve_err(*core, workspace_id@) {
            Some(ev) => fails_with(res, ev),
            None => res matches Ok(resp) && log_matches(
                resp,
                repo_of(*core, workspace_id@),
                effective_limit(*core, limit),
            ),
        },
{
    let i = match resolve_index(core, workspace_id) {
        Ok(i) => i,
        Err(e) => {
            return Err(e);
        },
    };
    let eff: usize = match limit {
        Some(l) => l,
        None => core.settings.default_log_limit,
    };
    let repo = &core.repos[i].1;
    let n = repo.commits.len();
    let count = if eff < n {
        eff
    } else {
        n
    };
    let mut out: Vec<CommitSummary> = Vec::new();
    let mut k: usize = 0;
    while k < count
        invariant
            count <= repo.commits@.len(),
            k <= count,
            out@.len() == k,
            forall|j: int| 0 <= j < k ==> summary_of(#[trigger] out@[j], repo.commits@[j]),
        decreases count - k,
    {
        let c = &repo.commits[k];
        out.push(
            CommitSummary {
                sha: c.sha.clone(),
                author: c.author.clone(),
                timestamp: c.timestamp,
                message: c.message.clone(),
            },
        );
        k = k + 1;
    }
    Ok(GitLogResponse { commits: out })
}

/// A per-file commit diff listing reads as the files of commit `c`, each
/// carrying the requested identifier.
pub open spec fn commit_diff_matches(out: Seq<GitCommitDiff>, c: crate::types::CommitRecord, sha: Seq<char>) -> bool {
    &&& out.len() == c.files@.len()
    &&& (forall|i: int|
        0 <= i < c.files@.len() ==> {
            let e = #[trigger] out[i];
            e.sha@ == sha && e.path@ == c.files@[i].path@ && e.kind == c.files@[i].kind
                && e.patch@ == c.files@[i].patch@
        })
}

/// Returns the per-file diff of one commit; `CommitNotFound` when no commit
/// of the history has the given identifier. Non-mutating.
pub fn get_git_commit_diff_core(core: &GitUiCore, workspace_id: String, sha: String) -> (res:
    Result<Vec<GitCommitDiff>, GitOpError>)
    ensures
        match resolve_err(*core, workspace_id@) {
            Some(ev) => fails_with(res, ev),
            None => {
                let r = repo_of(*core, workspace_id@);
                match find_key(commit_shas(r.commits@), sha@) {
                    None => fails_with(res, ErrView::CommitNotFound(sha@)),
                    Some(k) => res matches Ok(v) && commit_diff_matches(v@, r.commits@[k], sha@),
                }
            },
        },
{
    let i = match resolve_index(core, workspace_id) {
        Ok(i) => i,
        Err(e) => {
            return Err(e);
        },
    };
    let repo = &core.repos[i].1;
    let k = match crate::repo::commit_position(&repo.commits, &sha) {
        Some(k) => k,
        None => {
            return Err(GitOpError::CommitNotFound(sha));
        },
    };
    proof {
        crate::search::lemma_find_key_props(commit_shas(repo.commits@), sha@);
        assert(commit_shas(repo.commits@)[k as int] == repo.commits@[k as int].sha@);
    }
    let c = &repo.commits[k];
    let mut out: Vec<GitCommitDiff> = Vec::new();
    let mut j: usize = 0;
    while j < c.files.len()
        invariant
            j <= c.files@.len(),
            out@.len() == j,
            c.sha@ == sha@,
            forall|m: int|
                0 <= m < j ==> {
                    let e = #[trigger] out@[m];
                    e.sha@ == sha@ && e.path@ == c.files@[m].path@ && e.kind == c.files@[m].kind
                        && e.patch@ == c.files@[m].patch@
                },
        decreases c.files@.len() - j,
    {
        let f = &c.files[j];
        out.push(
            GitCommitDiff {
                sha: c.sha.clone(),
                path: f.path.clone(),
                kind: f.kind,
                patch: f.patch.clone(),
            },
        );
        j = j + 1;
    }
    Ok(out)
}

/// Returns the configured remote URL; `None` when no remote is configured,
/// which is not an error. Non-mutating.
pub fn get_git_remote_core(core: &GitUiCore, workspace_id: String) -> (res: Result<
    Option<String>,
    GitOpError,
>)
    ensures
        match resolve_err(*core, workspace_id@) {
            Some(ev) => fails_with(res, ev),
            None => res matches Ok(o) && opt_text_like(o, repo_of(*core, workspace_id@).remote),
        },
{
    let i = match resolve_index(core, workspace_id) {
        Ok(i) => i,
        Err(e) => {
            return Err(e);
        },
    };
    match &core.repos[i].1.remote {
        None => Ok(None),
        Some(u) => Ok(Some(u.clone())),
    }
}

/// A branch listing reads as the repository's catalogue and checked-out
/// branch.
pub open spec fn branches_match(bl: BranchList, r: Repository) -> bool {
    &&& bl.branches@.len() == r.branches@.len()
    &&& (forall|i: int|
        0 <= i < r.branches@.len() ==> (#[trigger] bl.branches@[i])@ == r.branches@[i]@)
    &&& bl.current@ == r.current_branch@
}

/// Lists every branch of the repository and the one checked out.
/// Non-mutating.
pub fn list_git_branches_core(core: &GitUiCore, workspace_id: String) -> (res: Result<
    BranchList,
    GitOpError,
>)
    ensures
        match resolve_err(*core, workspace_id@) {
            Some(ev) => fails_with(res, ev),
            None => res matches Ok(bl) && branches_match(bl, repo_of(*core, workspace_id@)),
        },
{
    let i = match resolve_index(core, workspace_id) {
        Ok(i) => i,
        Err(e) => {
            return Err(e);
        },
    };
    let repo = &core.repos[i].1;
    Ok(BranchList { branches: clone_strings(&repo.branches), current: repo.current_branch.clone() })
}

/// Whether `s` begins with `p`.
pub open spec fn text_starts_with(s: Seq<char>, p: Seq<char>) -> bool {
    p.len() <= s.len() && s.subrange(0, p.len() as int) == p
}

/// Prefix test on strings.
pub fn starts_with_string(s: &String, p: &String) -> (r: bool)
    ensures
        r == text_starts_with(s@, p@),
{
    let ss = s.as_str();
    let ps = p.as_str();
    let sn = ss.unicode_len();
    let pn = ps.unicode_len();
    if pn > sn {
        return false;
    }
    let mut i: usize = 0;
    while i < pn
        invariant
            i <= pn,
            pn <= sn,
            sn == s@.len(),
            pn == p@.len(),
            ss@ == s@,
            ps@ == p@,
            forall|j: int| 0 <= j < i ==> s@[j] == p@[j],
        decreases pn - i,
    {
        if ss.get_char(i) != ps.get_char(i) {
            proof {
                assert(s@.subrange(0, p@.len() as int)[i as int] == s@[i as int]);
            }
            return false;
        }
        i = i + 1;
    }
    proof {
        assert(s@.subrange(0, p@.len() as int) =~= p@);
    }
    true
}

/// How often `c` occurs in `s`.
pub open spec fn count_char_in(s: Seq<char>, c: char) -> nat
    decreases s.len(),
{
    if s.len() == 0 {
        0
    } else {
        count_char_in(s.drop_last(), c) + (if s.last() == c {
            1nat
        } else {
            0nat
        })
    }
}

/// Counts the occurrences of one character.
pub fn count_char_str(s: &str, c: char) -> (r: usize)
    ensures
        r as nat == count_char_in(s@, c),
{
    let n = s.unicode_len();
    let mut r: usize = 0;
    let mut i: usize = 0;
    while i < n
        invariant
            i <= n,
            n == s@.len(),
            r <= i,
            r as nat == count_char_in(s@.take(i as int), c),
        decreases n - i,
    {
        proof {
            assert(s@.take(i as int + 1).drop_last() =~= s@.take(i as int));
            assert(s@.take(i as int + 1).last() == s@[i as int]);
        }
        if s.get_char(i) == c {
            r = r + 1;
        }
        i = i + 1;
    }
    proof {
        assert(s@.take(n as int) =~= s@);
    }
    r
}

/// Whether a known root lies in the listing of a base directory: it must
/// begin with the base, and, when a depth is given, descend at most that
/// many path separators below it.
pub open spec fn root_selected(root: Seq<char>, base: Seq<char>, depth: Option<usize>) -> bool {
    text_starts_with(root, base) && match depth {
        None => true,
        Some(d) => count_char_in(root.skip(base.len() as int), '/') <= d,
    }
}

/// Decides [`root_selected`] on strings.
fn root_selected_exec(root: &String, base: &String, depth: Option<usize>) -> (r: bool)
    ensures
        r == root_selected(root@, base@, depth),
{
    if !starts_with_string(root, base) {
        return false;
    }
    match depth {
        None => true,
        Some(d) => {
            let rs = root.as_str();
            let total = rs.unicode_len();
            let bn = base.as_str().unicode_len();
            let rest = rs.substring_char(bn, total);
            proof {
                assert(rest@ =~= root@.skip(base@.len() as int));
            }
            let cnt = count_char_str(rest, '/');
            cnt <= d
        },
    }
}

/// The roots a listing reports, in table order.
pub open spec fn selected_roots(
    repos: Seq<(String, Repository)>,
    base: Seq<char>,
    depth: Option<usize>,
) -> Seq<Seq<char>>
    decreases repos.len(),
{
    if repos.len() == 0 {
        Seq::<Seq<char>>::empty()
    } else {
        selected_roots(repos.drop_last(), base, depth) + (if root_selected(
            repos.last().0@,
            base,
            depth,
        ) {
            seq![repos.last().0@]
        } else {
            Seq::<Seq<char>>::empty()
        })
    }
}

/// Lists the known repository roots that lie under the workspace's root, in
/// table order, descending at most `depth` separators when a depth is
/// given. The workspace must be registered, but its own root need not be a
/// repository. Non-mutating.
pub fn list_git_roots_core(core: &GitUiCore, workspace_id: String, depth: Option<usize>) -> (res:
    Result<Vec<String>, GitOpError>)
    ensures
        !core.supported ==> fails_with(res, ErrView::PlatformUnsupported),
        core.supported && ws_find(*core, workspace_id@) is None ==> fails_with(
            res,
            ErrView::UnknownWorkspace(workspace_id@),
        ),
        core.supported && ws_find(*core, workspace_id@) is Some ==> (res matches Ok(v)
            && string_views(v@) == selected_roots(core.repos@, ws_root(*core, workspace_id@), depth)),
{
    if !core.supported {
        return Err(GitOpError::PlatformUnsupported);
    }
    let w = match crate::search::assoc_position(&core.workspaces, &workspace_id) {
        Some(w) => w,
        None => {
            return Err(GitOpError::UnknownWorkspace(workspace_id));
        },
    };
    proof {
        crate::search::lemma_find_key_props(pair_keys(core.workspaces@), workspace_id@);
    }
    let base = &core.workspaces[w].1.repo_root;
    let ghost b = base@;
    let mut out: Vec<String> = Vec::new();
    let mut i: usize = 0;
    while i < core.repos.len()
        invariant
            i <= core.repos@.len(),
            b == base@,
            string_views(out@) == selected_roots(core.repos@.take(i as int), b, depth),
        decreases core.repos@.len() - i,
    {
        proof {
            assert(core.repos@.take(i as int + 1).drop_last() =~= core.repos@.take(i as int));
            assert(core.repos@.take(i as int + 1).last() == core.repos@[i as int]);
        }
        if root_selected_exec(&core.repos[i].0, base, depth) {
            out.push(core.repos[i].0.clone());
            proof {
                assert(string_views(out@) =~= selected_roots(
                    core.repos@.take(i as int + 1),
                    b,
                    depth,
                ));
            }
        } else {
            proof {
                assert(string_views(out@) =~= selected_roots(
                    core.repos@.take(i as int + 1),
                    b,
                    depth,
                ));
            }
        }
        i = i + 1;
    }
    proof {
        assert(core.repos@.take(core.repos@.len() as int) =~= core.repos@);
    }
    Ok(out)
}

/// One step of patch concatenation.
proof fn lemma_concat_patches_step(s: Seq<GitFileDiff>, i: int)
    requires
        0 <= i < s.len(),
    ensures
        concat_patches(s.take(i + 1)) == concat_patches(s.take(i)) + s[i].patch@,
{
    assert(s.take(i + 1).drop_last() =~= s.take(i));
    assert(s.take(i + 1).last() == s[i]);
}

/// Collects the whole working-tree diff of the repository at `repo_root` as
/// one text: the staged patches in order, then the unstaged ones. Takes a
/// repository root directly — it is the post-resolution helper the
/// workspace-scoped diff collection builds on. Non-mutating.
pub fn collect_workspace_diff_core(core: &GitUiCore, repo_root: String) -> (res: Result<
    String,
    GitOpError,
>)
    ensures
        !core.supported ==> fails_with(res, ErrView::PlatformUnsupported),
        core.supported ==> match crate::state::root_find(*core, repo_root@) {
            None => fails_with(res, ErrView::InvalidRepository(repo_root@)),
            Some(i) => res matches Ok(s) && s@ == concat_patches(
                core.repos@[i].1.staged@ + core.repos@[i].1.unstaged@,
            ),
        },
{
    if !core.supported {
        return Err(GitOpError::PlatformUnsupported);
    }
    let i = match crate::search::assoc_position(&core.repos, &repo_root) {
        Some(i) => i,
        None => {
            return Err(GitOpError::InvalidRepository(repo_root));
        },
    };
    proof {
        crate::search::lemma_find_key_props(pair_keys(core.repos@), repo_root@);
    }
    let repo = &core.repos[i].1;
    let ghost combined = repo.staged@ + repo.unstaged@;
    let mut acc = String::new();
    let mut k: usize = 0;
    while k < repo.staged.len()
        invariant
            k <= repo.staged@.len(),
            combined == repo.staged@ + repo.unstaged@,
            acc@ == concat_patches(combined.take(k as int)),
        decreases repo.staged@.len() - k,
    {
        proof {
            assert(combined[k as int] == repo.staged@[k as int]);
            lemma_concat_patches_step(combined, k as int);
        }
        acc.append(repo.staged[k].patch.as_str());
        k = k + 1;
    }
    let mut m: usize = 0;
    while m < repo.unstaged.len()
        invariant
            m <= repo.unstaged@.len(),
            combined == repo.staged@ + repo.unstaged@,
            acc@ == concat_patches(combined.take(repo.staged@.len() + m)),
        decreases repo.unstaged@.len() - m,
    {
        proof {
            assert(combined[repo.staged@.len() + m] == repo.unstaged@[m as int]);
            lemma_concat_patches_step(combined, repo.staged@.len() + m as int);
        }
        acc.append(repo.unstaged[m].patch.as_str());
        m = m + 1;
    }
    proof {
        assert(combined.take(combined.len() as int) =~= combined);
    }
    Ok(acc)
}

} // verus!
