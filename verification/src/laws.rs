//! The cross-cutting guarantees of the façade, proved once over the
//! operation contracts.

use vstd::prelude::*;
use crate::errors::ErrView;
use crate::local_ops::{fails_with, log_matches};
use crate::repo::has_text;
use crate::search::pair_keys;
use crate::state::{repo_index, repo_of, resolve_err, ws_find, GitUiCore};
use crate::types::{CommitSummary, GitLogResponse};
use crate::write_ops::{blank_text, commit_post, create_branch_post};

verus! {

/// On a platform the capability gate reports unsupported, the resolution
/// chain of every operation rejects every request with the one fixed
/// unsupported error, before any registry lookup can matter.
pub proof fn lemma_gate_wins(c: GitUiCore, id: Seq<char>)
    requires
        !c.supported,
    ensures
        resolve_err(c, id) == Some(ErrView::PlatformUnsupported),
        crate::hosting_ops::hosting_err(c, id) == Some(ErrView::PlatformUnsupported),
{
}

/// A workspace identifier absent from the registry makes the resolution
/// chain of every workspace-scoped operation reject the request as
/// `UnknownWorkspace`, never silently defaulting.
pub proof fn lemma_unknown_workspace(c: GitUiCore, id: Seq<char>)
    requires
        c.supported,
        ws_find(c, id) is None,
    ensures
        resolve_err(c, id) == Some(ErrView::UnknownWorkspace(id)),
        crate::hosting_ops::hosting_err(c, id) == Some(ErrView::UnknownWorkspace(id)),
{
}

/// A commit against an empty staged set reports `NothingToCommit` and
/// leaves the whole context — the working tree included — exactly as it
/// was.
pub proof fn lemma_commit_nothing_to_commit(
    pre: GitUiCore,
    post: GitUiCore,
    id: Seq<char>,
    message: String,
    res: Result<(), crate::errors::GitOpError>,
)
    requires
        resolve_err(pre, id) is None,
        !blank_text(message@),
        repo_of(pre, id).staged@.len() == 0,
        commit_post(pre, post, id, message, res),
    ensures
        post == pre,
        fails_with(res, ErrView::NothingToCommit),
{
}

/// Two successive branch creations under one name: the first succeeded, so
/// the second reports `BranchExists` and leaves the context — the branch
/// list in particular — exactly as the first call left it.
pub proof fn lemma_create_branch_twice(
    c0: GitUiCore,
    c1: GitUiCore,
    c2: GitUiCore,
    id: Seq<char>,
    name1: String,
    name2: String,
    res1: Result<(), crate::errors::GitOpError>,
    res2: Result<(), crate::errors::GitOpError>,
)
    requires
        name2@ == name1@,
        create_branch_post(c0, c1, id, name1, res1),
        create_branch_post(c1, c2, id, name2, res2),
        res1 is Ok,
    ensures
        c2 == c1,
        fails_with(res2, ErrView::BranchExists(name1@)),
{
    let i = repo_index(c0, id);
    assert(pair_keys(c1.repos@) =~= pair_keys(c0.repos@));
    assert(resolve_err(c1, id) is None);
    assert(repo_index(c1, id) == i);
    let r1 = c1.repos@[i].1;
    let n = c0.repos@[i].1.branches@.len() as int;
    assert(r1.branches@[n] == name1);
    assert(has_text(r1.branches@, name2@));
}

/// One log request is bounded by its limit, reads most-recent-first, and is
/// repeatable: two responses drawn from the same context under the same
/// limit carry identical summary sequences.
pub proof fn lemma_log_bounded_and_repeatable(
    c: GitUiCore,
    id: Seq<char>,
    limit: usize,
    r1: GitLogResponse,
    r2: GitLogResponse,
)
    requires
        resolve_err(c, id) is None,
        log_matches(r1, repo_of(c, id), limit as int),
        log_matches(r2, repo_of(c, id), limit as int),
    ensures
        r1.commits@.len() <= limit,
        r1.commits@.len() == r2.commits@.len(),
        forall|k: int|
            0 <= k < r1.commits@.len() ==> summaries_like(
                #[trigger] r1.commits@[k],
                r2.commits@[k],
            ),
{
}

/// Two commit summaries that read the same.
pub open spec fn summaries_like(a: CommitSummary, b: CommitSummary) -> bool {
    a.sha@ == b.sha@ && a.author@ == b.author@ && a.timestamp == b.timestamp && a.message@
        == b.message@
}

} // verus!
