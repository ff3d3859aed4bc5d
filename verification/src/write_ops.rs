//! The mutating local operations: staging, reverting, committing, and
//! branch management.
//!
//! Every contract here is relational: it ties the context after the call to
//! the context before it, case by case. On every failure the context is
//! exactly what it was — no operation leaves a half-applied state behind —
//! and every operation preserves the context invariant.

use vstd::prelude::*;
use crate::decimal::dec_seq;
use crate::errors::{ErrView, GitOpError};
use crate::local_ops::fails_with;
use crate::repo::{
    has_path, has_text, same_except_tree, Repository,
};
use crate::state::{
    lemma_remove_insert_update, lemma_update_repo_wf, repo_index, resolve_err, resolve_index,
    same_except_repo, GitUiCore,
};
use crate::types::{ChangeKind, CommitRecord, GitFileDiff};

verus! {

/// What creating a branch does: `BranchExists` if the name is already in
/// the catalogue, else the name is appended and nothing else moves.
pub open spec fn create_branch_post(
    pre: GitUiCore,
    post: GitUiCore,
    id: Seq<char>,
    name: String,
    res: Result<(), GitOpError>,
) -> bool {
    match resolve_err(pre, id) {
        Some(ev) => post == pre && fails_with(res, ev),
        None => {
            let i = repo_index(pre, id);
            let r0 = pre.repos@[i].1;
            let r1 = post.repos@[i].1;
            if has_text(r0.branches@, name@) {
                post == pre && fails_with(res, ErrView::BranchExists(name@))
            } else {
                &&& res is Ok
                &&& same_except_repo(pre, post, i)
                &&& r1.branches@ == r0.branches@.push(name)
                &&& r1.current_branch == r0.current_branch
                &&& r1.commits == r0.commits
                &&& r1.remote == r0.remote
                &&& r1.next_commit_number == r0.next_commit_number
                &&& r1.staged == r0.staged
                &&& r1.unstaged == r0.unstaged
                &&& r1.untracked == r0.untracked
            }
        },
    }
}

/// Creates a branch of the given name; the checked-out branch does not
/// change.
pub fn create_git_branch_core(core: &mut GitUiCore, workspace_id: String, name: String) -> (res:
    Result<(), GitOpError>)
    ensures
        create_branch_post(*old(core), *final(core), workspace_id@, name, res),
        old(core).wf() ==> final(core).wf(),
{
    let i = match resolve_index(core, workspace_id) {
        Ok(i) => i,
        Err(e) => {
            return Err(e);
        },
    };
    if crate::repo::member_string(&core.repos[i].1.branches, &name) {
        return Err(GitOpError::BranchExists(name));
    }
    let (root, mut repo) = core.repos.remove(i);
    let ghost r0 = repo;
    repo.branches.push(name);
    let ghost np = (root, repo);
    core.repos.insert(i, (root, repo));
    proof {
        lemma_remove_insert_update(old(core).repos@, i as int, np);
        if old(core).wf() {
            let r1 = core.repos@[i as int].1;
            assert forall|a: int, b: int|
                0 <= a < b < r1.branches@.len() implies r1.branches@[a]@ != r1.branches@[b]@ by {
                if b < r0.branches@.len() {
                } else {
                    assert(r1.branches@[a] == r0.branches@[a]);
                    assert(!has_text(r0.branches@, name@));
                }
            }
            let w = choose|w: int|
                0 <= w < r0.branches@.len() && r0.branches@[w]@ == r0.current_branch@;
            assert(r1.branches@[w]@ == r1.current_branch@);
            lemma_update_repo_wf(*old(core), *core, i as int);
        }
    }
    Ok(())
}

/// What a checkout does: `BranchNotFound` if the name is not in the
/// catalogue; else `DirtyWorkingTree` if uncommitted changes exist; else
/// only the checked-out branch changes.
pub open spec fn checkout_branch_post(
    pre: GitUiCore,
    post: GitUiCore,
    id: Seq<char>,
    name: String,
    res: Result<(), GitOpError>,
) -> bool {
    match resolve_err(pre, id) {
        Some(ev) => post == pre && fails_with(res, ev),
        None => {
            let i = repo_index(pre, id);
            let r0 = pre.repos@[i].1;
            let r1 = post.repos@[i].1;
            if !has_text(r0.branches@, name@) {
                post == pre && fails_with(res, ErrView::BranchNotFound(name@))
            } else if r0.is_dirty() {
                post == pre && fails_with(res, ErrView::DirtyWorkingTree)
            } else {
                &&& res is Ok
                &&& same_except_repo(pre, post, i)
                &&& r1.current_branch == name
                &&& r1.branches == r0.branches
                &&& r1.commits == r0.commits
                &&& r1.remote == r0.remote
                &&& r1.next_commit_number == r0.next_commit_number
                &&& r1.staged == r0.staged
                &&& r1.unstaged == r0.unstaged
                &&& r1.untracked == r0.untracked
            }
        },
    }
}

/// Checks out an existing branch; refused while the working tree holds
/// uncommitted changes that the switch would clobber.
pub fn checkout_git_branch_core(core: &mut GitUiCore, workspace_id: String, name: String) -> (res:
    Result<(), GitOpError>)
    ensures
        checkout_branch_post(*old(core), *final(core), workspace_id@, name, res),
        old(core).wf() ==> final(core).wf(),
{
    let i = match resolve_index(core, workspace_id) {
        Ok(i) => i,
        Err(e) => {
            return Err(e);
        },
    };
    if !crate::repo::member_string(&core.repos[i].1.branches, &name) {
        return Err(GitOpError::BranchNotFound(name));
    }
    if core.repos[i].1.staged.len() > 0 || core.repos[i].1.unstaged.len() > 0 {
        return Err(GitOpError::DirtyWorkingTree);
    }
    let (root, mut repo) = core.repos.remove(i);
    let ghost r0 = repo;
    repo.current_branch = name;
    let ghost np = (root, repo);
    core.repos.insert(i, (root, repo));
    proof {
        lemma_remove_insert_update(old(core).repos@, i as int, np);
        if old(core).wf() {
            lemma_update_repo_wf(*old(core), *core, i as int);
        }
    }
    Ok(())
}

/// What discarding the whole working tree does: all three sets end empty
/// and everything else keeps its value.
pub open spec fn revert_all_post(
    pre: GitUiCore,
    post: GitUiCore,
    id: Seq<char>,
    res: Result<(), GitOpError>,
) -> bool {
    match resolve_err(pre, id) {
        Some(ev) => post == pre && fails_with(res, ev),
        None => {
            let i = repo_index(pre, id);
            let r0 = pre.repos@[i].1;
            let r1 = post.repos@[i].1;
            &&& res is Ok
            &&& same_except_repo(pre, post, i)
            &&& same_except_tree(r0, r1)
            &&& r1.staged@.len() == 0
            &&& r1.unstaged@.len() == 0
            &&& r1.untracked@.len() == 0
        },
    }
}

/// Discards every staged change, unstaged change and untracked path of the
/// working tree.
pub fn revert_git_all_core(core: &mut GitUiCore, workspace_id: String) -> (res: Result<
    (),
    GitOpError,
>)
    ensures
        revert_all_post(*old(core), *final(core), workspace_id@, res),
        old(core).wf() ==> final(core).wf(),
{
    let i = match resolve_index(core, workspace_id) {
        Ok(i) => i,
        Err(e) => {
            return Err(e);
        },
    };
    let (root, mut repo) = core.repos.remove(i);
    repo.staged.clear();
    repo.unstaged.clear();
    repo.untracked.clear();
    let ghost np = (root, repo);
    core.repos.insert(i, (root, repo));
    proof {
        lemma_remove_insert_update(old(core).repos@, i as int, np);
        if old(core).wf() {
            lemma_update_repo_wf(*old(core), *core, i as int);
        }
    }
    Ok(())
}

/// What staging one path does: an already-staged path is left as it is; an
/// unstaged change moves to the staged set; an untracked path becomes a
/// staged addition; any other path is `PathNotFound`.
pub open spec fn stage_file_post(
    pre: GitUiCore,
    post: GitUiCore,
    id: Seq<char>,
    path: Seq<char>,
    res: Result<(), GitOpError>,
) -> bool {
    match resolve_err(pre, id) {
        Some(ev) => post == pre && fails_with(res, ev),
        None => {
            let i = repo_index(pre, id);
            let r0 = pre.repos@[i].1;
            let r1 = post.repos@[i].1;
            if has_path(r0.staged@, path) {
                post == pre && res is Ok
            } else if has_path(r0.unstaged@, path) {
                &&& res is Ok
                &&& same_except_repo(pre, post, i)
                &&& same_except_tree(r0, r1)
                &&& r1.untracked == r0.untracked
                &&& exists|u: int|
                    0 <= u < r0.unstaged@.len() && r0.unstaged@[u].path@ == path && r1.staged@
                        == r0.staged@.push(r0.unstaged@[u]) && r1.unstaged@ == r0.unstaged@.remove(
                        u,
                    )
            } else if has_text(r0.untracked@, path) {
                &&& res is Ok
                &&& same_except_repo(pre, post, i)
                &&& same_except_tree(r0, r1)
                &&& r1.unstaged == r0.unstaged
                &&& (exists|t: int|
                    0 <= t < r0.untracked@.len() && r0.untracked@[t]@ == path && r1.untracked@
                        == r0.untracked@.remove(t) && r1.staged@ == r0.staged@.push(
                        GitFileDiff {
                            path: r0.untracked@[t],
                            kind: ChangeKind::Added,
                            patch: r1.staged@.last().patch,
                        },
                    ))
                &&& r1.staged@.len() == r0.staged@.len() + 1
                &&& r1.staged@.last().patch@ == Seq::<char>::empty()
            } else {
                post == pre && fails_with(res, ErrView::PathNotFound(path))
            }
        },
    }
}

/// Stages one path for the next commit.
pub fn stage_git_file_core(core: &mut GitUiCore, workspace_id: String, path: String) -> (res: Result<
    (),
    GitOpError,
>)
    ensures
        stage_file_post(*old(core), *final(core), workspace_id@, path@, res),
        old(core).wf() ==> final(core).wf(),
{
    let i = match resolve_index(core, workspace_id) {
        Ok(i) => i,
        Err(e) => {
            return Err(e);
        },
    };
    proof {
        crate::repo::lemma_find_key_path_membership(core.repos@[i as int].1.staged@, path@);
        crate::repo::lemma_find_key_path_membership(core.repos@[i as int].1.unstaged@, path@);
        crate::repo::lemma_find_key_membership(core.repos@[i as int].1.untracked@, path@);
        crate::search::lemma_find_key_props(
            crate::repo::diff_paths(core.repos@[i as int].1.unstaged@),
            path@,
        );
        crate::search::lemma_find_key_props(
            crate::search::string_views(core.repos@[i as int].1.untracked@),
            path@,
        );
    }
    if crate::repo::diff_position(&core.repos[i].1.staged, &path).is_some() {
        return Ok(());
    }
    if let Some(u) = crate::repo::diff_position(&core.repos[i].1.unstaged, &path) {
        let ghost pre = *core;
        let (root, mut repo) = core.repos.remove(i);
        let ghost r0 = repo;
        let d = repo.unstaged.remove(u);
        repo.staged.push(d);
        let ghost np = (root, repo);
        core.repos.insert(i, (root, repo));
        proof {
            lemma_remove_insert_update(pre.repos@, i as int, np);
            assert(crate::repo::diff_paths(r0.unstaged@)[u as int] == r0.unstaged@[u as int].path@);
            if pre.wf() {
                stage_from_unstaged_wf(r0, np.1, path@, u as int);
                lemma_update_repo_wf(pre, *core, i as int);
            }
        }
        return Ok(());
    }
    if let Some(t) = crate::search::string_position(&core.repos[i].1.untracked, &path) {
        let ghost pre = *core;
        let (root, mut repo) = core.repos.remove(i);
        let ghost r0 = repo;
        let p = repo.untracked.remove(t);
        let newd = GitFileDiff { path: p, kind: ChangeKind::Added, patch: String::new() };
        let ghost gd = newd;
        repo.staged.push(newd);
        let ghost np = (root, repo);
        core.repos.insert(i, (root, repo));
        proof {
            lemma_remove_insert_update(pre.repos@, i as int, np);
            assert(crate::search::string_views(r0.untracked@)[t as int] == r0.untracked@[t as int]@);
            if pre.wf() {
                stage_from_untracked_wf(r0, np.1, gd, t as int);
                lemma_update_repo_wf(pre, *core, i as int);
            }
        }
        return Ok(());
    }
    Err(GitOpError::PathNotFound(path))
}

/// Moving an unstaged change into the staged set preserves the repository
/// invariant.
proof fn stage_from_unstaged_wf(r0: Repository, r1: Repository, path: Seq<char>, u: int)
    requires
        r0.wf(),
        0 <= u < r0.unstaged@.len(),
        r0.unstaged@[u].path@ == path,
        !has_path(r0.staged@, path),
        r1.staged@ == r0.staged@.push(r0.unstaged@[u]),
        r1.unstaged@ == r0.unstaged@.remove(u),
        r1.untracked == r0.untracked,
        same_except_tree(r0, r1),
    ensures
        r1.wf(),
{
    let s = r0.staged@;
    let us = r0.unstaged@;
    let t = r0.untracked@;
    let d = us[u];
    crate::repo::lemma_paths_push(s, d);
    crate::repo::lemma_paths_remove(us, u);
    assert forall|a: int, b: int|
        0 <= a < r1.staged@.len() && 0 <= b < r1.unstaged@.len() implies r1.staged@[a].path@
        != r1.unstaged@[b].path@ by {
        let sb: int = if b < u {
            b
        } else {
            b + 1
        };
        assert(r1.unstaged@[b] == us[sb]);
        if a < s.len() {
        } else {
            assert(r1.staged@[a] == d);
            if u < sb {
                assert(us[u].path@ != us[sb].path@);
            } else {
                assert(us[sb].path@ != us[u].path@);
            }
        }
    }
    assert forall|a: int, b: int|
        0 <= a < r1.staged@.len() && 0 <= b < r1.untracked@.len() implies r1.staged@[a].path@
        != r1.untracked@[b]@ by {
        if a < s.len() {
        } else {
            assert(r1.staged@[a] == d);
            assert(us[u].path@ != t[b]@);
        }
    }
    assert forall|a: int, b: int|
        0 <= a < r1.unstaged@.len() && 0 <= b < r1.untracked@.len() implies r1.unstaged@[a].path@
        != r1.untracked@[b]@ by {
        let sa: int = if a < u {
            a
        } else {
            a + 1
        };
        assert(r1.unstaged@[a] == us[sa]);
    }
}

/// Turning an untracked path into a staged addition preserves the
/// repository invariant.
proof fn stage_from_untracked_wf(r0: Repository, r1: Repository, d: GitFileDiff, t: int)
    requires
        r0.wf(),
        0 <= t < r0.untracked@.len(),
        r0.untracked@[t]@ == d.path@,
        !has_path(r0.staged@, d.path@),
        !has_path(r0.unstaged@, d.path@),
        r1.staged@ == r0.staged@.push(d),
        r1.untracked@ == r0.untracked@.remove(t),
        r1.unstaged == r0.unstaged,
        same_except_tree(r0, r1),
    ensures
        r1.wf(),
{
    let path = d.path@;
    let s = r0.staged@;
    let us = r0.unstaged@;
    let tr = r0.untracked@;
    crate::repo::lemma_texts_remove(tr, t);
    crate::repo::lemma_paths_push(s, d);
    assert forall|a: int, b: int|
        0 <= a < r1.staged@.len() && 0 <= b < r1.unstaged@.len() implies r1.staged@[a].path@
        != r1.unstaged@[b].path@ by {
        if a < s.len() {
        } else {
            assert(r1.staged@[a].path@ == path);
        }
    }
    assert forall|a: int, b: int|
        0 <= a < r1.staged@.len() && 0 <= b < r1.untracked@.len() implies r1.staged@[a].path@
        != r1.untracked@[b]@ by {
        let sb: int = if b < t {
            b
        } else {
            b + 1
        };
        assert(r1.untracked@[b] == tr[sb]);
        if a < s.len() {
        } else {
            assert(r1.staged@[a].path@ == path);
            assert(!has_text(r1.untracked@, path));
        }
    }
    assert forall|a: int, b: int|
        0 <= a < r1.unstaged@.len() && 0 <= b < r1.untracked@.len() implies r1.unstaged@[a].path@
        != r1.untracked@[b]@ by {
        let sb: int = if b < t {
            b
        } else {
            b + 1
        };
        assert(r1.untracked@[b] == tr[sb]);
    }
}

/// What unstaging one path does: a staged addition returns to the
/// untracked list, any other staged change returns to the unstaged set; a
/// path that is merely unstaged or untracked is left as it is; any other
/// path is `PathNotFound`.
pub open spec fn unstage_file_post(
    pre: GitUiCore,
    post: GitUiCore,
    id: Seq<char>,
    path: Seq<char>,
    res: Result<(), GitOpError>,
) -> bool {
    match resolve_err(pre, id) {
        Some(ev) => post == pre && fails_with(res, ev),
        None => {
            let i = repo_index(pre, id);
            let r0 = pre.repos@[i].1;
            let r1 = post.repos@[i].1;
            if has_path(r0.staged@, path) {
                &&& res is Ok
                &&& same_except_repo(pre, post, i)
                &&& same_except_tree(r0, r1)
                &&& exists|u: int|
                    0 <= u < r0.staged@.len() && r0.staged@[u].path@ == path && r1.staged@
                        == r0.staged@.remove(u) && (if r0.staged@[u].kind == ChangeKind::Added {
                        r1.unstaged == r0.unstaged && r1.untracked@ == r0.untracked@.push(
                            r0.staged@[u].path,
                        )
                    } else {
                        r1.untracked == r0.untracked && r1.unstaged@ == r0.unstaged@.push(
                            r0.staged@[u],
                        )
                    })
            } else if has_path(r0.unstaged@, path) || has_text(r0.untracked@, path) {
                post == pre && res is Ok
            } else {
                post == pre && fails_with(res, ErrView::PathNotFound(path))
            }
        },
    }
}

/// Takes one path out of the staged set, back to where it came from.
pub fn unstage_git_file_core(core: &mut GitUiCore, workspace_id: String, path: String) -> (res:
    Result<(), GitOpError>)
    ensures
        unstage_file_post(*old(core), *final(core), workspace_id@, path@, res),
        old(core).wf() ==> final(core).wf(),
{
    let i = match resolve_index(core, workspace_id) {
        Ok(i) => i,
        Err(e) => {
            return Err(e);
        },
    };
    proof {
        crate::repo::lemma_find_key_path_membership(core.repos@[i as int].1.staged@, path@);
        crate::repo::lemma_find_key_path_membership(core.repos@[i as int].1.unstaged@, path@);
        crate::repo::lemma_find_key_membership(core.repos@[i as int].1.untracked@, path@);
        crate::search::lemma_find_key_props(
            crate::repo::diff_paths(core.repos@[i as int].1.staged@),
            path@,
        );
    }
    if let Some(u) = crate::repo::diff_position(&core.repos[i].1.staged, &path) {
        let ghost pre = *core;
        let (root, mut repo) = core.repos.remove(i);
        let ghost r0 = repo;
        let d = repo.staged.remove(u);
        if d.kind == ChangeKind::Added {
            repo.untracked.push(d.path);
        } else {
            repo.unstaged.push(d);
        }
        let ghost np = (root, repo);
        core.repos.insert(i, (root, repo));
        proof {
            lemma_remove_insert_update(pre.repos@, i as int, np);
            assert(crate::repo::diff_paths(r0.staged@)[u as int] == r0.staged@[u as int].path@);
            if pre.wf() {
                unstage_wf(r0, np.1, path@, u as int);
                lemma_update_repo_wf(pre, *core, i as int);
            }
        }
        return Ok(());
    }
    let in_unstaged = crate::repo::diff_position(&core.repos[i].1.unstaged, &path).is_some();
    let in_untracked = crate::search::string_position(&core.repos[i].1.untracked, &path).is_some();
    if in_unstaged || in_untracked {
        Ok(())
    } else {
        Err(GitOpError::PathNotFound(path))
    }
}

/// Returning a staged change to the unstaged set or the untracked list
/// preserves the repository invariant.
proof fn unstage_wf(r0: Repository, r1: Repository, path: Seq<char>, u: int)
    requires
        r0.wf(),
        0 <= u < r0.staged@.len(),
        r0.staged@[u].path@ == path,
        r1.staged@ == r0.staged@.remove(u),
        if r0.staged@[u].kind == ChangeKind::Added {
            r1.unstaged == r0.unstaged && r1.untracked@ == r0.untracked@.push(r0.staged@[u].path)
        } else {
            r1.untracked == r0.untracked && r1.unstaged@ == r0.unstaged@.push(r0.staged@[u])
        },
        same_except_tree(r0, r1),
    ensures
        r1.wf(),
{
    let s = r0.staged@;
    let us = r0.unstaged@;
    let tr = r0.untracked@;
    let d = s[u];
    crate::repo::lemma_paths_remove(s, u);
    if d.kind == ChangeKind::Added {
        assert forall|a: int, b: int|
            0 <= a < b < r1.untracked@.len() implies r1.untracked@[a]@ != r1.untracked@[b]@ by {
            if b < tr.len() {
            } else {
                assert(r1.untracked@[b]@ == path);
                assert(r1.untracked@[a] == tr[a]);
            }
        }
        assert forall|a: int, b: int|
            0 <= a < r1.staged@.len() && 0 <= b < r1.untracked@.len() implies r1.staged@[a].path@
            != r1.untracked@[b]@ by {
            if b < tr.len() {
                assert(r1.untracked@[b] == tr[b]);
            } else {
                assert(r1.untracked@[b]@ == path);
                assert(!has_path(r1.staged@, path));
            }
        }
        assert forall|a: int, b: int|
            0 <= a < r1.unstaged@.len() && 0 <= b < r1.untracked@.len() implies r1.unstaged@[a].path@
            != r1.untracked@[b]@ by {
            if b < tr.len() {
                assert(r1.untracked@[b] == tr[b]);
            } else {
                assert(r1.untracked@[b]@ == path);
            }
        }
        assert forall|a: int, b: int|
            0 <= a < r1.staged@.len() && 0 <= b < r1.unstaged@.len() implies r1.staged@[a].path@
            != r1.unstaged@[b].path@ by {}
    } else {
        assert forall|a: int, b: int|
            0 <= a < b < r1.unstaged@.len() implies r1.unstaged@[a].path@ != r1.unstaged@[b].path@ by {
            if b < us.len() {
            } else {
                assert(r1.unstaged@[b].path@ == path);
                assert(r1.unstaged@[a] == us[a]);
            }
        }
        assert forall|a: int, b: int|
            0 <= a < r1.staged@.len() && 0 <= b < r1.unstaged@.len() implies r1.staged@[a].path@
            != r1.unstaged@[b].path@ by {
            if b < us.len() {
                assert(r1.unstaged@[b] == us[b]);
            } else {
                assert(r1.unstaged@[b].path@ == path);
                assert(!has_path(r1.staged@, path));
            }
        }
        assert forall|a: int, b: int|
            0 <= a < r1.unstaged@.len() && 0 <= b < r1.untracked@.len() implies r1.unstaged@[a].path@
            != r1.untracked@[b]@ by {
            if a < us.len() {
                assert(r1.unstaged@[a] == us[a]);
            } else {
                assert(r1.unstaged@[a].path@ == path);
            }
        }
    }
}

/// What discarding one path does: the path leaves whichever working-tree
/// set holds it — staged first, then unstaged, then untracked — and any
/// other path is `PathNotFound`.
pub open spec fn revert_file_post(
    pre: GitUiCore,
    post: GitUiCore,
    id: Seq<char>,
    path: Seq<char>,
    res: Result<(), GitOpError>,
) -> bool {
    match resolve_err(pre, id) {
        Some(ev) => post == pre && fails_with(res, ev),
        None => {
            let i = repo_index(pre, id);
            let r0 = pre.repos@[i].1;
            let r1 = post.repos@[i].1;
            if has_path(r0.staged@, path) {
                &&& res is Ok
                &&& same_except_repo(pre, post, i)
                &&& same_except_tree(r0, r1)
                &&& r1.unstaged == r0.unstaged
                &&& r1.untracked == r0.untracked
                &&& exists|u: int|
                    0 <= u < r0.staged@.len() && r0.staged@[u].path@ == path && r1.staged@
                        == r0.staged@.remove(u)
            } else if has_path(r0.unstaged@, path) {
                &&& res is Ok
                &&& same_except_repo(pre, post, i)
                &&& same_except_tree(r0, r1)
                &&& r1.staged == r0.staged
                &&& r1.untracked == r0.untracked
                &&& exists|u: int|
                    0 <= u < r0.unstaged@.len() && r0.unstaged@[u].path@ == path && r1.unstaged@
                        == r0.unstaged@.remove(u)
            } else if has_text(r0.untracked@, path) {
                &&& res is Ok
                &&& same_except_repo(pre, post, i)
                &&& same_except_tree(r0, r1)
                &&& r1.staged == r0.staged
                &&& r1.unstaged == r0.unstaged
                &&& exists|t: int|
                    0 <= t < r0.untracked@.len() && r0.untracked@[t]@ == path && r1.untracked@
                        == r0.untracked@.remove(t)
            } else {
                post == pre && fails_with(res, ErrView::PathNotFound(path))
            }
        },
    }
}

/// Discards the recorded change of one path, wherever it stands.
pub fn revert_git_file_core(core: &mut GitUiCore, workspace_id: String, path: String) -> (res:
    Result<(), GitOpError>)
    ensures
        revert_file_post(*old(core), *final(core), workspace_id@, path@, res),
        old(core).wf() ==> final(core).wf(),
{
    let i = match resolve_index(core, workspace_id) {
        Ok(i) => i,
        Err(e) => {
            return Err(e);
        },
    };
    proof {
        crate::repo::lemma_find_key_path_membership(core.repos@[i as int].1.staged@, path@);
        crate::repo::lemma_find_key_path_membership(core.repos@[i as int].1.unstaged@, path@);
        crate::repo::lemma_find_key_membership(core.repos@[i as int].1.untracked@, path@);
        crate::search::lemma_find_key_props(
            crate::repo::diff_paths(core.repos@[i as int].1.staged@),
            path@,
        );
        crate::search::lemma_find_key_props(
            crate::repo::diff_paths(core.repos@[i as int].1.unstaged@),
            path@,
        );
        crate::search::lemma_find_key_props(
            crate::search::string_views(core.repos@[i as int].1.untracked@),
            path@,
        );
    }
    if let Some(u) = crate::repo::diff_position(&core.repos[i].1.staged, &path) {
        let ghost pre = *core;
        let (root, mut repo) = core.repos.remove(i);
        let ghost r0 = repo;
        let _ = repo.staged.remove(u);
        let ghost np = (root, repo);
        core.repos.insert(i, (root, repo));
        proof {
            lemma_remove_insert_update(pre.repos@, i as int, np);
            assert(crate::repo::diff_paths(r0.staged@)[u as int] == r0.staged@[u as int].path@);
            if pre.wf() {
                crate::repo::lemma_paths_remove(r0.staged@, u as int);
                remove_only_wf(r0, np.1);
                lemma_update_repo_wf(pre, *core, i as int);
            }
        }
        return Ok(());
    }
    if let Some(u) = crate::repo::diff_position(&core.repos[i].1.unstaged, &path) {
        let ghost pre = *core;
        let (root, mut repo) = core.repos.remove(i);
        let ghost r0 = repo;
        let _ = repo.unstaged.remove(u);
        let ghost np = (root, repo);
        core.repos.insert(i, (root, repo));
        proof {
            lemma_remove_insert_update(pre.repos@, i as int, np);
            assert(crate::repo::diff_paths(r0.unstaged@)[u as int] == r0.unstaged@[u as int].path@);
            if pre.wf() {
                crate::repo::lemma_paths_remove(r0.unstaged@, u as int);
                remove_only_wf(r0, np.1);
                lemma_update_repo_wf(pre, *core, i as int);
            }
        }
        return Ok(());
    }
    if let Some(t) = crate::search::string_position(&core.repos[i].1.untracked, &path) {
        let ghost pre = *core;
        let (root, mut repo) = core.repos.remove(i);
        let ghost r0 = repo;
        let _ = repo.untracked.remove(t);
        let ghost np = (root, repo);
        core.repos.insert(i, (root, repo));
        proof {
            lemma_remove_insert_update(pre.repos@, i as int, np);
            assert(crate::search::string_views(r0.untracked@)[t as int] == r0.untracked@[t as int]@);
            if pre.wf() {
                crate::repo::lemma_texts_remove(r0.untracked@, t as int);
                remove_only_wf(r0, np.1);
                lemma_update_repo_wf(pre, *core, i as int);
            }
        }
        return Ok(());
    }
    Err(GitOpError::PathNotFound(path))
}

/// Shrinking working-tree sets preserves the repository invariant: each set
/// after the call holds only records it held before.
proof fn remove_only_wf(r0: Repository, r1: Repository)
    requires
        r0.wf(),
        same_except_tree(r0, r1),
        r1.staged@ == r0.staged@ || (exists|u: int|
            0 <= u < r0.staged@.len() && r1.staged@ == r0.staged@.remove(u)),
        r1.unstaged@ == r0.unstaged@ || (exists|u: int|
            0 <= u < r0.unstaged@.len() && r1.unstaged@ == r0.unstaged@.remove(u)),
        r1.untracked@ == r0.untracked@ || (exists|t: int|
            0 <= t < r0.untracked@.len() && r1.untracked@ == r0.untracked@.remove(t)),
    ensures
        r1.wf(),
{
    assert forall|a: int| #![trigger r1.staged@[a]]
        0 <= a < r1.staged@.len() implies exists|b: int|
        0 <= b < r0.staged@.len() && r1.staged@[a] == #[trigger] r0.staged@[b] by {
        if r1.staged@ == r0.staged@ {
            assert(r1.staged@[a] == r0.staged@[a]);
        } else {
            let u = choose|u: int|
                0 <= u < r0.staged@.len() && r1.staged@ == r0.staged@.remove(u);
            let b: int = if a < u {
                a
            } else {
                a + 1
            };
            assert(r1.staged@[a] == r0.staged@[b]);
        }
    }
    assert forall|a: int| #![trigger r1.unstaged@[a]]
        0 <= a < r1.unstaged@.len() implies exists|b: int|
        0 <= b < r0.unstaged@.len() && r1.unstaged@[a] == #[trigger] r0.unstaged@[b] by {
        if r1.unstaged@ == r0.unstaged@ {
            assert(r1.unstaged@[a] == r0.unstaged@[a]);
        } else {
            let u = choose|u: int|
                0 <= u < r0.unstaged@.len() && r1.unstaged@ == r0.unstaged@.remove(u);
            let b: int = if a < u {
                a
            } else {
                a + 1
            };
            assert(r1.unstaged@[a] == r0.unstaged@[b]);
        }
    }
    assert forall|a: int| #![trigger r1.untracked@[a]]
        0 <= a < r1.untracked@.len() implies exists|b: int|
        0 <= b < r0.untracked@.len() && r1.untracked@[a] == #[trigger] r0.untracked@[b] by {
        if r1.untracked@ == r0.untracked@ {
            assert(r1.untracked@[a] == r0.untracked@[a]);
        } else {
            let t = choose|t: int|
                0 <= t < r0.untracked@.len() && r1.untracked@ == r0.untracked@.remove(t);
            let b: int = if a < t {
                a
            } else {
                a + 1
            };
            assert(r1.untracked@[a] == r0.untracked@[b]);
        }
    }
    if r1.staged@ != r0.staged@ {
        let u = choose|u: int| 0 <= u < r0.staged@.len() && r1.staged@ == r0.staged@.remove(u);
        crate::repo::lemma_paths_remove(r0.staged@, u);
    }
    if r1.unstaged@ != r0.unstaged@ {
        let u = choose|u: int|
            0 <= u < r0.unstaged@.len() && r1.unstaged@ == r0.unstaged@.remove(u);
        crate::repo::lemma_paths_remove(r0.unstaged@, u);
    }
    if r1.untracked@ != r0.untracked@ {
        let t = choose|t: int|
            0 <= t < r0.untracked@.len() && r1.untracked@ == r0.untracked@.remove(t);
        crate::repo::lemma_texts_remove(r0.untracked@, t);
    }
    assert forall|a: int, b: int|
        0 <= a < r1.staged@.len() && 0 <= b < r1.unstaged@.len() implies r1.staged@[a].path@
        != r1.unstaged@[b].path@ by {
        let x = choose|x: int| 0 <= x < r0.staged@.len() && r1.staged@[a] == r0.staged@[x];
        let y = choose|y: int| 0 <= y < r0.unstaged@.len() && r1.unstaged@[b] == r0.unstaged@[y];
        assert(r0.staged@[x].path@ != r0.unstaged@[y].path@);
    }
    assert forall|a: int, b: int|
        0 <= a < r1.staged@.len() && 0 <= b < r1.untracked@.len() implies r1.staged@[a].path@
        != r1.untracked@[b]@ by {
        let x = choose|x: int| 0 <= x < r0.staged@.len() && r1.staged@[a] == r0.staged@[x];
        let y = choose|y: int| 0 <= y < r0.untracked@.len() && r1.untracked@[b] == r0.untracked@[y];
        assert(r0.staged@[x].path@ != r0.untracked@[y]@);
    }
    assert forall|a: int, b: int|
        0 <= a < r1.unstaged@.len() && 0 <= b < r1.untracked@.len() implies r1.unstaged@[a].path@
        != r1.untracked@[b]@ by {
        let x = choose|x: int| 0 <= x < r0.unstaged@.len() && r1.unstaged@[a] == r0.unstaged@[x];
        let y = choose|y: int| 0 <= y < r0.untracked@.len() && r1.untracked@[b] == r0.untracked@[y];
        assert(r0.unstaged@[x].path@ != r0.untracked@[y]@);
    }
}

/// What staging everything does: the staged set is extended by every
/// unstaged change in order, then by an addition record for every untracked
/// path in order; the unstaged and untracked sets end empty. On an already
/// clean tree this succeeds and stages nothing.
pub open spec fn stage_all_post(
    pre: GitUiCore,
    post: GitUiCore,
    id: Seq<char>,
    res: Result<(), GitOpError>,
) -> bool {
    match resolve_err(pre, id) {
        Some(ev) => post == pre && fails_with(res, ev),
        None => {
            let i = repo_index(pre, id);
            let r0 = pre.repos@[i].1;
            let r1 = post.repos@[i].1;
            let a = r0.staged@.len() as int;
            let b = r0.unstaged@.len() as int;
            let c = r0.untracked@.len() as int;
            &&& res is Ok
            &&& same_except_repo(pre, post, i)
            &&& same_except_tree(r0, r1)
            &&& r1.unstaged@.len() == 0
            &&& r1.untracked@.len() == 0
            &&& r1.staged@.len() == a + b + c
            &&& (forall|j: int| 0 <= j < a ==> #[trigger] r1.staged@[j] == r0.staged@[j])
            &&& (forall|j: int| 0 <= j < b ==> #[trigger] r1.staged@[a + j] == r0.unstaged@[j])
            &&& (forall|j: int|
                0 <= j < c ==> {
                    let e = #[trigger] r1.staged@[a + b + j];
                    e.path@ == r0.untracked@[j]@ && e.kind == ChangeKind::Added && e.patch@
                        == Seq::<char>::empty()
                })
        },
    }
}

/// Stages every unstaged change and every untracked path, atomically from
/// the caller's point of view.
pub fn stage_git_all_core(core: &mut GitUiCore, workspace_id: String) -> (res: Result<
    (),
    GitOpError,
>)
    ensures
        stage_all_post(*old(core), *final(core), workspace_id@, res),
        old(core).wf() ==> final(core).wf(),
{
    let i = match resolve_index(core, workspace_id) {
        Ok(i) => i,
        Err(e) => {
            return Err(e);
        },
    };
    let ghost pre = *core;
    let (root, mut repo) = core.repos.remove(i);
    let ghost r0 = repo;
    let ghost a = r0.staged@.len() as int;
    let ghost b = r0.unstaged@.len() as int;
    let ghost c = r0.untracked@.len() as int;
    repo.staged.append(&mut repo.unstaged);
    let tn = repo.untracked.len();
    let mut k: usize = 0;
    while k < tn
        invariant
            k <= tn,
            tn == c,
            a == r0.staged@.len(),
            b == r0.unstaged@.len(),
            c == r0.untracked@.len(),
            repo.untracked == r0.untracked,
            repo.staged@.len() == a + b + k,
            repo.unstaged@.len() == 0,
            repo.commits == r0.commits,
            repo.branches == r0.branches,
            repo.current_branch == r0.current_branch,
            repo.remote == r0.remote,
            repo.next_commit_number == r0.next_commit_number,
            forall|j: int| 0 <= j < a ==> #[trigger] repo.staged@[j] == r0.staged@[j],
            forall|j: int| 0 <= j < b ==> #[trigger] repo.staged@[a + j] == r0.unstaged@[j],
            forall|j: int|
                0 <= j < k ==> {
                    let e = #[trigger] repo.staged@[a + b + j];
                    e.path@ == r0.untracked@[j]@ && e.kind == ChangeKind::Added && e.patch@
                        == Seq::<char>::empty()
                },
        decreases tn - k,
    {
        proof {
            assert(repo.untracked@.len() == r0.untracked@.len());
        }
        let p = repo.untracked[k].clone();
        repo.staged.push(GitFileDiff { path: p, kind: ChangeKind::Added, patch: String::new() });
        k = k + 1;
    }
    repo.untracked.clear();
    let ghost np = (root, repo);
    core.repos.insert(i, (root, repo));
    proof {
        lemma_remove_insert_update(pre.repos@, i as int, np);
        if pre.wf() {
            stage_all_wf(r0, np.1);
            lemma_update_repo_wf(pre, *core, i as int);
        }
    }
    Ok(())
}

/// Staging the whole tree preserves the repository invariant: the three
/// zones of the new staged set came from three pairwise disjoint,
/// duplicate-free sets.
proof fn stage_all_wf(r0: Repository, r1: Repository)
    requires
        r0.wf(),
        same_except_tree(r0, r1),
        r1.unstaged@.len() == 0,
        r1.untracked@.len() == 0,
        r1.staged@.len() == r0.staged@.len() + r0.unstaged@.len() + r0.untracked@.len(),
        forall|j: int| 0 <= j < r0.staged@.len() ==> #[trigger] r1.staged@[j] == r0.staged@[j],
        forall|j: int|
            0 <= j < r0.unstaged@.len() ==> #[trigger] r1.staged@[r0.staged@.len() + j]
                == r0.unstaged@[j],
        forall|j: int|
            0 <= j < r0.untracked@.len() ==> (#[trigger] r1.staged@[r0.staged@.len()
                + r0.unstaged@.len() + j]).path@ == r0.untracked@[j]@,
    ensures
        r1.wf(),
{
    let a = r0.staged@.len() as int;
    let b = r0.unstaged@.len() as int;
    let c = r0.untracked@.len() as int;
    assert forall|x: int, y: int|
        0 <= x < y < r1.staged@.len() implies r1.staged@[x].path@ != r1.staged@[y].path@ by {
        if x < a {
            assert(r1.staged@[x] == r0.staged@[x]);
        } else if x < a + b {
            assert(r1.staged@[a + (x - a)] == r0.unstaged@[x - a]);
        } else {
            assert(r1.staged@[a + b + (x - a - b)].path@ == r0.untracked@[x - a - b]@);
        }
        if y < a {
            assert(r1.staged@[y] == r0.staged@[y]);
        } else if y < a + b {
            assert(r1.staged@[a + (y - a)] == r0.unstaged@[y - a]);
        } else {
            assert(r1.staged@[a + b + (y - a - b)].path@ == r0.untracked@[y - a - b]@);
        }
    }
}

/// A character that a blank commit message may consist of.
pub open spec fn space_char(c: char) -> bool {
    c == ' ' || c == '\t' || c == '\n' || c == '\r'
}

/// A message is blank when every character is whitespace (so in particular
/// when it is empty).
pub open spec fn blank_text(s: Seq<char>) -> bool {
    forall|i: int| 0 <= i < s.len() ==> space_char(#[trigger] s[i])
}

/// Decides [`blank_text`].
pub fn is_blank(s: &String) -> (r: bool)
    ensures
        r == blank_text(s@),
{
    let ss = s.as_str();
    let n = ss.unicode_len();
    let mut i: usize = 0;
    while i < n
        invariant
            i <= n,
            n == s@.len(),
            ss@ == s@,
            forall|j: int| 0 <= j < i ==> space_char(#[trigger] s@[j]),
        decreases n - i,
    {
        let c = ss.get_char(i);
        if !(c == ' ' || c == '\t' || c == '\n' || c == '\r') {
            return false;
        }
        i = i + 1;
    }
    true
}

/// What committing does: `EmptyMessage` on a blank message, then
/// `NothingToCommit` on an empty staged set; otherwise the staged set moves
/// wholesale into a new most-recent commit whose identifier and timestamp
/// come from the repository's counter, and the counter advances (saturating
/// at its maximum).
pub open spec fn commit_post(
    pre: GitUiCore,
    post: GitUiCore,
    id: Seq<char>,
    message: String,
    res: Result<(), GitOpError>,
) -> bool {
    match resolve_err(pre, id) {
        Some(ev) => post == pre && fails_with(res, ev),
        None => {
            let i = repo_index(pre, id);
            let r0 = pre.repos@[i].1;
            let r1 = post.repos@[i].1;
            if blank_text(message@) {
                post == pre && fails_with(res, ErrView::EmptyMessage)
            } else if r0.staged@.len() == 0 {
                post == pre && fails_with(res, ErrView::NothingToCommit)
            } else {
                &&& res is Ok
                &&& same_except_repo(pre, post, i)
                &&& r1.commits@ == r0.commits@.insert(0, r1.commits@[0])
                &&& {
                    let c = r1.commits@[0];
                    &&& c.sha@ == dec_seq(r0.next_commit_number as nat)
                    &&& c.author@ == pre.settings.commit_author@
                    &&& c.timestamp == r0.next_commit_number
                    &&& c.message == message
                    &&& c.files == r0.staged
                }
                &&& r1.staged@.len() == 0
                &&& r1.unstaged == r0.unstaged
                &&& r1.untracked == r0.untracked
                &&& r1.branches == r0.branches
                &&& r1.current_branch == r0.current_branch
                &&& r1.remote == r0.remote
                &&& r1.next_commit_number as int == (if r0.next_commit_number < u64::MAX {
                    r0.next_commit_number + 1
                } else {
                    r0.next_commit_number as int
                })
            }
        },
    }
}

/// Commits the staged set with the given message, authored by the
/// configured commit author.
pub fn commit_git_core(core: &mut GitUiCore, workspace_id: String, message: String) -> (res: Result<
    (),
    GitOpError,
>)
    ensures
        commit_post(*old(core), *final(core), workspace_id@, message, res),
        old(core).wf() ==> final(core).wf(),
{
    let i = match resolve_index(core, workspace_id) {
        Ok(i) => i,
        Err(e) => {
            return Err(e);
        },
    };
    if is_blank(&message) {
        return Err(GitOpError::EmptyMessage);
    }
    if core.repos[i].1.staged.len() == 0 {
        return Err(GitOpError::NothingToCommit);
    }
    let author = core.settings.commit_author.clone();
    let (root, repo) = core.repos.remove(i);
    let Repository {
        staged,
        unstaged,
        untracked,
        mut commits,
        branches,
        current_branch,
        remote,
        next_commit_number,
    } = repo;
    let sha = crate::decimal::dec_string(next_commit_number);
    let rec = CommitRecord {
        sha,
        author,
        timestamp: next_commit_number,
        message,
        files: staged,
    };
    commits.insert(0, rec);
    let advanced: u64 = if next_commit_number < u64::MAX {
        next_commit_number + 1
    } else {
        next_commit_number
    };
    let repo2 = Repository {
        staged: Vec::new(),
        unstaged,
        untracked,
        commits,
        branches,
        current_branch,
        remote,
        next_commit_number: advanced,
    };
    let ghost np = (root, repo2);
    core.repos.insert(i, (root, repo2));
    proof {
        lemma_remove_insert_update(old(core).repos@, i as int, np);
        let r1 = core.repos@[i as int].1;
        assert(r1.commits@[0] == np.1.commits@[0]);
        if old(core).wf() {
            lemma_update_repo_wf(*old(core), *core, i as int);
        }
    }
    Ok(())
}

} // verus!
