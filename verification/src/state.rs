//! The explicitly passed façade context: capability flag, workspace
//! registry, repository table, and application settings.
//!
//! Every operation runs through the same chokepoint: the capability gate
//! first, then the resolver, which turns a workspace identifier into the
//! index of its repository. [`resolve_err`] is the one spec-level account of
//! that chain; each operation's contract defers to it for the error
//! cases, so the unsupported-platform error always wins and an unknown
//! workspace is never conflated with a missing repository.

use vstd::prelude::*;
use crate::errors::{ErrView, GitOpError};
use crate::repo::Repository;
use crate::search::{find_key, pair_keys};
use crate::types::{AppSettings, WorkspaceEntry};

verus! {

/// No two keys read the same.
pub open spec fn keys_distinct(s: Seq<Seq<char>>) -> bool {
    forall|i: int, j: int| 0 <= i < j < s.len() ==> s[i] != s[j]
}

/// The façade context. The host application owns it (behind whatever lock
/// it chooses) and passes it to every operation.
pub struct GitUiCore {
    /// Whether the platform supports local repository and network access.
    /// Fixed at startup; when false, every operation short-circuits.
    pub supported: bool,
    /// The workspace registry: identifier to identity record, in the order
    /// the host opened the workspaces.
    pub workspaces: Vec<(String, WorkspaceEntry)>,
    /// The known repositories, keyed by their root path.
    pub repos: Vec<(String, Repository)>,
    /// Process-wide configuration.
    pub settings: AppSettings,
}

impl GitUiCore {
    /// Registry keys are duplicate-free and every repository is
    /// well-formed.
    pub open spec fn wf(self) -> bool {
        &&& keys_distinct(pair_keys(self.workspaces@))
        &&& keys_distinct(pair_keys(self.repos@))
        &&& forall|i: int| 0 <= i < self.repos@.len() ==> (#[trigger] self.repos@[i].1).wf()
    }

    /// An empty context: no workspaces, no repositories, default settings.
    pub fn new(supported: bool) -> (r: GitUiCore)
        ensures
            r.wf(),
            r.supported == supported,
            r.workspaces@.len() == 0,
            r.repos@.len() == 0,
            r.settings.github_token is None,
            r.settings.commit_author@ == Seq::<char>::empty(),
            r.settings.default_log_limit == 100,
    {
        GitUiCore {
            supported,
            workspaces: Vec::new(),
            repos: Vec::new(),
            settings: AppSettings {
                github_token: None,
                commit_author: String::new(),
                default_log_limit: 100,
            },
        }
    }
}

/// The registry position of a workspace identifier.
pub open spec fn ws_find(c: GitUiCore, id: Seq<char>) -> Option<int> {
    find_key(pair_keys(c.workspaces@), id)
}

/// The recorded repository root of a registered workspace.
pub open spec fn ws_root(c: GitUiCore, id: Seq<char>) -> Seq<char> {
    c.workspaces@[ws_find(c, id).unwrap()].1.repo_root@
}

/// The table position of a repository root.
pub open spec fn root_find(c: GitUiCore, root: Seq<char>) -> Option<int> {
    find_key(pair_keys(c.repos@), root)
}

/// The rejection, if any: platform support comes first, then registry
/// membership, then that the recorded root still denotes a repository.
pub open spec fn resolve_err(c: GitUiCore, id: Seq<char>) -> Option<ErrView> {
    if !c.supported {
        Some(ErrView::PlatformUnsupported)
    } else {
        match ws_find(c, id) {
            None => Some(ErrView::UnknownWorkspace(id)),
            Some(_) => match root_find(c, ws_root(c, id)) {
                None => Some(ErrView::InvalidRepository(ws_root(c, id))),
                Some(_) => None,
            },
        }
    }
}

/// The repository table index a fully resolvable workspace denotes.
pub open spec fn repo_index(c: GitUiCore, id: Seq<char>) -> int {
    root_find(c, ws_root(c, id)).unwrap()
}

/// The repository a fully resolvable workspace denotes.
pub open spec fn repo_of(c: GitUiCore, id: Seq<char>) -> Repository {
    c.repos@[repo_index(c, id)].1
}

/// What resolving to an index returns: the chain's error, or the
/// repository table index.
pub open spec fn resolve_index_post(c: GitUiCore, id: Seq<char>, r: Result<usize, GitOpError>) -> bool {
    match resolve_err(c, id) {
        Some(ev) => r matches Err(e) && e@ == ev,
        None => r matches Ok(i) && i as int == repo_index(c, id) && (i as int) < c.repos@.len(),
    }
}

/// Gate, then look the workspace up, then find its repository: the
/// chokepoint every workspace-scoped operation funnels through.
pub fn resolve_index(core: &GitUiCore, workspace_id: String) -> (r: Result<usize, GitOpError>)
    ensures
        resolve_index_post(*core, workspace_id@, r),
{
    if !core.supported {
        return Err(GitOpError::PlatformUnsupported);
    }
    let w = match crate::search::assoc_position(&core.workspaces, &workspace_id) {
        Some(w) => w,
        None => {
            return Err(GitOpError::UnknownWorkspace(workspace_id));
        },
    };
    proof {
        crate::search::lemma_find_key_props(pair_keys(core.workspaces@), workspace_id@);
    }
    let root = &core.workspaces[w].1.repo_root;
    match crate::search::assoc_position(&core.repos, root) {
        Some(i) => {
            proof {
                crate::search::lemma_find_key_props(pair_keys(core.repos@), root@);
            }
            Ok(i)
        },
        None => Err(GitOpError::InvalidRepository(root.clone())),
    }
}

/// Resolves a workspace identifier to its validated repository root.
///
/// This is the resolver of the public catalogue: `UnknownWorkspace` when
/// the identifier is not registered, `InvalidRepository` when the recorded
/// root no longer denotes a repository.
pub fn resolve_repo_root_for_workspace_core(core: &GitUiCore, workspace_id: String) -> (r: Result<
    String,
    GitOpError,
>)
    ensures
        match resolve_err(*core, workspace_id@) {
            Some(ev) => r matches Err(e) && e@ == ev,
            None => r matches Ok(root) && root@ == ws_root(*core, workspace_id@),
        },
{
    let ghost id = workspace_id@;
    match resolve_index(core, workspace_id) {
        Ok(i) => {
            proof {
                crate::search::lemma_find_key_props(pair_keys(core.repos@), ws_root(*core, id));
                assert(pair_keys(core.repos@)[i as int] == core.repos@[i as int].0@);
            }
            Ok(core.repos[i].0.clone())
        },
        Err(e) => Err(e),
    }
}

/// Everything but repository `i` is untouched, and that repository keeps
/// its key.
pub open spec fn same_except_repo(pre: GitUiCore, post: GitUiCore, i: int) -> bool {
    &&& post.supported == pre.supported
    &&& post.workspaces == pre.workspaces
    &&& post.settings == pre.settings
    &&& 0 <= i < pre.repos@.len()
    &&& post.repos@.len() == pre.repos@.len()
    &&& (forall|j: int| 0 <= j < pre.repos@.len() && j != i ==> post.repos@[j] == pre.repos@[j])
    &&& post.repos@[i].0 == pre.repos@[i].0
}

/// Taking an element out and putting another back at the same place is an
/// update.
pub proof fn lemma_remove_insert_update<T>(s: Seq<T>, i: int, x: T)
    requires
        0 <= i < s.len(),
    ensures
        s.remove(i).insert(i, x) == s.update(i, x),
{
    assert(s.remove(i).insert(i, x) =~= s.update(i, x));
}

/// Replacing one repository by a well-formed one preserves the context
/// invariant.
pub proof fn lemma_update_repo_wf(pre: GitUiCore, post: GitUiCore, i: int)
    requires
        pre.wf(),
        same_except_repo(pre, post, i),
        post.repos@[i].1.wf(),
    ensures
        post.wf(),
{
    assert(pair_keys(post.repos@) =~= pair_keys(pre.repos@));
    assert forall|j: int| 0 <= j < post.repos@.len() implies (#[trigger] post.repos@[j].1).wf() by {
        if j != i {
            assert(post.repos@[j] == pre.repos@[j]);
        }
    }
}

/// Registers or refreshes a workspace: the host application calls this when
/// the user opens a workspace. An existing identifier has its identity
/// record replaced in place; a new one is appended.
pub fn open_workspace(core: &mut GitUiCore, workspace_id: String, repo_root: String)
    ensures
        final(core).supported == old(core).supported,
        final(core).repos == old(core).repos,
        final(core).settings == old(core).settings,
        match ws_find(*old(core), workspace_id@) {
            Some(i) => final(core).workspaces@ == old(core).workspaces@.update(
                i,
                (workspace_id, WorkspaceEntry { repo_root }),
            ),
            None => final(core).workspaces@ == old(core).workspaces@.push(
                (workspace_id, WorkspaceEntry { repo_root }),
            ),
        },
        old(core).wf() ==> final(core).wf(),
{
    let ghost pre = *core;
    let entry = WorkspaceEntry { repo_root };
    proof {
        crate::search::lemma_find_key_props(pair_keys(core.workspaces@), workspace_id@);
    }
    match crate::search::assoc_position(&core.workspaces, &workspace_id) {
        Some(i) => {
            let _ = core.workspaces.remove(i);
            core.workspaces.insert(i, (workspace_id, entry));
            proof {
                assert(final(core).workspaces@ =~= pre.workspaces@.update(
                    i as int,
                    (workspace_id, entry),
                ));
                if pre.wf() {
                    assert(pair_keys(core.workspaces@) =~= pair_keys(pre.workspaces@));
                }
            }
        },
        None => {
            core.workspaces.push((workspace_id, entry));
            proof {
                if pre.wf() {
                    let ks = pair_keys(core.workspaces@);
                    assert forall|a: int, b: int| 0 <= a < b < ks.len() implies ks[a] != ks[b] by {
                        assert(ks[a] == core.workspaces@[a].0@);
                        assert(ks[b] == core.workspaces@[b].0@);
                        if b < pre.workspaces@.len() {
                            assert(pair_keys(pre.workspaces@)[a] == pre.workspaces@[a].0@);
                            assert(pair_keys(pre.workspaces@)[b] == pre.workspaces@[b].0@);
                        } else {
                            assert(pair_keys(pre.workspaces@)[a] == pre.workspaces@[a].0@);
                        }
                    }
                }
            }
        },
    }
}

/// Removes a workspace from the registry: the host application calls this
/// when the user closes a workspace. Returns whether the identifier was
/// registered.
pub fn close_workspace(core: &mut GitUiCore, workspace_id: String) -> (r: bool)
    ensures
        final(core).supported == old(core).supported,
        final(core).repos == old(core).repos,
        final(core).settings == old(core).settings,
        match ws_find(*old(core), workspace_id@) {
            Some(i) => r && final(core).workspaces@ == old(core).workspaces@.remove(i),
            None => !r && final(core).workspaces == old(core).workspaces,
        },
        old(core).wf() ==> final(core).wf(),
{
    let ghost pre = *core;
    match crate::search::assoc_position(&core.workspaces, &workspace_id) {
        Some(i) => {
            proof {
                crate::search::lemma_find_key_props(pair_keys(core.workspaces@), workspace_id@);
            }
            let _ = core.workspaces.remove(i);
            proof {
                if pre.wf() {
                    let ks = pair_keys(core.workspaces@);
                    let pks = pair_keys(pre.workspaces@);
                    assert forall|a: int, b: int| 0 <= a < b < ks.len() implies ks[a] != ks[b] by {
                        assert(ks[a] == core.workspaces@[a].0@);
                        assert(ks[b] == core.workspaces@[b].0@);
                        let pa: int = if a < i { a } else { a + 1 };
                        let pb: int = if b < i { b } else { b + 1 };
                        assert(pks[pa] == pre.workspaces@[pa].0@);
                        assert(pks[pb] == pre.workspaces@[pb].0@);
                        assert(core.workspaces@[a] == pre.workspaces@[pa]);
                        assert(core.workspaces@[b] == pre.workspaces@[pb]);
                    }
                }
            }
            true
        },
        None => false,
    }
}

/// Makes a freshly initialized repository known under `repo_root`. Returns
/// false, changing nothing, if the root is already known. The host calls
/// this when a repository appears on disk.
pub fn install_repository(core: &mut GitUiCore, repo_root: String) -> (r: bool)
    ensures
        final(core).supported == old(core).supported,
        final(core).workspaces == old(core).workspaces,
        final(core).settings == old(core).settings,
        match root_find(*old(core), repo_root@) {
            Some(_) => !r && final(core).repos == old(core).repos,
            None => r && final(core).repos@.len() == old(core).repos@.len() + 1
                && (forall|j: int|
                0 <= j < old(core).repos@.len() ==> final(core).repos@[j] == old(core).repos@[j])
                && final(core).repos@.last().0 == repo_root && {
                let fresh = final(core).repos@.last().1;
                &&& fresh.wf()
                &&& fresh.staged@.len() == 0
                &&& fresh.unstaged@.len() == 0
                &&& fresh.untracked@.len() == 0
                &&& fresh.commits@.len() == 0
                &&& fresh.branches@.len() == 1
                &&& fresh.branches@[0]@ == "main"@
                &&& fresh.current_branch@ == "main"@
                &&& fresh.remote is None
                &&& fresh.next_commit_number == 1
            },
        },
        old(core).wf() ==> final(core).wf(),
{
    let ghost pre = *core;
    match crate::search::assoc_position(&core.repos, &repo_root) {
        Some(_) => false,
        None => {
            proof {
                crate::search::lemma_find_key_props(pair_keys(core.repos@), repo_root@);
            }
            core.repos.push((repo_root, Repository::init()));
            proof {
                if pre.wf() {
                    let ks = pair_keys(core.repos@);
                    assert forall|a: int, b: int| 0 <= a < b < ks.len() implies ks[a] != ks[b] by {
                        assert(ks[a] == core.repos@[a].0@);
                        assert(ks[b] == core.repos@[b].0@);
                        if b < pre.repos@.len() {
                            assert(pair_keys(pre.repos@)[a] == pre.repos@[a].0@);
                            assert(pair_keys(pre.repos@)[b] == pre.repos@[b].0@);
                        } else {
                            assert(pair_keys(pre.repos@)[a] == pre.repos@[a].0@);
                        }
                    }
                }
            }
            true
        },
    }
}

/// Enters one changed path, as the external scan of the working tree
/// reports it, into the repository's unstaged set. Returns false, changing
/// nothing, when the root is unknown or the path already has a recorded
/// working-tree state.
pub fn record_working_change(
    core: &mut GitUiCore,
    repo_root: String,
    path: String,
    kind: crate::types::ChangeKind,
    patch: String,
) -> (r: bool)
    ensures
        final(core).supported == old(core).supported,
        final(core).workspaces == old(core).workspaces,
        final(core).settings == old(core).settings,
        match root_find(*old(core), repo_root@) {
            None => !r && final(core).repos == old(core).repos,
            Some(i) => {
                let r0 = old(core).repos@[i].1;
                let r1 = final(core).repos@[i].1;
                if crate::repo::has_path(r0.staged@, path@) || crate::repo::has_path(
                    r0.unstaged@,
                    path@,
                ) || crate::repo::has_text(r0.untracked@, path@) {
                    !r && final(core).repos == old(core).repos
                } else {
                    &&& r
                    &&& same_except_repo(*old(core), *final(core), i)
                    &&& crate::repo::same_except_tree(r0, r1)
                    &&& r1.staged == r0.staged
                    &&& r1.untracked == r0.untracked
                    &&& r1.unstaged@ == r0.unstaged@.push(
                        crate::types::GitFileDiff { path, kind, patch },
                    )
                }
            },
        },
        old(core).wf() ==> final(core).wf(),
{
    let i = match crate::search::assoc_position(&core.repos, &repo_root) {
        Some(i) => i,
        None => {
            return false;
        },
    };
    proof {
        crate::search::lemma_find_key_props(pair_keys(core.repos@), repo_root@);
        crate::repo::lemma_find_key_path_membership(core.repos@[i as int].1.staged@, path@);
        crate::repo::lemma_find_key_path_membership(core.repos@[i as int].1.unstaged@, path@);
        crate::repo::lemma_find_key_membership(core.repos@[i as int].1.untracked@, path@);
    }
    if crate::repo::diff_position(&core.repos[i].1.staged, &path).is_some() {
        return false;
    }
    if crate::repo::diff_position(&core.repos[i].1.unstaged, &path).is_some() {
        return false;
    }
    if crate::search::string_position(&core.repos[i].1.untracked, &path).is_some() {
        return false;
    }
    let ghost pre = *core;
    let (root, mut repo) = core.repos.remove(i);
    let ghost r0 = repo;
    repo.unstaged.push(crate::types::GitFileDiff { path, kind, patch });
    let ghost np = (root, repo);
    core.repos.insert(i, (root, repo));
    proof {
        lemma_remove_insert_update(pre.repos@, i as int, np);
        if pre.wf() {
            let r1 = np.1;
            let pathv = r1.unstaged@.last().path@;
            assert forall|a: int, b: int|
                0 <= a < b < r1.unstaged@.len() implies r1.unstaged@[a].path@
                != r1.unstaged@[b].path@ by {
                if b < r0.unstaged@.len() {
                } else {
                    assert(r1.unstaged@[a] == r0.unstaged@[a]);
                    assert(!crate::repo::has_path(r0.unstaged@, pathv));
                }
            }
            assert forall|a: int, b: int|
                0 <= a < r1.staged@.len() && 0 <= b < r1.unstaged@.len() implies r1.staged@[a].path@
                != r1.unstaged@[b].path@ by {
                if b < r0.unstaged@.len() {
                    assert(r1.unstaged@[b] == r0.unstaged@[b]);
                } else {
                    assert(!crate::repo::has_path(r0.staged@, pathv));
                }
            }
            assert forall|a: int, b: int|
                0 <= a < r1.unstaged@.len() && 0 <= b < r1.untracked@.len() implies r1.unstaged@[a].path@
                != r1.untracked@[b]@ by {
                if a < r0.unstaged@.len() {
                    assert(r1.unstaged@[a] == r0.unstaged@[a]);
                } else {
                    assert(!crate::repo::has_text(r0.untracked@, pathv));
                }
            }
            lemma_update_repo_wf(pre, *core, i as int);
        }
    }
    true
}

/// Enters one untracked path, as the external scan of the working tree
/// reports it, into the repository. Returns false, changing nothing, when
/// the root is unknown or the path already has a recorded working-tree
/// state.
pub fn record_untracked(core: &mut GitUiCore, repo_root: String, path: String) -> (r: bool)
    ensures
        final(core).supported == old(core).supported,
        final(core).workspaces == old(core).workspaces,
        final(core).settings == old(core).settings,
        match root_find(*old(core), repo_root@) {
            None => !r && final(core).repos == old(core).repos,
            Some(i) => {
                let r0 = old(core).repos@[i].1;
                let r1 = final(core).repos@[i].1;
                if crate::repo::has_path(r0.staged@, path@) || crate::repo::has_path(
                    r0.unstaged@,
                    path@,
                ) || crate::repo::has_text(r0.untracked@, path@) {
                    !r && final(core).repos == old(core).repos
                } else {
                    &&& r
                    &&& same_except_repo(*old(core), *final(core), i)
                    &&& crate::repo::same_except_tree(r0, r1)
                    &&& r1.staged == r0.staged
                    &&& r1.unstaged == r0.unstaged
                    &&& r1.untracked@ == r0.untracked@.push(path)
                }
            },
        },
        old(core).wf() ==> final(core).wf(),
{
    let i = match crate::search::assoc_position(&core.repos, &repo_root) {
        Some(i) => i,
        None => {
            return false;
        },
    };
    proof {
        crate::search::lemma_find_key_props(pair_keys(core.repos@), repo_root@);
        crate::repo::lemma_find_key_path_membership(core.repos@[i as int].1.staged@, path@);
        crate::repo::lemma_find_key_path_membership(core.repos@[i as int].1.unstaged@, path@);
        crate::repo::lemma_find_key_membership(core.repos@[i as int].1.untracked@, path@);
    }
    if crate::repo::diff_position(&core.repos[i].1.staged, &path).is_some() {
        return false;
    }
    if crate::repo::diff_position(&core.repos[i].1.unstaged, &path).is_some() {
        return false;
    }
    if crate::search::string_position(&core.repos[i].1.untracked, &path).is_some() {
        return false;
    }
    let ghost pre = *core;
    let (root, mut repo) = core.repos.remove(i);
    let ghost r0 = repo;
    repo.untracked.push(path);
    let ghost np = (root, repo);
    core.repos.insert(i, (root, repo));
    proof {
        lemma_remove_insert_update(pre.repos@, i as int, np);
        if pre.wf() {
            let r1 = np.1;
            let pathv = r1.untracked@.last()@;
            assert forall|a: int, b: int|
                0 <= a < b < r1.untracked@.len() implies r1.untracked@[a]@ != r1.untracked@[b]@ by {
                if b < r0.untracked@.len() {
                } else {
                    assert(r1.untracked@[a] == r0.untracked@[a]);
                    assert(!crate::repo::has_text(r0.untracked@, pathv));
                }
            }
            assert forall|a: int, b: int|
                0 <= a < r1.staged@.len() && 0 <= b < r1.untracked@.len() implies r1.staged@[a].path@
                != r1.untracked@[b]@ by {
                if b < r0.untracked@.len() {
                    assert(r1.untracked@[b] == r0.untracked@[b]);
                } else {
                    assert(!crate::repo::has_path(r0.staged@, pathv));
                }
            }
            assert forall|a: int, b: int|
                0 <= a < r1.unstaged@.len() && 0 <= b < r1.untracked@.len() implies r1.unstaged@[a].path@
                != r1.untracked@[b]@ by {
                if b < r0.untracked@.len() {
                    assert(r1.untracked@[b] == r0.untracked@[b]);
                } else {
                    assert(!crate::repo::has_path(r0.unstaged@, pathv));
                }
            }
            lemma_update_repo_wf(pre, *core, i as int);
        }
    }
    true
}

/// Configures or clears the remote of the repository at `repo_root`.
/// Returns false, changing nothing, when the root is unknown.
pub fn set_remote(core: &mut GitUiCore, repo_root: String, remote: Option<String>) -> (r: bool)
    ensures
        final(core).supported == old(core).supported,
        final(core).workspaces == old(core).workspaces,
        final(core).settings == old(core).settings,
        match root_find(*old(core), repo_root@) {
            None => !r && final(core).repos == old(core).repos,
            Some(i) => {
                let r0 = old(core).repos@[i].1;
                let r1 = final(core).repos@[i].1;
                &&& r
                &&& same_except_repo(*old(core), *final(core), i)
                &&& r1.remote == remote
                &&& r1.staged == r0.staged
                &&& r1.unstaged == r0.unstaged
                &&& r1.untracked == r0.untracked
                &&& r1.commits == r0.commits
                &&& r1.branches == r0.branches
                &&& r1.current_branch == r0.current_branch
                &&& r1.next_commit_number == r0.next_commit_number
            },
        },
        old(core).wf() ==> final(core).wf(),
{
    let i = match crate::search::assoc_position(&core.repos, &repo_root) {
        Some(i) => i,
        None => {
            return false;
        },
    };
    proof {
        crate::search::lemma_find_key_props(pair_keys(core.repos@), repo_root@);
    }
    let ghost pre = *core;
    let (root, mut repo) = core.repos.remove(i);
    repo.remote = remote;
    let ghost np = (root, repo);
    core.repos.insert(i, (root, repo));
    proof {
        lemma_remove_insert_update(pre.repos@, i as int, np);
        if pre.wf() {
            lemma_update_repo_wf(pre, *core, i as int);
        }
    }
    true
}

/// Configures or clears the hosting credentials. Host-level settings
/// mutation, outside the operation catalogue.
pub fn set_github_token(core: &mut GitUiCore, token: Option<String>)
    ensures
        final(core).supported == old(core).supported,
        final(core).workspaces == old(core).workspaces,
        final(core).repos == old(core).repos,
        final(core).settings.github_token == token,
        final(core).settings.commit_author == old(core).settings.commit_author,
        final(core).settings.default_log_limit == old(core).settings.default_log_limit,
        old(core).wf() ==> final(core).wf(),
{
    core.settings.github_token = token;
}

/// Sets the author recorded on commits made through the façade.
pub fn set_commit_author(core: &mut GitUiCore, author: String)
    ensures
        final(core).supported == old(core).supported,
        final(core).workspaces == old(core).workspaces,
        final(core).repos == old(core).repos,
        final(core).settings.github_token == old(core).settings.github_token,
        final(core).settings.commit_author == author,
        final(core).settings.default_log_limit == old(core).settings.default_log_limit,
        old(core).wf() ==> final(core).wf(),
{
    core.settings.commit_author = author;
}

/// Sets the log-entry limit used when a caller passes none.
pub fn set_default_log_limit(core: &mut GitUiCore, limit: usize)
    ensures
        final(core).supported == old(core).supported,
        final(core).workspaces == old(core).workspaces,
        final(core).repos == old(core).repos,
        final(core).settings.github_token == old(core).settings.github_token,
        final(core).settings.commit_author == old(core).settings.commit_author,
        final(core).settings.default_log_limit == limit,
        old(core).wf() ==> final(core).wf(),
{
    core.settings.default_log_limit = limit;
}

} // verus!
