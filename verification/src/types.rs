//! The data records that the façade exchanges with its callers.

use vstd::prelude::*;

verus! {

/// How one path in the working tree changed.
#[derive(Clone, Copy, Debug, PartialEq, Eq, Structural)]
pub enum ChangeKind {
    Added,
    Modified,
    Deleted,
    Renamed,
}

/// One changed path of the working tree: the path, the kind of change, and
/// the textual patch body.
#[derive(Clone, Debug, PartialEq, Eq)]
pub struct GitFileDiff {
    pub path: String,
    pub kind: ChangeKind,
    pub patch: String,
}

/// Two working-tree diff records that read the same.
pub open spec fn file_diff_like(a: GitFileDiff, b: GitFileDiff) -> bool {
    a.path@ == b.path@ && a.kind == b.kind && a.patch@ == b.patch@
}

/// Copies one working-tree diff record.
pub fn clone_file_diff(d: &GitFileDiff) -> (r: GitFileDiff)
    ensures
        file_diff_like(*d, r),
{
    GitFileDiff { path: d.path.clone(), kind: d.kind, patch: d.patch.clone() }
}

/// One file's diff within a specific commit: the same shape as
/// [`GitFileDiff`], scoped to the commit identifier.
#[derive(Clone, Debug, PartialEq, Eq)]
pub struct GitCommitDiff {
    pub sha: String,
    pub path: String,
    pub kind: ChangeKind,
    pub patch: String,
}

/// One commit of the history: summary fields plus the per-file changes it
/// introduced.
#[derive(Clone, Debug, PartialEq, Eq)]
pub struct CommitRecord {
    pub sha: String,
    pub author: String,
    pub timestamp: u64,
    pub message: String,
    pub files: Vec<GitFileDiff>,
}

/// One commit summary as the log reports it.
#[derive(Clone, Debug, PartialEq, Eq)]
pub struct CommitSummary {
    pub sha: String,
    pub author: String,
    pub timestamp: u64,
    pub message: String,
}

/// A summary reads as a record's summary fields.
pub open spec fn summary_of(s: CommitSummary, c: CommitRecord) -> bool {
    s.sha@ == c.sha@ && s.author@ == c.author@ && s.timestamp == c.timestamp
        && s.message@ == c.message@
}

/// The ordered commit history slice that `get_git_log_core` returns,
/// most-recent-first.
#[derive(Clone, Debug, PartialEq, Eq)]
pub struct GitLogResponse {
    pub commits: Vec<CommitSummary>,
}

/// One entry of the working-tree status: a path and how it changed.
#[derive(Clone, Debug, PartialEq, Eq)]
pub struct StatusEntry {
    pub path: String,
    pub kind: ChangeKind,
}

/// A status entry reads as a diff record's path and kind.
pub open spec fn entry_of(e: StatusEntry, d: GitFileDiff) -> bool {
    e.path@ == d.path@ && e.kind == d.kind
}

/// The structured working-tree state: staged and unstaged entries, plus
/// untracked paths.
#[derive(Clone, Debug, PartialEq, Eq)]
pub struct GitStatus {
    pub staged: Vec<StatusEntry>,
    pub unstaged: Vec<StatusEntry>,
    pub untracked: Vec<String>,
}

/// The branch catalogue of a repository: every branch name, and the one
/// currently checked out.
#[derive(Clone, Debug, PartialEq, Eq)]
pub struct BranchList {
    pub branches: Vec<String>,
    pub current: String,
}

/// One issue summary from the hosting provider.
#[derive(Clone, Debug, PartialEq, Eq)]
pub struct IssueSummary {
    pub number: u64,
    pub title: String,
}

/// One pull-request summary from the hosting provider.
#[derive(Clone, Debug, PartialEq, Eq)]
pub struct PullRequestSummary {
    pub number: u64,
    pub title: String,
}

/// The merged, ordered issue collection.
#[derive(Clone, Debug, PartialEq, Eq)]
pub struct GitHubIssuesResponse {
    pub issues: Vec<IssueSummary>,
}

/// The merged, ordered pull-request collection.
#[derive(Clone, Debug, PartialEq, Eq)]
pub struct GitHubPullRequestsResponse {
    pub pull_requests: Vec<PullRequestSummary>,
}

/// One per-file diff entry of a pull request.
#[derive(Clone, Debug, PartialEq, Eq)]
pub struct GitHubPullRequestDiff {
    pub path: String,
    pub patch: String,
}

/// One comment of a pull-request thread.
#[derive(Clone, Debug, PartialEq, Eq)]
pub struct GitHubPullRequestComment {
    pub author: String,
    pub body: String,
}

/// One workspace's identity record: the absolute repository root recorded
/// when the host application opened the workspace.
#[derive(Clone, Debug, PartialEq, Eq)]
pub struct WorkspaceEntry {
    pub repo_root: String,
}

/// Process-wide configuration: hosting credentials and numeric limits, read
/// under shared access by the façade and mutated only by the host.
#[derive(Clone, Debug, PartialEq, Eq)]
pub struct AppSettings {
    /// The hosting provider token, if the user configured one.
    pub github_token: Option<String>,
    /// The commit author recorded on commits made through the façade.
    pub commit_author: String,
    /// How many log entries `get_git_log_core` returns when the caller
    /// passes no limit.
    pub default_log_limit: usize,
}

/// Two optional strings that read the same.
pub open spec fn opt_text_like(a: Option<String>, b: Option<String>) -> bool {
    match (a, b) {
        (Option::None, Option::None) => true,
        (Option::Some(x), Option::Some(y)) => x@ == y@,
        _ => false,
    }
}

/// Copies a sequence of strings.
pub fn clone_strings(v: &Vec<String>) -> (r: Vec<String>)
    ensures
        r@.len() == v@.len(),
        forall|i: int| 0 <= i < v@.len() ==> r@[i]@ == v@[i]@,
{
    let mut r: Vec<String> = Vec::new();
    let mut i: usize = 0;
    while i < v.len()
        invariant
            i <= v@.len(),
            r@.len() == i,
            forall|j: int| 0 <= j < i ==> r@[j]@ == v@[j]@,
        decreases v@.len() - i,
    {
        r.push(v[i].clone());
        i = i + 1;
    }
    r
}

} // verus!
