//! The error taxonomy of the façade.
//!
//! Every operation returns either its typed result or one of these error
//! kinds. Context-bearing kinds carry the identifier that failed (a
//! workspace id, a repository root, a path, a commit id, or a branch name)
//! so a caller can render an actionable message.

use vstd::prelude::*;

verus! {

/// One failure of a façade operation: the kind, plus the identifier it is
/// about where one exists.
#[derive(Clone, Debug, PartialEq, Eq)]
pub enum GitOpError {
    /// The capability gate tripped: the platform supports no local
    /// repository or network access. Checked before anything else.
    PlatformUnsupported,
    /// The workspace identifier is not present in the workspace registry.
    UnknownWorkspace(String),
    /// The workspace's recorded root does not denote a repository.
    InvalidRepository(String),
    /// The path is neither changed, staged, nor untracked in the repository.
    PathNotFound(String),
    /// No commit with this identifier exists in the history.
    CommitNotFound(String),
    /// A branch of this name already exists.
    BranchExists(String),
    /// No branch of this name exists.
    BranchNotFound(String),
    /// The working tree holds uncommitted changes that block the operation.
    DirtyWorkingTree,
    /// The staged set is empty: there is nothing to commit.
    NothingToCommit,
    /// The commit message is empty or all whitespace.
    EmptyMessage,
    /// The repository has no remote configured.
    NoRemoteConfigured,
    /// The remote or the hosting provider rejected the credentials.
    AuthenticationFailed,
    /// Remote and local histories conflict and could not be merged.
    MergeConflict,
    /// The network transfer failed.
    NetworkError,
    /// The settings hold no credentials for the hosting provider.
    MissingCredentials,
    /// The hosting provider throttled the request.
    RateLimited,
    /// The hosting provider knows no such resource.
    NotFound,
}

/// The mathematical model of a [`GitOpError`]: the same kinds, with each
/// carried identifier abstracted to its character sequence. Contracts speak
/// of errors through this view.
pub enum ErrView {
    PlatformUnsupported,
    UnknownWorkspace(Seq<char>),
    InvalidRepository(Seq<char>),
    PathNotFound(Seq<char>),
    CommitNotFound(Seq<char>),
    BranchExists(Seq<char>),
    BranchNotFound(Seq<char>),
    DirtyWorkingTree,
    NothingToCommit,
    EmptyMessage,
    NoRemoteConfigured,
    AuthenticationFailed,
    MergeConflict,
    NetworkError,
    MissingCredentials,
    RateLimited,
    NotFound,
}

impl View for GitOpError {
    type V = ErrView;

    open spec fn view(&self) -> ErrView {
        match self {
            GitOpError::PlatformUnsupported => ErrView::PlatformUnsupported,
            GitOpError::UnknownWorkspace(s) => ErrView::UnknownWorkspace(s@),
            GitOpError::InvalidRepository(s) => ErrView::InvalidRepository(s@),
            GitOpError::PathNotFound(s) => ErrView::PathNotFound(s@),
            GitOpError::CommitNotFound(s) => ErrView::CommitNotFound(s@),
            GitOpError::BranchExists(s) => ErrView::BranchExists(s@),
            GitOpError::BranchNotFound(s) => ErrView::BranchNotFound(s@),
            GitOpError::DirtyWorkingTree => ErrView::DirtyWorkingTree,
            GitOpError::NothingToCommit => ErrView::NothingToCommit,
            GitOpError::EmptyMessage => ErrView::EmptyMessage,
            GitOpError::NoRemoteConfigured => ErrView::NoRemoteConfigured,
            GitOpError::AuthenticationFailed => ErrView::AuthenticationFailed,
            GitOpError::MergeConflict => ErrView::MergeConflict,
            GitOpError::NetworkError => ErrView::NetworkError,
            GitOpError::MissingCredentials => ErrView::MissingCredentials,
            GitOpError::RateLimited => ErrView::RateLimited,
            GitOpError::NotFound => ErrView::NotFound,
        }
    }
}

/// The one fixed, human-readable text returned verbatim for every operation
/// when the capability gate reports the platform unsupported.
pub open spec fn unsupported_text() -> Seq<char> {
    "Git operations are not available on mobile. Use remote backend mode."@
}

/// The fixed unsupported-platform message as an owned string.
pub fn unsupported_message() -> (r: String)
    ensures
        r@ == unsupported_text(),
{
    String::from_str("Git operations are not available on mobile. Use remote backend mode.")
}

impl GitOpError {
    /// The rendering of each error as text: a fixed phrase for the kind,
    /// followed by the carried identifier where one exists.
    pub open spec fn message_text(&self) -> Seq<char> {
        match self {
            GitOpError::PlatformUnsupported => unsupported_text(),
            GitOpError::UnknownWorkspace(s) => "unknown workspace: "@ + s@,
            GitOpError::InvalidRepository(s) => "not a repository: "@ + s@,
            GitOpError::PathNotFound(s) => "path not found: "@ + s@,
            GitOpError::CommitNotFound(s) => "commit not found: "@ + s@,
            GitOpError::BranchExists(s) => "branch already exists: "@ + s@,
            GitOpError::BranchNotFound(s) => "branch not found: "@ + s@,
            GitOpError::DirtyWorkingTree => "working tree has uncommitted changes"@,
            GitOpError::NothingToCommit => "nothing to commit"@,
            GitOpError::EmptyMessage => "commit message is empty"@,
            GitOpError::NoRemoteConfigured => "no remote configured"@,
            GitOpError::AuthenticationFailed => "authentication failed"@,
            GitOpError::MergeConflict => "merge conflict"@,
            GitOpError::NetworkError => "network error"@,
            GitOpError::MissingCredentials => "missing hosting credentials"@,
            GitOpError::RateLimited => "rate limited by hosting provider"@,
            GitOpError::NotFound => "resource not found"@,
        }
    }

    /// Renders the error as text for display; the library's types carry no
    /// formatting machinery of their own.
    pub fn message(&self) -> (r: String)
        ensures
            r@ == self.message_text(),
    {
        match self {
            GitOpError::PlatformUnsupported => unsupported_message(),
            GitOpError::UnknownWorkspace(s) => String::from_str("unknown workspace: ").concat(s.as_str()),
            GitOpError::InvalidRepository(s) => String::from_str("not a repository: ").concat(s.as_str()),
            GitOpError::PathNotFound(s) => String::from_str("path not found: ").concat(s.as_str()),
            GitOpError::CommitNotFound(s) => String::from_str("commit not found: ").concat(s.as_str()),
            GitOpError::BranchExists(s) => String::from_str("branch already exists: ").concat(s.as_str()),
            GitOpError::BranchNotFound(s) => String::from_str("branch not found: ").concat(s.as_str()),
            GitOpError::DirtyWorkingTree => String::from_str("working tree has uncommitted changes"),
            GitOpError::NothingToCommit => String::from_str("nothing to commit"),
            GitOpError::EmptyMessage => String::from_str("commit message is empty"),
            GitOpError::NoRemoteConfigured => String::from_str("no remote configured"),
            GitOpError::AuthenticationFailed => String::from_str("authentication failed"),
            GitOpError::MergeConflict => String::from_str("merge conflict"),
            GitOpError::NetworkError => String::from_str("network error"),
            GitOpError::MissingCredentials => String::from_str("missing hosting credentials"),
            GitOpError::RateLimited => String::from_str("rate limited by hosting provider"),
            GitOpError::NotFound => String::from_str("resource not found"),
        }
    }
}

} // verus!
