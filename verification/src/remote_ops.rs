//! The remote synchronisation operations: push, pull, fetch, and the
//! combined sync.
//!
//! The transfers themselves belong to the external execution engine; the
//! engine reports how a transfer ended as a [`RemoteOutcome`] value. The
//! façade validates the request — gate, resolution, a configured remote —
//! and classifies the reported outcome into the error taxonomy. The local
//! repository model is read, never changed, by these operations: a failed
//! or timed-out transfer leaves it exactly as it was.

use vstd::prelude::*;
use crate::errors::{ErrView, GitOpError};
use crate::local_ops::fails_with;
use crate::state::{repo_of, resolve_err, resolve_index, GitUiCore};

verus! {

/// How the external engine reports that a transfer ended.
#[derive(Clone, Copy, Debug, PartialEq, Eq, Structural)]
pub enum RemoteOutcome {
    /// The transfer ran to completion.
    Completed,
    /// The remote rejected the credentials.
    AuthRejected,
    /// Remote and local histories could not be reconciled.
    Conflicted,
    /// The connection failed or timed out.
    ConnectionFailed,
}

/// The error a reported outcome classifies to, if any.
pub open spec fn transfer_err(outcome: RemoteOutcome) -> Option<ErrView> {
    match outcome {
        RemoteOutcome::Completed => None,
        RemoteOutcome::AuthRejected => Some(ErrView::AuthenticationFailed),
        RemoteOutcome::Conflicted => Some(ErrView::MergeConflict),
        RemoteOutcome::ConnectionFailed => Some(ErrView::NetworkError),
    }
}

/// What every single-transfer remote operation returns: the resolution
/// chain's error, then `NoRemoteConfigured`, then the classification of
/// the engine's outcome.
pub open spec fn remote_op_post(
    c: GitUiCore,
    id: Seq<char>,
    outcome: RemoteOutcome,
    res: Result<(), GitOpError>,
) -> bool {
    match resolve_err(c, id) {
        Some(ev) => fails_with(res, ev),
        None => {
            if repo_of(c, id).remote is None {
                fails_with(res, ErrView::NoRemoteConfigured)
            } else {
                match transfer_err(outcome) {
                    None => res is Ok,
                    Some(ev) => fails_with(res, ev),
                }
            }
        },
    }
}

/// Validates and classifies one transfer against the configured remote.
fn remote_transfer(core: &GitUiCore, workspace_id: String, outcome: RemoteOutcome) -> (res: Result<
    (),
    GitOpError,
>)
    ensures
        remote_op_post(*core, workspace_id@, outcome, res),
{
    let i = match resolve_index(core, workspace_id) {
        Ok(i) => i,
        Err(e) => {
            return Err(e);
        },
    };
    if core.repos[i].1.remote.is_none() {
        return Err(GitOpError::NoRemoteConfigured);
    }
    match outcome {
        RemoteOutcome::Completed => Ok(()),
        RemoteOutcome::AuthRejected => Err(GitOpError::AuthenticationFailed),
        RemoteOutcome::Conflicted => Err(GitOpError::MergeConflict),
        RemoteOutcome::ConnectionFailed => Err(GitOpError::NetworkError),
    }
}

/// Pushes the current branch to the configured remote; `outcome` is the
/// engine's report of the transfer.
pub fn push_git_core(core: &GitUiCore, workspace_id: String, outcome: RemoteOutcome) -> (res: Result<
    (),
    GitOpError,
>)
    ensures
        remote_op_post(*core, workspace_id@, outcome, res),
{
    remote_transfer(core, workspace_id, outcome)
}

/// Pulls from the configured remote; `outcome` is the engine's report of
/// the transfer.
pub fn pull_git_core(core: &GitUiCore, workspace_id: String, outcome: RemoteOutcome) -> (res: Result<
    (),
    GitOpError,
>)
    ensures
        remote_op_post(*core, workspace_id@, outcome, res),
{
    remote_transfer(core, workspace_id, outcome)
}

/// Fetches from the configured remote; `outcome` is the engine's report of
/// the transfer.
pub fn fetch_git_core(core: &GitUiCore, workspace_id: String, outcome: RemoteOutcome) -> (res:
    Result<(), GitOpError>)
    ensures
        remote_op_post(*core, workspace_id@, outcome, res),
{
    remote_transfer(core, workspace_id, outcome)
}

/// What the combined sync returns: the incoming phase (fetch and merge) is
/// classified first; only when it completed is the outgoing push phase
/// classified.
pub open spec fn sync_post(
    c: GitUiCore,
    id: Seq<char>,
    incoming: RemoteOutcome,
    outgoing: RemoteOutcome,
    res: Result<(), GitOpError>,
) -> bool {
    match resolve_err(c, id) {
        Some(ev) => fails_with(res, ev),
        None => {
            if repo_of(c, id).remote is None {
                fails_with(res, ErrView::NoRemoteConfigured)
            } else {
                match transfer_err(incoming) {
                    Some(ev) => fails_with(res, ev),
                    None => match transfer_err(outgoing) {
                        Some(ev) => fails_with(res, ev),
                        None => res is Ok,
                    },
                }
            }
        },
    }
}

/// Synchronises with the configured remote: fetch and merge first, then
/// push. The two phases are reported separately by the engine, and a merge
/// conflict surfaces from the incoming phase.
pub fn sync_git_core(
    core: &GitUiCore,
    workspace_id: String,
    incoming: RemoteOutcome,
    outgoing: RemoteOutcome,
) -> (res: Result<(), GitOpError>)
    ensures
        sync_post(*core, workspace_id@, incoming, outgoing, res),
{
    let i = match resolve_index(core, workspace_id) {
        Ok(i) => i,
        Err(e) => {
            return Err(e);
        },
    };
    if core.repos[i].1.remote.is_none() {
        return Err(GitOpError::NoRemoteConfigured);
    }
    match incoming {
        RemoteOutcome::Completed => {},
        RemoteOutcome::AuthRejected => {
            return Err(GitOpError::AuthenticationFailed);
        },
        RemoteOutcome::Conflicted => {
            return Err(GitOpError::MergeConflict);
        },
        RemoteOutcome::ConnectionFailed => {
            return Err(GitOpError::NetworkError);
        },
    }
    match outgoing {
        RemoteOutcome::Completed => Ok(()),
        RemoteOutcome::AuthRejected => Err(GitOpError::AuthenticationFailed),
        RemoteOutcome::Conflicted => Err(GitOpError::MergeConflict),
        RemoteOutcome::ConnectionFailed => Err(GitOpError::NetworkError),
    }
}

} // verus!
