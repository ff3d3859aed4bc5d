//! A workspace-scoped version-control façade.
//!
//! The library presents one uniform, typed contract for source-control and
//! code-hosting operations (status, diffs, log, staging, commit, remote sync,
//! branch management, issue and pull-request retrieval) against a named
//! workspace rather than a raw filesystem path. Every operation runs through
//! the same chain: a capability gate, then the repository resolver, then
//! the operation itself. The registry of workspaces, the per-repository
//! state, and the application settings live in one explicitly passed context
//! value, [`state::GitUiCore`]; the external execution engines (the actual
//! version-control toolchain and the hosting provider's network client)
//! report their outcomes as plain values that the operations classify.

pub mod errors;
pub mod search;
pub mod types;
pub mod repo;
pub mod state;
pub mod decimal;
pub mod local_ops;
pub mod write_ops;
pub mod remote_ops;
pub mod hosting_ops;
pub mod laws;
