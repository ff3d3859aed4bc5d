//! The code-hosting client operations: issues, pull requests, pull-request
//! diffs and pull-request comments.
//!
//! The network call belongs to the external hosting client; it reports its
//! verdict as a [`ProviderStatus`] and, on success, the raw pages it
//! received. The façade validates the request — gate, resolution, a
//! configured remote, credentials in the settings — classifies the verdict,
//! and merges the pages into the one ordered collection the caller sees: it
//! never assumes the provider answered in a single page.

use vstd::prelude::*;
use crate::errors::{ErrView, GitOpError};
use crate::local_ops::fails_with;
use crate::state::{repo_of, resolve_err, resolve_index, GitUiCore};
use crate::types::{
    GitHubIssuesResponse, GitHubPullRequestComment, GitHubPullRequestDiff,
    GitHubPullRequestsResponse, IssueSummary, PullRequestSummary,
};

verus! {

/// How the hosting provider answered.
#[derive(Clone, Copy, Debug, PartialEq, Eq, Structural)]
pub enum ProviderStatus {
    /// The provider answered the request.
    Granted,
    /// The provider rejected the credentials.
    AuthRejected,
    /// The provider throttled the request.
    Throttled,
    /// The provider knows no such resource.
    Missing,
}

/// The error a provider verdict classifies to, if any.
pub open spec fn provider_err(status: ProviderStatus) -> Option<ErrView> {
    match status {
        ProviderStatus::Granted => None,
        ProviderStatus::AuthRejected => Some(ErrView::AuthenticationFailed),
        ProviderStatus::Throttled => Some(ErrView::RateLimited),
        ProviderStatus::Missing => Some(ErrView::NotFound),
    }
}

/// What every hosting operation checks before the provider is even asked:
/// the resolution chain, then a configured remote to derive the hosting
/// identity from, then credentials in the settings.
pub open spec fn hosting_err(c: GitUiCore, id: Seq<char>) -> Option<ErrView> {
    match resolve_err(c, id) {
        Some(ev) => Some(ev),
        None => {
            if repo_of(c, id).remote is None {
                Some(ErrView::NoRemoteConfigured)
            } else if c.settings.github_token is None {
                Some(ErrView::MissingCredentials)
            } else {
                None
            }
        },
    }
}

/// The views of a sequence of pages.
pub open spec fn page_views<T>(pages: Seq<Vec<T>>) -> Seq<Seq<T>> {
    pages.map_values(|p: Vec<T>| p@)
}

/// The pages flattened in order.
pub open spec fn concat_pages<T>(pages: Seq<Seq<T>>) -> Seq<T>
    decreases pages.len(),
{
    if pages.len() == 0 {
        Seq::<T>::empty()
    } else {
        concat_pages(pages.drop_last()) + pages.last()
    }
}

/// Merges the provider's pages into one ordered collection.
fn merge_pages<T>(pages: Vec<Vec<T>>) -> (r: Vec<T>)
    ensures
        r@ == concat_pages(page_views(pages@)),
{
    let ghost orig = page_views(pages@);
    let mut rest = pages;
    let mut r: Vec<T> = Vec::new();
    while rest.len() > 0
        invariant
            concat_pages(page_views(rest@)) + r@ == concat_pages(orig),
        decreases rest@.len(),
    {
        let ghost before = page_views(rest@);
        let mut p = match rest.pop() {
            Some(p) => p,
            None => {
                return r;
            },
        };
        proof {
            assert(page_views(rest@) =~= before.drop_last());
            assert(before.last() == p@);
        }
        p.append(&mut r);
        r = p;
    }
    proof {
        assert(page_views(rest@).len() == 0);
        assert(concat_pages(page_views(rest@)) + r@ =~= r@);
    }
    r
}

/// Checks gate, resolution, remote and credentials; reports the first
/// failure as the error to return.
fn hosting_precheck(core: &GitUiCore, workspace_id: String) -> (r: Result<(), GitOpError>)
    ensures
        match hosting_err(*core, workspace_id@) {
            Some(ev) => r matches Err(e) && e@ == ev,
            None => r is Ok,
        },
{
    let i = match resolve_index(core, workspace_id) {
        Ok(i) => i,
        Err(e) => {
            return Err(e);
        },
    };
    if core.repos[i].1.remote.is_none() {
        return Err(GitOpError::NoRemoteConfigured);
    }
    if core.settings.github_token.is_none() {
        return Err(GitOpError::MissingCredentials);
    }
    Ok(())
}

/// Fetches the issue list from the hosting provider: `status` is the
/// provider's verdict and `pages` the raw pages it returned, which are
/// merged in order.
pub fn get_github_issues_core(
    core: &GitUiCore,
    workspace_id: String,
    status: ProviderStatus,
    pages: Vec<Vec<IssueSummary>>,
) -> (res: Result<GitHubIssuesResponse, GitOpError>)
    ensures
        match hosting_err(*core, workspace_id@) {
            Some(ev) => fails_with(res, ev),
            None => match provider_err(status) {
                Some(ev) => fails_with(res, ev),
                None => res matches Ok(resp) && resp.issues@ == concat_pages(page_views(pages@)),
            },
        },
{
    if let Err(e) = hosting_precheck(core, workspace_id) {
        return Err(e);
    }
    match status {
        ProviderStatus::Granted => Ok(GitHubIssuesResponse { issues: merge_pages(pages) }),
        ProviderStatus::AuthRejected => Err(GitOpError::AuthenticationFailed),
        ProviderStatus::Throttled => Err(GitOpError::RateLimited),
        ProviderStatus::Missing => Err(GitOpError::NotFound),
    }
}

/// Fetches the pull-request list from the hosting provider; pages are
/// merged in order.
pub fn get_github_pull_requests_core(
    core: &GitUiCore,
    workspace_id: String,
    status: ProviderStatus,
    pages: Vec<Vec<PullRequestSummary>>,
) -> (res: Result<GitHubPullRequestsResponse, GitOpError>)
    ensures
        match hosting_err(*core, workspace_id@) {
            Some(ev) => fails_with(res, ev),
            None => match provider_err(status) {
                Some(ev) => fails_with(res, ev),
                None => res matches Ok(resp) && resp.pull_requests@ == concat_pages(
                    page_views(pages@),
                ),
            },
        },
{
    if let Err(e) = hosting_precheck(core, workspace_id) {
        return Err(e);
    }
    match status {
        ProviderStatus::Granted => Ok(
            GitHubPullRequestsResponse { pull_requests: merge_pages(pages) },
        ),
        ProviderStatus::AuthRejected => Err(GitOpError::AuthenticationFailed),
        ProviderStatus::Throttled => Err(GitOpError::RateLimited),
        ProviderStatus::Missing => Err(GitOpError::NotFound),
    }
}

/// Fetches the per-file diff of one pull request; the provider reports
/// `Missing` for an invalid number, which surfaces as `NotFound`. `pages`
/// are merged in order.
pub fn get_github_pull_request_diff_core(
    core: &GitUiCore,
    workspace_id: String,
    pr_number: u64,
    status: ProviderStatus,
    pages: Vec<Vec<GitHubPullRequestDiff>>,
) -> (res: Result<Vec<GitHubPullRequestDiff>, GitOpError>)
    ensures
        match hosting_err(*core, workspace_id@) {
            Some(ev) => fails_with(res, ev),
            None => match provider_err(status) {
                Some(ev) => fails_with(res, ev),
                None => res matches Ok(v) && v@ == concat_pages(page_views(pages@)),
            },
        },
{
    let _ = pr_number;
    if let Err(e) = hosting_precheck(core, workspace_id) {
        return Err(e);
    }
    match status {
        ProviderStatus::Granted => Ok(merge_pages(pages)),
        ProviderStatus::AuthRejected => Err(GitOpError::AuthenticationFailed),
        ProviderStatus::Throttled => Err(GitOpError::RateLimited),
        ProviderStatus::Missing => Err(GitOpError::NotFound),
    }
}

/// Fetches the comment threads of one pull request; the provider reports
/// `Missing` for an invalid number, which surfaces as `NotFound`. `pages`
/// are merged in order.
pub fn get_github_pull_request_comments_core(
    core: &GitUiCore,
    workspace_id: String,
    pr_number: u64,
    status: ProviderStatus,
    pages: Vec<Vec<GitHubPullRequestComment>>,
) -> (res: Result<Vec<GitHubPullRequestComment>, GitOpError>)
    ensures
        match hosting_err(*core, workspace_id@) {
            Some(ev) => fails_with(res, ev),
            None => match provider_err(status) {
                Some(ev) => fails_with(res, ev),
                None => res matches Ok(v) && v@ == concat_pages(page_views(pages@)),
            },
        },
{
    let _ = pr_number;
    if let Err(e) = hosting_precheck(core, workspace_id) {
        return Err(e);
    }
    match status {
        ProviderStatus::Granted => Ok(merge_pages(pages)),
        ProviderStatus::AuthRejected => Err(GitOpError::AuthenticationFailed),
        ProviderStatus::Throttled => Err(GitOpError::RateLimited),
        ProviderStatus::Missing => Err(GitOpError::NotFound),
    }
}

} // verus!
