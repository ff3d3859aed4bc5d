use git_ui_core::errors::GitOpError;
use git_ui_core::hosting_ops::{
    get_github_issues_core, get_github_pull_request_comments_core, get_github_pull_request_diff_core,
    get_github_pull_requests_core, ProviderStatus,
};
use git_ui_core::remote_ops::{
    fetch_git_core, pull_git_core, push_git_core, sync_git_core, RemoteOutcome,
};
use git_ui_core::state::{
    install_repository, open_workspace, set_github_token, set_remote, GitUiCore,
};
use git_ui_core::types::{GitHubPullRequestComment, GitHubPullRequestDiff, IssueSummary, PullRequestSummary};

fn s(t: &str) -> String {
    t.to_string()
}

/// A supported context with workspace "w1" on a repository at "/repo" that
/// has a remote configured.
fn remote_core() -> GitUiCore {
    let mut core = GitUiCore::new(true);
    open_workspace(&mut core, s("w1"), s("/repo"));
    assert!(install_repository(&mut core, s("/repo")));
    assert!(set_remote(&mut core, s("/repo"), Some(s("https://example.test/r.git"))));
    core
}

#[test]
fn remote_ops_require_a_remote() {
    let mut core = GitUiCore::new(true);
    open_workspace(&mut core, s("w1"), s("/repo"));
    assert!(install_repository(&mut core, s("/repo")));
    assert_eq!(
        push_git_core(&core, s("w1"), RemoteOutcome::Completed).unwrap_err(),
        GitOpError::NoRemoteConfigured
    );
    assert_eq!(
        sync_git_core(&core, s("w1"), RemoteOutcome::Completed, RemoteOutcome::Completed)
            .unwrap_err(),
        GitOpError::NoRemoteConfigured
    );
}

#[test]
fn remote_ops_classify_the_engine_outcome() {
    let core = remote_core();
    push_git_core(&core, s("w1"), RemoteOutcome::Completed).unwrap();
    assert_eq!(
        push_git_core(&core, s("w1"), RemoteOutcome::AuthRejected).unwrap_err(),
        GitOpError::AuthenticationFailed
    );
    assert_eq!(
        pull_git_core(&core, s("w1"), RemoteOutcome::Conflicted).unwrap_err(),
        GitOpError::MergeConflict
    );
    assert_eq!(
        fetch_git_core(&core, s("w1"), RemoteOutcome::ConnectionFailed).unwrap_err(),
        GitOpError::NetworkError
    );
}

#[test]
fn remote_ops_check_the_gate_and_registry_first() {
    let core = GitUiCore::new(false);
    assert_eq!(
        push_git_core(&core, s("w1"), RemoteOutcome::Completed).unwrap_err(),
        GitOpError::PlatformUnsupported
    );
    let core = GitUiCore::new(true);
    assert_eq!(
        fetch_git_core(&core, s("w1"), RemoteOutcome::Completed).unwrap_err(),
        GitOpError::UnknownWorkspace(s("w1"))
    );
    let core = GitUiCore::new(false);
    assert_eq!(
        get_github_issues_core(&core, s("w1"), ProviderStatus::Granted, vec![]).unwrap_err(),
        GitOpError::PlatformUnsupported
    );
    let core = GitUiCore::new(true);
    assert_eq!(
        get_github_pull_requests_core(&core, s("w1"), ProviderStatus::Granted, vec![])
            .unwrap_err(),
        GitOpError::UnknownWorkspace(s("w1"))
    );
}

#[test]
fn sync_reports_the_incoming_phase_first() {
    let core = remote_core();
    sync_git_core(&core, s("w1"), RemoteOutcome::Completed, RemoteOutcome::Completed).unwrap();
    assert_eq!(
        sync_git_core(&core, s("w1"), RemoteOutcome::Conflicted, RemoteOutcome::AuthRejected)
            .unwrap_err(),
        GitOpError::MergeConflict
    );
    assert_eq!(
        sync_git_core(&core, s("w1"), RemoteOutcome::Completed, RemoteOutcome::ConnectionFailed)
            .unwrap_err(),
        GitOpError::NetworkError
    );
}

#[test]
fn hosting_ops_require_remote_and_credentials() {
    let mut core = GitUiCore::new(true);
    open_workspace(&mut core, s("w1"), s("/repo"));
    assert!(install_repository(&mut core, s("/repo")));
    assert_eq!(
        get_github_issues_core(&core, s("w1"), ProviderStatus::Granted, vec![]).unwrap_err(),
        GitOpError::NoRemoteConfigured
    );
    assert!(set_remote(&mut core, s("/repo"), Some(s("https://example.test/r.git"))));
    assert_eq!(
        get_github_issues_core(&core, s("w1"), ProviderStatus::Granted, vec![]).unwrap_err(),
        GitOpError::MissingCredentials
    );
    set_github_token(&mut core, Some(s("test-token")));
    let resp = get_github_issues_core(&core, s("w1"), ProviderStatus::Granted, vec![]).unwrap();
    assert!(resp.issues.is_empty());
}

#[test]
fn hosting_ops_merge_pages_in_order() {
    let mut core = remote_core();
    set_github_token(&mut core, Some(s("test-token")));
    let pages = vec![
        vec![
            IssueSummary { number: 7, title: s("seven") },
            IssueSummary { number: 5, title: s("five") },
        ],
        vec![IssueSummary { number: 3, title: s("three") }],
    ];
    let resp = get_github_issues_core(&core, s("w1"), ProviderStatus::Granted, pages).unwrap();
    assert_eq!(resp.issues.len(), 3);
    assert_eq!(resp.issues[0].number, 7);
    assert_eq!(resp.issues[1].number, 5);
    assert_eq!(resp.issues[2].number, 3);
    assert_eq!(resp.issues[2].title, s("three"));

    let pr_pages = vec![
        vec![PullRequestSummary { number: 2, title: s("two") }],
        vec![PullRequestSummary { number: 1, title: s("one") }],
    ];
    let prs =
        get_github_pull_requests_core(&core, s("w1"), ProviderStatus::Granted, pr_pages).unwrap();
    assert_eq!(prs.pull_requests.len(), 2);
    assert_eq!(prs.pull_requests[0].number, 2);
    assert_eq!(prs.pull_requests[1].number, 1);
}

#[test]
fn hosting_ops_classify_the_provider_verdict() {
    let mut core = remote_core();
    set_github_token(&mut core, Some(s("test-token")));
    assert_eq!(
        get_github_issues_core(&core, s("w1"), ProviderStatus::Throttled, vec![]).unwrap_err(),
        GitOpError::RateLimited
    );
    assert_eq!(
        get_github_pull_requests_core(&core, s("w1"), ProviderStatus::AuthRejected, vec![])
            .unwrap_err(),
        GitOpError::AuthenticationFailed
    );
    assert_eq!(
        get_github_pull_request_diff_core(&core, s("w1"), 99, ProviderStatus::Missing, vec![])
            .unwrap_err(),
        GitOpError::NotFound
    );
}

#[test]
fn pull_request_detail_ops_return_merged_pages() {
    let mut core = remote_core();
    set_github_token(&mut core, Some(s("test-token")));
    let diff_pages = vec![
        vec![GitHubPullRequestDiff { path: s("a.txt"), patch: s("pa") }],
        vec![GitHubPullRequestDiff { path: s("b.txt"), patch: s("pb") }],
    ];
    let diff =
        get_github_pull_request_diff_core(&core, s("w1"), 4, ProviderStatus::Granted, diff_pages)
            .unwrap();
    assert_eq!(diff.len(), 2);
    assert_eq!(diff[0].path, s("a.txt"));
    assert_eq!(diff[1].patch, s("pb"));

    let comment_pages = vec![vec![
        GitHubPullRequestComment { author: s("bob"), body: s("looks fine") },
    ]];
    let comments = get_github_pull_request_comments_core(
        &core,
        s("w1"),
        4,
        ProviderStatus::Granted,
        comment_pages,
    )
    .unwrap();
    assert_eq!(comments.len(), 1);
    assert_eq!(comments[0].author, s("bob"));
    assert_eq!(comments[0].body, s("looks fine"));
}
