use git_ui_core::errors::GitOpError;
use git_ui_core::local_ops::{
    collect_workspace_diff_core, get_git_commit_diff_core, get_git_diffs_core, get_git_log_core,
    get_git_remote_core, get_git_status_core, list_git_branches_core, list_git_roots_core,
};
use git_ui_core::state::{
    close_workspace, install_repository, open_workspace, record_untracked, record_working_change,
    resolve_repo_root_for_workspace_core, set_commit_author, set_default_log_limit, set_remote,
    GitUiCore,
};
use git_ui_core::types::ChangeKind;
use git_ui_core::write_ops::{
    checkout_git_branch_core, commit_git_core, create_git_branch_core, revert_git_all_core,
    revert_git_file_core, stage_git_all_core, stage_git_file_core, unstage_git_file_core,
};

fn s(t: &str) -> String {
    t.to_string()
}

/// A supported context with workspace "w1" on a fresh repository at "/repo".
fn fresh_core() -> GitUiCore {
    let mut core = GitUiCore::new(true);
    open_workspace(&mut core, s("w1"), s("/repo"));
    assert!(install_repository(&mut core, s("/repo")));
    set_commit_author(&mut core, s("alice"));
    core
}

#[test]
fn unsupported_platform_rejects_every_operation() {
    let mut core = GitUiCore::new(false);
    open_workspace(&mut core, s("w1"), s("/repo"));
    assert!(install_repository(&mut core, s("/repo")));
    let u = GitOpError::PlatformUnsupported;
    assert_eq!(resolve_repo_root_for_workspace_core(&core, s("w1")).unwrap_err(), u);
    assert_eq!(get_git_status_core(&core, s("w1")).unwrap_err(), u);
    assert_eq!(get_git_diffs_core(&core, s("w1")).unwrap_err(), u);
    assert_eq!(get_git_log_core(&core, s("w1"), None).unwrap_err(), u);
    assert_eq!(get_git_commit_diff_core(&core, s("w1"), s("1")).unwrap_err(), u);
    assert_eq!(get_git_remote_core(&core, s("w1")).unwrap_err(), u);
    assert_eq!(list_git_branches_core(&core, s("w1")).unwrap_err(), u);
    assert_eq!(list_git_roots_core(&core, s("w1"), None).unwrap_err(), u);
    assert_eq!(collect_workspace_diff_core(&core, s("/repo")).unwrap_err(), u);
    assert_eq!(stage_git_file_core(&mut core, s("w1"), s("a")).unwrap_err(), u);
    assert_eq!(stage_git_all_core(&mut core, s("w1")).unwrap_err(), u);
    assert_eq!(unstage_git_file_core(&mut core, s("w1"), s("a")).unwrap_err(), u);
    assert_eq!(revert_git_file_core(&mut core, s("w1"), s("a")).unwrap_err(), u);
    assert_eq!(revert_git_all_core(&mut core, s("w1")).unwrap_err(), u);
    assert_eq!(commit_git_core(&mut core, s("w1"), s("m")).unwrap_err(), u);
    assert_eq!(create_git_branch_core(&mut core, s("w1"), s("b")).unwrap_err(), u);
    assert_eq!(checkout_git_branch_core(&mut core, s("w1"), s("b")).unwrap_err(), u);
    assert_eq!(git_ui_core::errors::unsupported_message(), s(
        "Git operations are not available on mobile. Use remote backend mode.",
    ));
    assert_eq!(u.message(), git_ui_core::errors::unsupported_message());
}

#[test]
fn unknown_workspace_is_a_distinct_failure() {
    let core = fresh_core();
    assert_eq!(
        get_git_status_core(&core, s("nope")).unwrap_err(),
        GitOpError::UnknownWorkspace(s("nope"))
    );
    let mut core2 = fresh_core();
    assert_eq!(
        commit_git_core(&mut core2, s("nope"), s("m")).unwrap_err(),
        GitOpError::UnknownWorkspace(s("nope"))
    );
    assert_eq!(
        GitOpError::UnknownWorkspace(s("nope")).message(),
        s("unknown workspace: nope")
    );
}

#[test]
fn missing_repository_is_invalid_not_unknown() {
    let mut core = GitUiCore::new(true);
    open_workspace(&mut core, s("w1"), s("/gone"));
    assert_eq!(
        get_git_status_core(&core, s("w1")).unwrap_err(),
        GitOpError::InvalidRepository(s("/gone"))
    );
}

#[test]
fn closed_workspace_is_unknown_again() {
    let mut core = fresh_core();
    assert!(close_workspace(&mut core, s("w1")));
    assert!(!close_workspace(&mut core, s("w1")));
    assert_eq!(
        get_git_status_core(&core, s("w1")).unwrap_err(),
        GitOpError::UnknownWorkspace(s("w1"))
    );
}

#[test]
fn resolver_returns_the_recorded_root() {
    let core = fresh_core();
    assert_eq!(resolve_repo_root_for_workspace_core(&core, s("w1")).unwrap(), s("/repo"));
}

#[test]
fn fresh_workspace_scenario() {
    let mut core = fresh_core();
    let st = get_git_status_core(&core, s("w1")).unwrap();
    assert!(st.staged.is_empty());
    assert!(st.unstaged.is_empty());
    assert!(st.untracked.is_empty());
    assert_eq!(
        commit_git_core(&mut core, s("w1"), s("")).unwrap_err(),
        GitOpError::EmptyMessage
    );
    stage_git_all_core(&mut core, s("w1")).unwrap();
    let st = get_git_status_core(&core, s("w1")).unwrap();
    assert!(st.staged.is_empty());
    assert_eq!(
        commit_git_core(&mut core, s("w1"), s("msg")).unwrap_err(),
        GitOpError::NothingToCommit
    );
}

#[test]
fn blank_message_is_empty_message() {
    let mut core = fresh_core();
    record_working_change(&mut core, s("/repo"), s("a.txt"), ChangeKind::Modified, s("p"));
    stage_git_all_core(&mut core, s("w1")).unwrap();
    assert_eq!(
        commit_git_core(&mut core, s("w1"), s(" \t\n")).unwrap_err(),
        GitOpError::EmptyMessage
    );
}

#[test]
fn nothing_to_commit_leaves_the_tree_unchanged() {
    let mut core = fresh_core();
    assert!(record_working_change(
        &mut core,
        s("/repo"),
        s("a.txt"),
        ChangeKind::Modified,
        s("p"),
    ));
    let before = get_git_status_core(&core, s("w1")).unwrap();
    assert_eq!(
        commit_git_core(&mut core, s("w1"), s("msg")).unwrap_err(),
        GitOpError::NothingToCommit
    );
    let after = get_git_status_core(&core, s("w1")).unwrap();
    assert_eq!(before, after);
    assert_eq!(after.unstaged.len(), 1);
}

#[test]
fn stage_commit_and_log_flow() {
    let mut core = fresh_core();
    assert!(record_working_change(
        &mut core,
        s("/repo"),
        s("a.txt"),
        ChangeKind::Modified,
        s("patch-a"),
    ));
    assert!(record_untracked(&mut core, s("/repo"), s("new.txt")));
    stage_git_file_core(&mut core, s("w1"), s("a.txt")).unwrap();
    stage_git_file_core(&mut core, s("w1"), s("new.txt")).unwrap();
    commit_git_core(&mut core, s("w1"), s("first")).unwrap();
    assert!(record_working_change(
        &mut core,
        s("/repo"),
        s("b.txt"),
        ChangeKind::Added,
        s("patch-b"),
    ));
    stage_git_all_core(&mut core, s("w1")).unwrap();
    commit_git_core(&mut core, s("w1"), s("second")).unwrap();

    let log = get_git_log_core(&core, s("w1"), None).unwrap();
    assert_eq!(log.commits.len(), 2);
    assert_eq!(log.commits[0].message, s("second"));
    assert_eq!(log.commits[0].sha, s("2"));
    assert_eq!(log.commits[0].author, s("alice"));
    assert_eq!(log.commits[0].timestamp, 2);
    assert_eq!(log.commits[1].message, s("first"));
    assert_eq!(log.commits[1].sha, s("1"));
    assert_eq!(log.commits[1].timestamp, 1);

    let limited = get_git_log_core(&core, s("w1"), Some(1)).unwrap();
    assert_eq!(limited.commits.len(), 1);
    assert_eq!(limited.commits[0].sha, s("2"));

    let twice_a = get_git_log_core(&core, s("w1"), Some(5)).unwrap();
    let twice_b = get_git_log_core(&core, s("w1"), Some(5)).unwrap();
    assert!(twice_a.commits.len() <= 5);
    assert_eq!(twice_a, twice_b);

    set_default_log_limit(&mut core, 1);
    let defaulted = get_git_log_core(&core, s("w1"), None).unwrap();
    assert_eq!(defaulted.commits.len(), 1);
}

#[test]
fn commit_diff_carries_the_commit_files() {
    let mut core = fresh_core();
    assert!(record_working_change(
        &mut core,
        s("/repo"),
        s("a.txt"),
        ChangeKind::Modified,
        s("patch-a"),
    ));
    stage_git_all_core(&mut core, s("w1")).unwrap();
    commit_git_core(&mut core, s("w1"), s("first")).unwrap();
    let diff = get_git_commit_diff_core(&core, s("w1"), s("1")).unwrap();
    assert_eq!(diff.len(), 1);
    assert_eq!(diff[0].sha, s("1"));
    assert_eq!(diff[0].path, s("a.txt"));
    assert_eq!(diff[0].kind, ChangeKind::Modified);
    assert_eq!(diff[0].patch, s("patch-a"));
    assert_eq!(
        get_git_commit_diff_core(&core, s("w1"), s("77")).unwrap_err(),
        GitOpError::CommitNotFound(s("77"))
    );
}

#[test]
fn diffs_list_staged_before_unstaged() {
    let mut core = fresh_core();
    assert!(record_working_change(
        &mut core,
        s("/repo"),
        s("a.txt"),
        ChangeKind::Modified,
        s("pa"),
    ));
    assert!(record_working_change(
        &mut core,
        s("/repo"),
        s("b.txt"),
        ChangeKind::Deleted,
        s("pb"),
    ));
    stage_git_file_core(&mut core, s("w1"), s("b.txt")).unwrap();
    let diffs = get_git_diffs_core(&core, s("w1")).unwrap();
    assert_eq!(diffs.len(), 2);
    assert_eq!(diffs[0].path, s("b.txt"));
    assert_eq!(diffs[0].kind, ChangeKind::Deleted);
    assert_eq!(diffs[1].path, s("a.txt"));
    let combined = collect_workspace_diff_core(&core, s("/repo")).unwrap();
    assert_eq!(combined, s("pbpa"));
    assert_eq!(
        collect_workspace_diff_core(&core, s("/elsewhere")).unwrap_err(),
        GitOpError::InvalidRepository(s("/elsewhere"))
    );
}

#[test]
fn staging_round_trip() {
    let mut core = fresh_core();
    assert!(record_working_change(
        &mut core,
        s("/repo"),
        s("a.txt"),
        ChangeKind::Modified,
        s("pa"),
    ));
    assert!(record_untracked(&mut core, s("/repo"), s("new.txt")));
    assert_eq!(
        stage_git_file_core(&mut core, s("w1"), s("ghost.txt")).unwrap_err(),
        GitOpError::PathNotFound(s("ghost.txt"))
    );
    stage_git_file_core(&mut core, s("w1"), s("a.txt")).unwrap();
    stage_git_file_core(&mut core, s("w1"), s("new.txt")).unwrap();
    let st = get_git_status_core(&core, s("w1")).unwrap();
    assert_eq!(st.staged.len(), 2);
    assert_eq!(st.staged[1].path, s("new.txt"));
    assert_eq!(st.staged[1].kind, ChangeKind::Added);
    assert!(st.unstaged.is_empty());
    assert!(st.untracked.is_empty());

    unstage_git_file_core(&mut core, s("w1"), s("a.txt")).unwrap();
    unstage_git_file_core(&mut core, s("w1"), s("new.txt")).unwrap();
    let st = get_git_status_core(&core, s("w1")).unwrap();
    assert!(st.staged.is_empty());
    assert_eq!(st.unstaged.len(), 1);
    assert_eq!(st.unstaged[0].path, s("a.txt"));
    assert_eq!(st.untracked, vec![s("new.txt")]);
    assert_eq!(
        unstage_git_file_core(&mut core, s("w1"), s("ghost.txt")).unwrap_err(),
        GitOpError::PathNotFound(s("ghost.txt"))
    );
}

#[test]
fn revert_discards_changes() {
    let mut core = fresh_core();
    assert!(record_working_change(
        &mut core,
        s("/repo"),
        s("a.txt"),
        ChangeKind::Modified,
        s("pa"),
    ));
    assert!(record_untracked(&mut core, s("/repo"), s("new.txt")));
    revert_git_file_core(&mut core, s("w1"), s("a.txt")).unwrap();
    let st = get_git_status_core(&core, s("w1")).unwrap();
    assert!(st.unstaged.is_empty());
    assert_eq!(st.untracked.len(), 1);
    assert_eq!(
        revert_git_file_core(&mut core, s("w1"), s("a.txt")).unwrap_err(),
        GitOpError::PathNotFound(s("a.txt"))
    );
    assert!(record_working_change(
        &mut core,
        s("/repo"),
        s("b.txt"),
        ChangeKind::Modified,
        s("pb"),
    ));
    stage_git_file_core(&mut core, s("w1"), s("b.txt")).unwrap();
    revert_git_all_core(&mut core, s("w1")).unwrap();
    let st = get_git_status_core(&core, s("w1")).unwrap();
    assert!(st.staged.is_empty());
    assert!(st.unstaged.is_empty());
    assert!(st.untracked.is_empty());
}

#[test]
fn create_branch_twice_reports_branch_exists() {
    let mut core = fresh_core();
    create_git_branch_core(&mut core, s("w1"), s("feature")).unwrap();
    let after_first = list_git_branches_core(&core, s("w1")).unwrap();
    assert_eq!(after_first.branches, vec![s("main"), s("feature")]);
    assert_eq!(after_first.current, s("main"));
    assert_eq!(
        create_git_branch_core(&mut core, s("w1"), s("feature")).unwrap_err(),
        GitOpError::BranchExists(s("feature"))
    );
    let after_second = list_git_branches_core(&core, s("w1")).unwrap();
    assert_eq!(after_first, after_second);
}

#[test]
fn checkout_switches_or_is_refused() {
    let mut core = fresh_core();
    assert_eq!(
        checkout_git_branch_core(&mut core, s("w1"), s("feature")).unwrap_err(),
        GitOpError::BranchNotFound(s("feature"))
    );
    create_git_branch_core(&mut core, s("w1"), s("feature")).unwrap();
    assert!(record_working_change(
        &mut core,
        s("/repo"),
        s("a.txt"),
        ChangeKind::Modified,
        s("pa"),
    ));
    assert_eq!(
        checkout_git_branch_core(&mut core, s("w1"), s("feature")).unwrap_err(),
        GitOpError::DirtyWorkingTree
    );
    revert_git_all_core(&mut core, s("w1")).unwrap();
    checkout_git_branch_core(&mut core, s("w1"), s("feature")).unwrap();
    let bl = list_git_branches_core(&core, s("w1")).unwrap();
    assert_eq!(bl.current, s("feature"));
}

#[test]
fn remote_url_is_optional() {
    let mut core = fresh_core();
    assert_eq!(get_git_remote_core(&core, s("w1")).unwrap(), None);
    assert!(set_remote(&mut core, s("/repo"), Some(s("https://example.test/r.git"))));
    assert_eq!(
        get_git_remote_core(&core, s("w1")).unwrap(),
        Some(s("https://example.test/r.git"))
    );
}

#[test]
fn root_listing_respects_prefix_and_depth() {
    let mut core = GitUiCore::new(true);
    open_workspace(&mut core, s("w1"), s("/ws"));
    assert!(install_repository(&mut core, s("/ws")));
    assert!(install_repository(&mut core, s("/ws/a")));
    assert!(install_repository(&mut core, s("/ws/a/b")));
    assert!(install_repository(&mut core, s("/elsewhere")));
    let all = list_git_roots_core(&core, s("w1"), None).unwrap();
    assert_eq!(all, vec![s("/ws"), s("/ws/a"), s("/ws/a/b")]);
    let shallow = list_git_roots_core(&core, s("w1"), Some(1)).unwrap();
    assert_eq!(shallow, vec![s("/ws"), s("/ws/a")]);
    let none_deep = list_git_roots_core(&core, s("w1"), Some(0)).unwrap();
    assert_eq!(none_deep, vec![s("/ws")]);
}
