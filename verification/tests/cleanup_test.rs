use git_gardener::cleanup::{
    BranchFacts, CleanupPolicy, CleanupReason, stale_decision, select_for_removal,
};
use git_gardener::commands::clean::CleanCommand;
use git_gardener::git::WorktreeInfo;

fn record(name: &str, branch: &str) -> WorktreeInfo {
    WorktreeInfo {
        name: name.to_string(),
        path: format!("/test/{}", name),
        branch: branch.to_string(),
        is_prunable: false,
        status: None,
    }
}

#[test]
fn test_stale_threshold_strict() {
    let day = 86400i64;
    let now = 100 * day;
    // exactly 30 days old: not stale
    assert!(!stale_decision(Some(now - 30 * day), now, 30));
    // one second past the threshold: stale
    assert!(stale_decision(Some(now - 30 * day - 1), now, 30));
    // well under the threshold: not stale
    assert!(!stale_decision(Some(now - day), now, 30));
}

#[test]
fn test_stale_unresolved_branch_never_selected() {
    let now = 1_700_000_000i64;
    for days in [0u32, 1, 7, 30, 365, 10_000] {
        assert!(!stale_decision(None, now, days));
    }
}

#[test]
fn test_select_for_removal_merged_policy() {
    let records = vec![record("main", "main"), record("feature-done", "feature/done")];
    let facts = vec![
        BranchFacts { merged_into_base: false, last_commit_time: Some(1000) },
        BranchFacts { merged_into_base: true, last_commit_time: Some(1000) },
    ];
    let policy = CleanupPolicy {
        force: false,
        merged_base: Some("main".to_string()),
        stale_days: None,
    };
    let candidates = select_for_removal(&records, &facts, &policy, 2000);
    assert_eq!(candidates.len(), 2);
    assert!(!candidates[0].eligible);
    assert!(candidates[0].reason.is_none());
    assert!(candidates[1].eligible);
    assert_eq!(candidates[1].worktree_name, "feature-done");
    match candidates[1].reason.as_ref().unwrap() {
        CleanupReason::MergedInto(base) => assert_eq!(base, "main"),
        other => panic!("expected a merged reason, got {:?}", other),
    }
}

#[test]
fn test_select_for_removal_force_policy() {
    let records = vec![record("a", "a"), record("b", "b")];
    let facts = vec![
        BranchFacts { merged_into_base: false, last_commit_time: None },
        BranchFacts { merged_into_base: false, last_commit_time: None },
    ];
    let policy = CleanupPolicy { force: true, merged_base: None, stale_days: None };
    let candidates = select_for_removal(&records, &facts, &policy, 0);
    assert!(candidates.iter().all(|c| c.eligible));
    assert!(candidates.iter().all(|c| matches!(c.reason, Some(CleanupReason::Forced))));
}

#[test]
fn test_select_for_removal_stale_policy() {
    let day = 86400i64;
    let now = 200 * day;
    let records = vec![
        record("fresh", "fresh"),
        record("old", "old"),
        record("unresolved", "unresolved"),
    ];
    let facts = vec![
        BranchFacts { merged_into_base: false, last_commit_time: Some(now - day) },
        BranchFacts { merged_into_base: false, last_commit_time: Some(now - 40 * day) },
        BranchFacts { merged_into_base: false, last_commit_time: None },
    ];
    let policy = CleanupPolicy { force: false, merged_base: None, stale_days: Some(30) };
    let candidates = select_for_removal(&records, &facts, &policy, now);
    assert!(!candidates[0].eligible);
    assert!(candidates[1].eligible);
    assert!(matches!(candidates[1].reason, Some(CleanupReason::StaleSince(30))));
    assert!(!candidates[2].eligible, "an unresolved branch must never be selected as stale");
}

#[test]
fn test_clean_command_validate_requires_option() {
    let cmd = CleanCommand::new(false, None, false);
    let err = cmd.validate().unwrap_err();
    assert!(err.message().contains("No cleanup option specified"));

    assert!(CleanCommand::new(true, None, false).validate().is_ok());
    assert!(CleanCommand::new(false, Some(30), false).validate().is_ok());
    assert!(CleanCommand::new(false, None, true).validate().is_ok());
}

#[test]
fn test_clean_command_policy_grounds() {
    let cmd = CleanCommand::new(true, Some(14), false);
    let policy = cmd.policy("main");
    assert!(!policy.force);
    assert_eq!(policy.merged_base, Some("main".to_string()));
    assert_eq!(policy.stale_days, Some(14));

    let bare = CleanCommand::new(false, None, true).policy("main");
    assert!(bare.force);
    assert_eq!(bare.merged_base, None);
    assert_eq!(bare.stale_days, None);
}
