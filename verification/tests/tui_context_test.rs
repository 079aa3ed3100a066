use git_gardener::cleanup::BranchFacts;
use git_gardener::commands::tui::{TuiState, TuiAction};
use git_gardener::error::GitGardenerError;
use git_gardener::git::WorktreeInfo;

fn record(name: &str, branch: &str) -> WorktreeInfo {
    WorktreeInfo {
        name: name.to_string(),
        path: format!("/repo/.gardener/{}", name),
        branch: branch.to_string(),
        is_prunable: false,
        status: None,
    }
}

#[test]
fn test_tui_add_requires_repository() {
    let mut state = TuiState::new(Vec::new());
    state.set_action(Some(TuiAction::Add));
    let result = state.execute_current_action("demo");
    assert!(matches!(result, Err(GitGardenerError::NotInRepository)));
}

#[test]
fn test_tui_add_rejects_malformed_branch() {
    let mut state = TuiState::new(Vec::new());
    state.repo_root = Some("/repo/main".to_string());
    let result = state.execute_add_action("invalid branch name!");
    assert!(result.is_err());
    assert!(result.unwrap_err().message().contains("Invalid branch name"));
    assert!(state.worktrees.is_empty());
}

#[test]
fn test_tui_add_round_trip() {
    let mut state = TuiState::new(Vec::new());
    state.repo_root = Some("/repo/main".to_string());

    let message = state.execute_add_action("demo").unwrap();
    assert_eq!(message, "Created worktree 'demo'");

    let matching: Vec<&WorktreeInfo> =
        state.worktrees.iter().filter(|w| w.branch == "demo").collect();
    assert_eq!(matching.len(), 1);
    assert_eq!(matching[0].name, "demo");
    assert_eq!(matching[0].path, "/repo/.gardener/demo");

    // a second add of the same branch collides
    let again = state.execute_add_action("demo");
    assert!(matches!(again, Err(GitGardenerError::WorktreeExists { .. })));

    // deleting the selected record empties the set again
    state.selected_index = 0;
    let message = state.execute_delete_action("y").unwrap();
    assert_eq!(message, "Deleted worktree 'demo'");
    assert_eq!(state.worktrees.iter().filter(|w| w.branch == "demo").count(), 0);
}

#[test]
fn test_tui_add_normalizes_slashes() {
    let mut state = TuiState::new(Vec::new());
    state.repo_root = Some("/repo/main".to_string());

    let message = state.execute_add_action("feature/x").unwrap();
    assert!(message.contains("feature-x"));
    assert_eq!(state.worktrees[0].name, "feature-x");
    assert_eq!(state.worktrees[0].branch, "feature/x");
    assert_eq!(state.worktrees[0].path, "/repo/.gardener/feature-x");
}

#[test]
fn test_tui_clean_with_resolved_facts() {
    let day = 86400i64;
    let now = 100 * day;
    let mut state = TuiState::new(vec![
        record("main", "main"),
        record("merged-feature", "feature/merged"),
        record("stale-feature", "feature/stale"),
    ]);
    state.branch_facts = Some(vec![
        BranchFacts { merged_into_base: false, last_commit_time: Some(now - day) },
        BranchFacts { merged_into_base: true, last_commit_time: Some(now - day) },
        BranchFacts { merged_into_base: false, last_commit_time: Some(now - 40 * day) },
    ]);
    state.now = now;

    let message = state.execute_clean_action("merged").unwrap();
    assert_eq!(
        message,
        "Successfully deleted 1 worktree(s) using options: merged",
    );
    assert_eq!(state.worktrees.len(), 2);
    assert!(state.worktrees.iter().all(|w| w.name != "merged-feature"));
}

#[test]
fn test_tui_clean_merged_and_stale_together() {
    let day = 86400i64;
    let now = 100 * day;
    let mut state = TuiState::new(vec![
        record("main", "main"),
        record("merged-feature", "feature/merged"),
        record("stale-feature", "feature/stale"),
    ]);
    state.branch_facts = Some(vec![
        BranchFacts { merged_into_base: false, last_commit_time: Some(now - day) },
        BranchFacts { merged_into_base: true, last_commit_time: Some(now - day) },
        BranchFacts { merged_into_base: false, last_commit_time: Some(now - 40 * day) },
    ]);
    state.now = now;

    let message = state.execute_clean_action("merged,stale").unwrap();
    assert_eq!(
        message,
        "Successfully deleted 2 worktree(s) using options: merged,stale",
    );
    assert_eq!(state.worktrees.len(), 1);
    assert_eq!(state.worktrees[0].name, "main");
}

#[test]
fn test_tui_navigate_reports_selected_path() {
    let mut state = TuiState::new(vec![record("main", "main"), record("feature-a", "feature/a")]);
    state.selected_index = 1;
    state.set_action(Some(TuiAction::Navigate));
    let message = state.execute_current_action("").unwrap();
    assert_eq!(message, "Navigate to: /repo/.gardener/feature-a");
}

#[test]
fn test_tui_open_uses_configured_editor() {
    let mut state = TuiState::new(vec![record("main", "main")]);
    state.editor = Some("code ${WORKTREE_PATH}".to_string());
    let message = state.execute_open_action().unwrap();
    assert_eq!(
        message,
        "Editor launched: code opened worktree at /repo/.gardener/main",
    );
}

#[test]
fn test_tui_delete_needs_confirmation() {
    let mut state = TuiState::new(vec![record("main", "main")]);
    let message = state.execute_delete_action("n").unwrap();
    assert_eq!(message, "Delete cancelled");
    assert_eq!(state.worktrees.len(), 1);
}
