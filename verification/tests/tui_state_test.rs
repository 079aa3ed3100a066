use git_gardener::commands::tui::{TuiState, TuiAction, DialogMode};
use git_gardener::git::WorktreeInfo;

fn create_test_worktrees() -> Vec<WorktreeInfo> {
    vec![
        WorktreeInfo {
            name: "main".to_string(),
            path: "/test/main".to_string(),
            branch: "main".to_string(),
            is_prunable: false,
            status: None,
        },
        WorktreeInfo {
            name: "merged-feature".to_string(),
            path: "/test/merged-feature".to_string(),
            branch: "feature/merged".to_string(),
            is_prunable: false,
            status: None,
        },
        WorktreeInfo {
            name: "stale-feature".to_string(),
            path: "/test/stale-feature".to_string(),
            branch: "feature/stale".to_string(),
            is_prunable: false,
            status: None,
        },
    ]
}

fn create_open_test_worktrees() -> Vec<WorktreeInfo> {
    vec![
        WorktreeInfo {
            name: "main".to_string(),
            path: "/test/main".to_string(),
            branch: "main".to_string(),
            is_prunable: false,
            status: None,
        },
        WorktreeInfo {
            name: "feature-test".to_string(),
            path: "/test/feature-test".to_string(),
            branch: "feature/test".to_string(),
            is_prunable: false,
            status: None,
        },
    ]
}

#[test]
fn test_tui_clean_merged_worktrees() {
    let worktrees = create_test_worktrees();
    let initial_count = worktrees.len();
    let mut state = TuiState::new(worktrees);

    state.set_action(Some(TuiAction::Clean));

    let result = state.execute_clean_action("merged");

    assert!(result.is_ok());
    let message = result.unwrap();
    assert!(
        message.contains("deleted") || message.contains("removed") || message.contains(
            "No worktrees were removed",
        ),
        "Expected deletion or no-deletion message, got: {}",
        message,
    );

    assert!(
        state.worktrees.len() <= initial_count,
        "Expected worktree count to not increase from {}, got: {}",
        initial_count,
        state.worktrees.len(),
    );
}

#[test]
fn test_tui_clean_stale_worktrees() {
    let worktrees = create_test_worktrees();
    let initial_count = worktrees.len();
    let mut state = TuiState::new(worktrees);

    state.set_action(Some(TuiAction::Clean));

    let result = state.execute_clean_action("stale");

    assert!(result.is_ok());
    let message = result.unwrap();
    assert!(
        message.contains("deleted") || message.contains("removed") || message.contains(
            "No worktrees were removed",
        ),
        "Expected deletion or no-deletion message, got: {}",
        message,
    );

    assert!(
        state.worktrees.len() <= initial_count,
        "Expected worktree count to not increase from {}, got: {}",
        initial_count,
        state.worktrees.len(),
    );
}

#[test]
fn tui_test_tui_clean_multiple_options() {
    let worktrees = create_test_worktrees();
    let initial_count = worktrees.len();
    let mut state = TuiState::new(worktrees);

    state.set_action(Some(TuiAction::Clean));

    let result = state.execute_clean_action("merged,stale");

    assert!(result.is_ok());
    let message = result.unwrap();
    assert!(
        message.contains("deleted") || message.contains("removed") || message.contains(
            "No worktrees were removed",
        ),
        "Expected deletion or no-deletion message, got: {}",
        message,
    );

    assert!(
        state.worktrees.len() <= initial_count,
        "Expected worktree count to not increase from {}, got: {}",
        initial_count,
        state.worktrees.len(),
    );
}

#[test]
fn test_tui_clean_no_options_error() {
    let worktrees = create_test_worktrees();
    let mut state = TuiState::new(worktrees);

    state.set_action(Some(TuiAction::Clean));

    let result = state.execute_clean_action("");

    assert!(result.is_err(), "Expected error for empty options, got: {:?}", result);
}

#[test]
fn test_tui_open_action_with_selected_worktree() {
    let worktrees = create_open_test_worktrees();
    let mut state = TuiState::new(worktrees);

    state.selected_index = 0;
    state.set_action(Some(TuiAction::Open));

    let result = state.execute_current_action("");

    assert!(result.is_ok());
    let message = result.unwrap();
    assert!(
        message.contains("opened") || message.contains("launched") || message.contains("editor"),
        "Expected editor launch message, got: {}",
        message,
    );
}

#[test]
fn test_tui_open_action_no_worktree_selected() {
    let worktrees = Vec::new();
    let mut state = TuiState::new(worktrees);

    state.set_action(Some(TuiAction::Open));

    let result = state.execute_current_action("");

    match result {
        Ok(message) => {
            assert!(
                message.contains("No worktree") || message.contains("empty"),
                "Expected no worktree message, got: {}",
                message,
            );
        },
        Err(_) => {},
    }
}

#[test]
fn test_tui_open_action_with_config_editor() {
    let worktrees = create_open_test_worktrees();
    let mut state = TuiState::new(worktrees);

    state.selected_index = 0;
    state.set_action(Some(TuiAction::Open));

    let result = state.execute_current_action("");

    assert!(result.is_ok());
    let message = result.unwrap();
    assert!(
        message.contains("editor") || message.contains("opened") || message.contains("launched"),
        "Expected editor command execution message, got: {}",
        message,
    );
}

#[test]
fn test_tui_open_action_path_substitution() {
    let worktrees = create_open_test_worktrees();
    let mut state = TuiState::new(worktrees);

    state.selected_index = 1;
    state.set_action(Some(TuiAction::Open));

    let result = state.execute_current_action("");

    assert!(result.is_ok());
    let message = result.unwrap();
    assert!(
        message.contains("feature-test") || message.contains("/test/feature-test"),
        "Expected path substitution in message, got: {}",
        message,
    );
}

#[test]
fn test_tui_clean_dialog_initialization() {
    let worktrees = create_open_test_worktrees();
    let mut state = TuiState::new(worktrees);

    state.set_action(Some(TuiAction::Clean));
    state.enter_dialog_mode(DialogMode::CleanOptions);

    assert!(state.is_in_dialog());
    assert_eq!(state.get_dialog_mode(), Some(DialogMode::CleanOptions));

    assert_eq!(state.get_clean_options(), "");
}

#[test]
fn test_tui_clean_merged_option() {
    let worktrees = create_open_test_worktrees();
    let mut state = TuiState::new(worktrees);

    state.set_action(Some(TuiAction::Clean));
    state.enter_dialog_mode(DialogMode::CleanOptions);

    state.toggle_clean_option('m');

    let options = state.get_clean_options();
    assert!(options.contains("merged"));
}

#[test]
fn test_tui_clean_stale_option() {
    let worktrees = create_open_test_worktrees();
    let mut state = TuiState::new(worktrees);

    state.set_action(Some(TuiAction::Clean));
    state.enter_dialog_mode(DialogMode::CleanOptions);

    state.toggle_clean_option('s');

    let options = state.get_clean_options();
    assert!(options.contains("stale"));
}

#[test]
fn test_tui_clean_multiple_options() {
    let worktrees = create_open_test_worktrees();
    let mut state = TuiState::new(worktrees);

    state.set_action(Some(TuiAction::Clean));
    state.enter_dialog_mode(DialogMode::CleanOptions);

    state.toggle_clean_option('m');
    state.toggle_clean_option('s');

    let options = state.get_clean_options();
    assert!(options.contains("merged"));
    assert!(options.contains("stale"));
}

#[test]
fn test_tui_clean_option_toggle() {
    let worktrees = create_open_test_worktrees();
    let mut state = TuiState::new(worktrees);

    state.set_action(Some(TuiAction::Clean));
    state.enter_dialog_mode(DialogMode::CleanOptions);

    state.toggle_clean_option('m');
    assert!(state.get_clean_options().contains("merged"));

    state.toggle_clean_option('m');
    assert!(!state.get_clean_options().contains("merged"));
}

#[test]
fn test_tui_clean_dialog_confirmation() {
    let worktrees = create_open_test_worktrees();
    let mut state = TuiState::new(worktrees);

    state.set_action(Some(TuiAction::Clean));
    state.enter_dialog_mode(DialogMode::CleanOptions);

    state.toggle_clean_option('m');
    state.toggle_clean_option('s');

    let clean_options = state.confirm_dialog();

    assert!(clean_options.is_some());
    let options = clean_options.unwrap();
    assert!(options.contains("merged"));
    assert!(options.contains("stale"));
    assert!(!state.is_in_dialog());
}

#[test]
fn test_tui_clean_dialog_empty_confirmation() {
    let worktrees = create_open_test_worktrees();
    let mut state = TuiState::new(worktrees);

    state.set_action(Some(TuiAction::Clean));
    state.enter_dialog_mode(DialogMode::CleanOptions);

    let clean_options = state.confirm_dialog();

    assert_eq!(clean_options, None);
    assert!(state.is_in_dialog());
}

#[test]
fn test_tui_action_no_action_set() {
    let worktrees = create_open_test_worktrees();
    let mut state = TuiState::new(worktrees);

    let result = state.execute_current_action("");

    assert!(result.is_err());
    let message = result.unwrap_err().message();
    assert!(message.contains("No action"));
}
