use git_gardener::config::{Hook, HookType};
use git_gardener::error::GitGardenerError;
use git_gardener::hooks::{HookExecutor, HookAction, HookRun};
use tempfile::tempdir;

#[test]
fn test_hook_executor_new_creates_instance() {
    let _executor = HookExecutor::new();
}

#[test]
fn test_hook_execution_placeholder() {
    let hook_executed = HookExecutor::mock_execute();
    assert!(hook_executed, "Hook should be executed");
}

#[test]
fn test_hook_executor_creation() {
    let executor = HookExecutor::new();
    let result = executor.execute_post_create(
        "/test/path",
        "test-branch",
        &["echo 'test'".to_string()],
    );
    assert!(result.is_ok(), "Hook execution should succeed");
}

#[test]
fn test_hook_executor_multiple_commands() {
    let executor = HookExecutor::new();
    let commands = vec![
        "echo 'first command'".to_string(),
        "echo 'second command'".to_string(),
    ];
    let result = executor.execute_post_create("/test/path", "feature/branch", &commands);
    assert!(result.is_ok(), "Multiple hook execution should succeed");
}

#[test]
fn test_expand_variables_keeps_plain_text() {
    let executor = HookExecutor::new();
    let expanded = executor.expand_variables("npm install", "/repo/.gardener/wt", "feature/x");
    assert_eq!(expanded, "npm install");
}

#[test]
fn test_expand_variables_substitutes_branch() {
    let executor = HookExecutor::new();
    let expanded = executor.expand_variables("echo ${BRANCH}", "/repo/.gardener/wt", "feature/x");
    assert_eq!(expanded, "echo feature/x");
    assert!(expanded.contains("feature/x"));
}

#[test]
fn test_expand_variables_substitutes_path_and_root() {
    let executor = HookExecutor::new();
    let expanded = executor.expand_variables(
        "cp ${REPO_ROOT}/env ${WORKTREE_PATH}/env for ${BRANCH}",
        "/repo/wt",
        "demo",
    );
    assert_eq!(expanded, "cp /repo/env /repo/wt/env for demo");
}

#[test]
fn test_execute_hooks_plans_in_order() {
    let executor = HookExecutor::new();
    let hooks = vec![
        Hook {
            hook_type: HookType::Copy,
            from: Some("${REPO_ROOT}/template.txt".to_string()),
            to: Some("copied.txt".to_string()),
            command: None,
            env: None,
        },
        Hook {
            hook_type: HookType::Command,
            from: None,
            to: None,
            command: Some("echo ${BRANCH}".to_string()),
            env: Some(vec![("NAME".to_string(), "${BRANCH}".to_string())]),
        },
    ];
    let actions = executor.execute_hooks("/repo/wt", "demo", &hooks).unwrap();
    assert_eq!(actions.len(), 2);
    match &actions[0] {
        HookAction::CopyFile { from, to } => {
            assert_eq!(from, "/repo/template.txt");
            assert_eq!(to, "/repo/wt/copied.txt");
        },
        HookAction::RunCommand { .. } => panic!("first action should be a copy"),
    }
    match &actions[1] {
        HookAction::RunCommand { command, env, workdir } => {
            assert_eq!(command, "echo demo");
            assert_eq!(workdir, "/repo/wt");
            assert_eq!(env.len(), 1);
            assert_eq!(env[0].0, "NAME");
            assert_eq!(env[0].1, "demo");
        },
        HookAction::CopyFile { .. } => panic!("second action should be a command"),
    }
}

#[test]
fn test_execute_copy_hook_fails_without_from_field() {
    let temp_dir = tempdir().unwrap();
    let worktree_path = temp_dir.path().join("worktree");

    let hook = Hook {
        hook_type: HookType::Copy,
        from: None,
        to: Some("dest.txt".to_string()),
        command: None,
        env: None,
    };

    let executor = HookExecutor::new();
    let result = executor.plan_copy_hook(&hook, worktree_path.to_str().unwrap(), "test-branch");

    assert!(result.is_err());
    let err = result.unwrap_err();
    assert!(matches!(err, GitGardenerError::Custom(_)));
    assert!(err.message().contains("Copy hook requires 'from' field"));
}

#[test]
fn test_execute_copy_hook_fails_without_to_field() {
    let temp_dir = tempdir().unwrap();
    let worktree_path = temp_dir.path().join("worktree");

    let hook = Hook {
        hook_type: HookType::Copy,
        from: Some("source.txt".to_string()),
        to: None,
        command: None,
        env: None,
    };

    let executor = HookExecutor::new();
    let result = executor.plan_copy_hook(&hook, worktree_path.to_str().unwrap(), "test-branch");

    assert!(result.is_err());
    let err = result.unwrap_err();
    assert!(matches!(err, GitGardenerError::Custom(_)));
    assert!(err.message().contains("Copy hook requires 'to' field"));
}

#[test]
fn test_execute_command_hook_fails_without_command_field() {
    let temp_dir = tempdir().unwrap();
    let worktree_path = temp_dir.path().join("worktree");

    let hook = Hook {
        hook_type: HookType::Command,
        from: None,
        to: None,
        command: None,
        env: None,
    };

    let executor = HookExecutor::new();
    let result = executor.plan_command_hook(&hook, worktree_path.to_str().unwrap(), "test-branch");

    assert!(result.is_err());
    let err = result.unwrap_err();
    assert!(matches!(err, GitGardenerError::Custom(_)));
    assert!(err.message().contains("Command hook requires 'command' field"));
}

#[test]
fn test_expand_variables_replaces_placeholders() {
    let temp_dir = tempdir().unwrap();
    let worktree_path = temp_dir.path().join("worktree");

    let executor = HookExecutor::new();
    let command = "echo '${BRANCH}' '${WORKTREE_PATH}'";
    let expanded = executor.expand_variables(
        command,
        worktree_path.to_str().unwrap(),
        "feature-test",
    );

    assert!(expanded.contains("feature-test"));
    assert!(expanded.contains(worktree_path.to_str().unwrap()));
}

#[test]
fn test_hook_run_fail_fast() {
    let executor = HookExecutor::new();
    let hooks = vec![
        Hook {
            hook_type: HookType::Command,
            from: None,
            to: None,
            command: Some("echo one".to_string()),
            env: None,
        },
        Hook {
            hook_type: HookType::Command,
            from: None,
            to: None,
            command: Some("echo two".to_string()),
            env: None,
        },
        Hook {
            hook_type: HookType::Command,
            from: None,
            to: None,
            command: Some("echo three".to_string()),
            env: None,
        },
    ];
    let actions = executor.execute_hooks("/repo/wt", "demo", &hooks).unwrap();
    let mut run = HookRun::new(actions);

    // the first hook succeeds
    assert!(run.next_action().is_some());
    run.record_success();

    // the second hook fails; the third must never be offered
    assert!(run.next_action().is_some());
    run.record_failure("second hook exited with status 1".to_string());

    assert!(run.next_action().is_none());
    assert_eq!(run.completed_count(), 1);
    let outcome = run.outcome();
    assert!(outcome.is_err());
    assert!(outcome.unwrap_err().message().contains("second hook exited with status 1"));
}

#[test]
fn test_copy_destination_absolute_to_is_kept() {
    let executor = HookExecutor::new();
    let hooks = vec![Hook {
        hook_type: HookType::Copy,
        from: Some("/etc/template".to_string()),
        to: Some("/abs/target.txt".to_string()),
        command: None,
        env: None,
    }];
    let actions = executor.execute_hooks("/repo/wt", "demo", &hooks).unwrap();
    match &actions[0] {
        HookAction::CopyFile { to, .. } => assert_eq!(to, "/abs/target.txt"),
        HookAction::RunCommand { .. } => panic!("expected a copy action"),
    }
}

#[test]
fn test_expand_repo_root_without_separator_is_empty() {
    let executor = HookExecutor::new();
    let expanded = executor.expand_variables("root=${REPO_ROOT}", "worktree", "b");
    assert_eq!(expanded, "root=");
}

#[test]
fn test_expand_repo_root_ignores_trailing_separator() {
    let executor = HookExecutor::new();
    let expanded = executor.expand_variables("${REPO_ROOT}", "/repo/wt/", "b");
    assert_eq!(expanded, "/repo");
}

#[test]
fn test_expand_repo_root_at_filesystem_root() {
    let executor = HookExecutor::new();
    let expanded = executor.expand_variables("${REPO_ROOT}", "/wt", "b");
    assert_eq!(expanded, "/");
}
