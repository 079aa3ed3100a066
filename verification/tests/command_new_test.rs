use git_gardener::commands::add::AddCommand;
use git_gardener::commands::cd::CdCommand;
use git_gardener::commands::completion::CompletionShell;
use git_gardener::commands::init::InitCommand;
use git_gardener::commands::list::ListCommand;
use git_gardener::commands::remove::RemoveCommand;
use git_gardener::commands::shell_init::ShellInitCommand;

#[test]
fn test_add_command_new_creates_instance() {
    let cmd = AddCommand::new("test-branch".to_string(), true, None);

    assert_eq!(cmd.branch, "test-branch");
    assert_eq!(cmd.new_branch, true);
    assert_eq!(cmd.commit, None);
}

#[test]
fn test_add_command_new_with_commit() {
    let cmd = AddCommand::new(
        "feature-branch".to_string(),
        false,
        Some("abc123".to_string()),
    );

    assert_eq!(cmd.branch, "feature-branch");
    assert_eq!(cmd.new_branch, false);
    assert_eq!(cmd.commit, Some("abc123".to_string()));
}

#[test]
fn test_cd_command_new_creates_instance() {
    let cmd = CdCommand::new("test-branch".to_string());
    assert_eq!(cmd.worktree, "test-branch");
}

#[test]
fn test_init_command_new_creates_instance() {
    let cmd = InitCommand::new(false);
    assert!(!cmd.force);
    let cmd = InitCommand::new(true);
    assert!(cmd.force);
}

#[test]
fn test_list_command_new_creates_instance() {
    let cmd = ListCommand::new(false);
    assert!(!cmd.names_only);
    let cmd = ListCommand::new(true);
    assert!(cmd.names_only);
}

#[test]
fn test_remove_command_new_creates_instance() {
    let cmd = RemoveCommand::new("test-branch".to_string(), false);

    assert_eq!(cmd.worktree, "test-branch");
    assert!(!cmd.with_branch);
    let cmd = RemoveCommand::new("test-branch".to_string(), true);
    assert_eq!(cmd.worktree, "test-branch");
    assert!(cmd.with_branch);
}

#[test]
fn test_shell_init_command_new_creates_instance() {
    let cmd = ShellInitCommand::new(CompletionShell::Bash);
    assert!(matches!(cmd.shell, CompletionShell::Bash));
}

#[test]
fn test_bash_script_contains_function_definition() {
    let cmd = ShellInitCommand::new(CompletionShell::Bash);
    let script = cmd.generate_bash_script();
    assert!(script.contains("ggr()"));
}

#[test]
fn test_zsh_script_contains_function_definition() {
    let cmd = ShellInitCommand::new(CompletionShell::Zsh);
    let script = cmd.generate_zsh_script();
    assert!(script.contains("ggr()"));
}

#[test]
fn test_fish_script_contains_function_definition() {
    let cmd = ShellInitCommand::new(CompletionShell::Fish);
    let script = cmd.generate_fish_script();
    assert!(script.contains("function ggr"));
}
