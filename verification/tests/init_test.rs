use git_gardener::commands::init::gitignore_with_entry;

#[test]
fn test_gitignore_created_when_missing() {
    let result = gitignore_with_entry(None);
    assert_eq!(result, Some(".gardener/\n".to_string()));
}

#[test]
fn test_gitignore_entry_appended_to_existing_content() {
    let result = gitignore_with_entry(Some("node_modules/\n*.log\n"));
    assert_eq!(result, Some("node_modules/\n*.log\n.gardener/\n".to_string()));
}

#[test]
fn test_gitignore_newline_inserted_when_missing() {
    let result = gitignore_with_entry(Some("*.log\n/target/"));
    assert_eq!(result, Some("*.log\n/target/\n.gardener/\n".to_string()));
}

#[test]
fn test_gitignore_not_duplicated() {
    let result = gitignore_with_entry(Some(".gardener/\nnode_modules/\n"));
    assert_eq!(result, None);

    // the entry counts even when padded with blanks on its line
    let result = gitignore_with_entry(Some("node_modules/\n  .gardener/  \n"));
    assert_eq!(result, None);
}
