use git_gardener::error::GitGardenerError;
use git_gardener::commands::cd::resolve_worktree_path;
use git_gardener::commands::list::branch_lines;
use git_gardener::commands::prune::select_prunable;
use git_gardener::git::worktree::{
    WorktreeInfo, add_record, find_record_index, remove_record, exists_name_or_path,
    worktree_add_args, worktree_remove_args,
};

fn record(name: &str, branch: &str, prunable: bool) -> WorktreeInfo {
    WorktreeInfo {
        name: name.to_string(),
        path: format!("/repo/.gardener/{}", name),
        branch: branch.to_string(),
        is_prunable: prunable,
        status: None,
    }
}

#[test]
fn test_add_record_round_trip() {
    let mut records: Vec<WorktreeInfo> = Vec::new();
    let added = add_record(&mut records, record("demo", "demo", false));
    assert!(added.is_ok());

    let matching: Vec<&WorktreeInfo> = records.iter().filter(|w| w.branch == "demo").collect();
    assert_eq!(matching.len(), 1);
    assert_eq!(matching[0].name, "demo");

    let removed = remove_record(&mut records, "demo");
    assert!(removed.is_ok());
    assert_eq!(removed.unwrap().branch, "demo");
    assert_eq!(records.iter().filter(|w| w.branch == "demo").count(), 0);
}

#[test]
fn test_add_record_rejects_duplicate_name() {
    let mut records = vec![record("demo", "demo", false)];
    let result = add_record(&mut records, record("demo", "other", false));
    assert!(matches!(result, Err(GitGardenerError::WorktreeExists { .. })));
    assert_eq!(records.len(), 1);
}

#[test]
fn test_add_record_rejects_duplicate_path() {
    let mut records = vec![record("demo", "demo", false)];
    let clashing = WorktreeInfo {
        name: "other".to_string(),
        path: "/repo/.gardener/demo".to_string(),
        branch: "other".to_string(),
        is_prunable: false,
        status: None,
    };
    let result = add_record(&mut records, clashing);
    assert!(matches!(result, Err(GitGardenerError::WorktreeExists { .. })));
    assert_eq!(records.len(), 1);
}

#[test]
fn test_unique_names_kept_across_adds() {
    let mut records: Vec<WorktreeInfo> = Vec::new();
    assert!(add_record(&mut records, record("a", "a", false)).is_ok());
    assert!(add_record(&mut records, record("b", "b", false)).is_ok());
    assert!(add_record(&mut records, record("c", "c", false)).is_ok());
    assert!(add_record(&mut records, record("b", "again", false)).is_err());
    let mut names: Vec<&str> = records.iter().map(|w| w.name.as_str()).collect();
    names.sort();
    names.dedup();
    assert_eq!(names.len(), records.len());
}

#[test]
fn test_find_record_prefers_name_over_branch() {
    // one record is named like another record's branch
    let records = vec![record("feature-x", "feature/x", false), record("feature/x", "main", false)];
    // "feature/x" matches the second record's name first, not the first's branch
    let idx = find_record_index(&records, "feature/x");
    assert_eq!(idx, Some(1));
    // a plain branch identifier still resolves through the branch
    let idx = find_record_index(&records, "main");
    assert_eq!(idx, Some(1));
    assert_eq!(find_record_index(&records, "absent"), None);
}

#[test]
fn test_exists_name_or_path() {
    let records = vec![record("demo", "demo", false)];
    assert!(exists_name_or_path(&records, "demo", "/elsewhere"));
    assert!(exists_name_or_path(&records, "other", "/repo/.gardener/demo"));
    assert!(!exists_name_or_path(&records, "other", "/elsewhere"));
}

#[test]
fn test_remove_record_unknown_name() {
    let mut records = vec![record("demo", "demo", false)];
    let result = remove_record(&mut records, "absent");
    assert!(matches!(result, Err(GitGardenerError::WorktreeNotFound { .. })));
    assert_eq!(records.len(), 1);
}

#[test]
fn test_resolve_worktree_path_by_name_then_branch() {
    let records = vec![record("feature-a", "feature/a", false), record("feature-b", "feature/b", false)];
    assert_eq!(
        resolve_worktree_path(&records, "/repo/main", "feature-b").unwrap(),
        "/repo/.gardener/feature-b",
    );
    assert_eq!(
        resolve_worktree_path(&records, "/repo/main", "feature/a").unwrap(),
        "/repo/.gardener/feature-a",
    );
    let err = resolve_worktree_path(&records, "/repo/main", "absent").unwrap_err();
    assert!(err.message().contains("Worktree 'absent' not found"));
}

#[test]
fn test_resolve_worktree_path_at_names_repository_root() {
    let records = vec![record("feature-a", "feature/a", false)];
    assert_eq!(resolve_worktree_path(&records, "/repo/main", "@").unwrap(), "/repo/main");
    // `@` answers the root even over an empty listing
    assert_eq!(resolve_worktree_path(&Vec::new(), "/repo/main", "@").unwrap(), "/repo/main");
}

#[test]
fn test_branch_lines_projection() {
    let records = vec![record("feature-a", "feature/a", false), record("main", "main", false)];
    let lines = branch_lines(&records);
    assert_eq!(lines, vec!["feature/a".to_string(), "main".to_string()]);
}

#[test]
fn test_select_prunable_keeps_order() {
    let records = vec![
        record("a", "a", false),
        record("b", "b", true),
        record("c", "c", false),
        record("d", "d", true),
    ];
    let prunable = select_prunable(&records);
    assert_eq!(prunable.len(), 2);
    assert_eq!(prunable[0].name, "b");
    assert_eq!(prunable[1].name, "d");
}

#[test]
fn test_worktree_add_args_shapes() {
    let args = worktree_add_args("/p/w", "feature/x", false, None);
    assert_eq!(args, vec!["worktree", "add", "/p/w", "feature/x"]);

    let args = worktree_add_args("/p/w", "feature/x", true, None);
    assert_eq!(args, vec!["worktree", "add", "-b", "feature/x", "/p/w"]);

    let args = worktree_add_args("/p/w", "feature/x", true, Some("abc123"));
    assert_eq!(args, vec!["worktree", "add", "-b", "feature/x", "/p/w", "abc123"]);
}

#[test]
fn test_worktree_remove_args_shapes() {
    assert_eq!(worktree_remove_args("/p/w", false), vec!["worktree", "remove", "/p/w"]);
    assert_eq!(
        worktree_remove_args("/p/w", true),
        vec!["worktree", "remove", "--force", "/p/w"],
    );
}

#[test]
fn test_decimal_rendering() {
    assert_eq!(git_gardener::text::usize_string(0), "0");
    assert_eq!(git_gardener::text::usize_string(7), "7");
    assert_eq!(git_gardener::text::usize_string(1234), "1234");
}
