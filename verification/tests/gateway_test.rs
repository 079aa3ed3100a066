use git_gardener::cleanup::{BranchFacts, select_for_removal};
use git_gardener::commands::clean::CleanCommand;
use git_gardener::git::{GitStatus, GitWorktree, WorktreeStatus};
use git_gardener::git::worktree::WorktreeInfo;
use tempfile::TempDir;
use git2::Repository;

fn repo_path_str(temp_dir: &TempDir) -> String {
    temp_dir.path().to_str().unwrap().to_string()
}

fn init_repo(temp_dir: &TempDir) -> Repository {
    let repo = Repository::init(temp_dir.path()).unwrap();
    {
        let mut config = repo.config().unwrap();
        config.set_str("user.name", "Test User").unwrap();
        config.set_str("user.email", "test@example.com").unwrap();
    }
    // pin the unborn default branch to `main`, whatever the host defaults to
    repo.set_head("refs/heads/main").unwrap();
    repo
}

fn empty_tree_commit(repo: &Repository, message: &str, parents: &[git2::Oid]) -> git2::Oid {
    let tree_id = repo.treebuilder(None).unwrap().write().unwrap();
    let tree = repo.find_tree(tree_id).unwrap();
    let signature = repo.signature().unwrap();
    let parent_commits: Vec<git2::Commit> =
        parents.iter().map(|oid| repo.find_commit(*oid).unwrap()).collect();
    let parent_refs: Vec<&git2::Commit> = parent_commits.iter().collect();
    repo.commit(Some("HEAD"), &signature, &signature, message, &tree, &parent_refs).unwrap()
}

fn commit_on_ref(
    repo: &Repository,
    reference: &str,
    message: &str,
    parents: &[git2::Oid],
    when: Option<i64>,
) -> git2::Oid {
    let tree_id = repo.treebuilder(None).unwrap().write().unwrap();
    let tree = repo.find_tree(tree_id).unwrap();
    let signature = match when {
        Some(t) => {
            git2::Signature::new("Test User", "test@example.com", &git2::Time::new(t, 0)).unwrap()
        },
        None => repo.signature().unwrap(),
    };
    let parent_commits: Vec<git2::Commit> =
        parents.iter().map(|oid| repo.find_commit(*oid).unwrap()).collect();
    let parent_refs: Vec<&git2::Commit> = parent_commits.iter().collect();
    repo.commit(Some(reference), &signature, &signature, message, &tree, &parent_refs).unwrap()
}

fn now_seconds() -> i64 {
    std::time::SystemTime::now()
        .duration_since(std::time::UNIX_EPOCH)
        .unwrap()
        .as_secs() as i64
}

#[test]
fn test_is_branch_merged_returns_false_for_unmerged_branch() {
    let temp_dir = TempDir::new().unwrap();
    let repo = init_repo(&temp_dir);

    let initial = empty_tree_commit(&repo, "Initial commit", &[]);

    let commit = repo.find_commit(initial).unwrap();
    repo.branch("feature/test", &commit, false).unwrap();

    let git_worktree = GitWorktree::from_path(&repo_path_str(&temp_dir)).unwrap();

    let result = git_worktree.is_branch_merged("feature/test", "main");
    assert_eq!(result.unwrap(), false);
}

#[test]
fn test_is_worktree_stale_based_on_last_commit() {
    let temp_dir = TempDir::new().unwrap();
    let repo = init_repo(&temp_dir);

    empty_tree_commit(&repo, "Initial commit", &[]);

    let git_worktree = GitWorktree::from_path(&repo_path_str(&temp_dir)).unwrap();

    let result = git_worktree.is_worktree_stale("main", 30);
    assert_eq!(result.unwrap(), false);
}

#[test]
fn test_is_worktree_stale_returns_true_for_old_branch() {
    let temp_dir = TempDir::new().unwrap();
    let repo = init_repo(&temp_dir);

    let days_ago_timestamp = now_seconds() - 40 * 24 * 60 * 60;
    commit_on_ref(&repo, "HEAD", "Initial commit", &[], Some(days_ago_timestamp));

    let git_worktree = GitWorktree::from_path(&repo_path_str(&temp_dir)).unwrap();

    let result = git_worktree.is_worktree_stale("main", 30);
    assert_eq!(result.unwrap(), true);
}

#[test]
fn test_is_branch_merged_returns_true_for_merged_branch() {
    let temp_dir = TempDir::new().unwrap();
    let repo = init_repo(&temp_dir);

    let initial = empty_tree_commit(&repo, "Initial commit", &[]);

    let commit = repo.find_commit(initial).unwrap();
    repo.branch("feature/merged", &commit, false).unwrap();

    let feature_commit =
        commit_on_ref(&repo, "refs/heads/feature/merged", "Add feature", &[initial], None);

    commit_on_ref(
        &repo,
        "refs/heads/main",
        "Merge branch 'feature/merged'",
        &[initial, feature_commit],
        None,
    );

    let git_worktree = GitWorktree::from_path(&repo_path_str(&temp_dir)).unwrap();

    let result = git_worktree.is_branch_merged("feature/merged", "main");
    assert_eq!(result.unwrap(), true);
}

#[test]
fn test_branch_exists_after_creation() {
    let temp_dir = TempDir::new().unwrap();
    let repo = init_repo(&temp_dir);
    let initial = empty_tree_commit(&repo, "Initial commit", &[]);
    let commit = repo.find_commit(initial).unwrap();
    repo.branch("feature/present", &commit, false).unwrap();

    let git_worktree = GitWorktree::from_path(&repo_path_str(&temp_dir)).unwrap();
    assert_eq!(git_worktree.branch_exists("feature/present").unwrap(), true);
    assert_eq!(git_worktree.branch_exists("feature/absent").unwrap(), false);
}

#[test]
fn test_git_status_clean() {
    let temp_dir = TempDir::new().unwrap();
    let repo = init_repo(&temp_dir);
    empty_tree_commit(&repo, "Initial commit", &[]);

    let status = GitStatus::from_path(&repo_path_str(&temp_dir)).unwrap();
    assert_eq!(status.working_tree_status, WorktreeStatus::Clean);
    assert!(!status.has_staged_changes);
    assert!(!status.has_unstaged_changes);
}

#[test]
fn test_git_status_staged_change_detected() {
    let temp_dir = TempDir::new().unwrap();
    let repo = init_repo(&temp_dir);
    empty_tree_commit(&repo, "Initial commit", &[]);

    // stage a new file straight into the index, without touching the
    // working tree
    let mut index = repo.index().unwrap();
    let entry = git2::IndexEntry {
        ctime: git2::IndexTime::new(0, 0),
        mtime: git2::IndexTime::new(0, 0),
        dev: 0,
        ino: 0,
        mode: 0o100644,
        uid: 0,
        gid: 0,
        file_size: 5,
        id: git2::Oid::zero(),
        flags: 0,
        flags_extended: 0,
        path: "staged.txt".to_string().into_bytes(),
    };
    index.add_frombuffer(&entry, b"hello").unwrap();
    index.write().unwrap();

    let status = GitStatus::from_path(&repo_path_str(&temp_dir)).unwrap();
    assert_eq!(status.working_tree_status, WorktreeStatus::Dirty);
    assert!(status.has_staged_changes);
}

#[test]
fn test_git_status_last_commit_time() {
    let temp_dir = TempDir::new().unwrap();
    let repo = init_repo(&temp_dir);
    empty_tree_commit(&repo, "Initial commit", &[]);

    let status = GitStatus::from_path(&repo_path_str(&temp_dir)).unwrap();
    assert!(status.last_commit_time.is_some());

    let now = now_seconds();
    let commit_time = status.last_commit_time.unwrap();

    assert!((now - commit_time).abs() < 60);
}

#[test]
fn test_clean_merged_scenario() {
    // a repository with `main` and `feature/done`, the latter merged into
    // `main` through a merge commit
    let temp_dir = TempDir::new().unwrap();
    let repo = init_repo(&temp_dir);
    let initial = empty_tree_commit(&repo, "Initial commit", &[]);
    let commit = repo.find_commit(initial).unwrap();
    repo.branch("feature/done", &commit, false).unwrap();
    let feature_commit =
        commit_on_ref(&repo, "refs/heads/feature/done", "Finish feature", &[initial], None);
    commit_on_ref(
        &repo,
        "refs/heads/main",
        "Merge branch 'feature/done'",
        &[initial, feature_commit],
        None,
    );

    let git_worktree = GitWorktree::from_path(&repo_path_str(&temp_dir)).unwrap();

    let records = vec![
        WorktreeInfo {
            name: "main".to_string(),
            path: format!("{}/main", repo_path_str(&temp_dir)),
            branch: "main".to_string(),
            is_prunable: false,
            status: None,
        },
        WorktreeInfo {
            name: "feature-done".to_string(),
            path: format!("{}/.gardener/feature-done", repo_path_str(&temp_dir)),
            branch: "feature/done".to_string(),
            is_prunable: false,
            status: None,
        },
    ];

    // the gateway resolves the facts the policy engine decides over
    let mut facts: Vec<BranchFacts> = Vec::new();
    for record in records.iter() {
        facts.push(BranchFacts {
            merged_into_base: git_worktree.is_branch_merged(&record.branch, "main").unwrap(),
            last_commit_time: None,
        });
    }

    let policy = CleanCommand::new(true, None, false).policy("main");
    let candidates = select_for_removal(&records, &facts, &policy, now_seconds());

    assert_eq!(candidates.len(), 2);
    assert!(!candidates[0].eligible, "the base branch's own worktree is left untouched");
    assert!(candidates[1].eligible, "the merged branch's worktree is removed");
    assert_eq!(candidates[1].worktree_name, "feature-done");
}
