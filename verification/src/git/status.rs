//! Point-in-time Git state of one worktree: staged and unstaged change
//! flags read from the repository, and the category derived from them.

use vstd::prelude::*;
use crate::error::GitGardenerError;

verus! {

/// The working-tree cleanliness of one worktree checkout. `Ahead`, `Behind`
/// and `Diverged` are reserved for upstream comparison, which is not
/// computed; no code here produces them.
#[derive(Debug, Clone, Copy, PartialEq, Eq, Structural)]
pub enum WorktreeStatus {
    Clean,
    Dirty,
    Ahead,
    Behind,
    Diverged,
}

/// A snapshot of one worktree's Git state.
#[derive(Debug, Clone)]
pub struct GitStatus {
    /// The derived category: dirty as soon as any change flag is set.
    pub working_tree_status: WorktreeStatus,
    /// Whether any index entry differs from HEAD.
    pub has_staged_changes: bool,
    /// Whether any working-tree file differs from the index.
    pub has_unstaged_changes: bool,
    /// Unix timestamp of the HEAD commit, when HEAD resolves to one.
    pub last_commit_time: Option<i64>,
    /// Reserved: commits ahead of upstream. Never computed, always 0.
    pub ahead_count: u32,
    /// Reserved: commits behind upstream. Never computed, always 0.
    pub behind_count: u32,
}

/// The per-entry status bits that mark a staged (index) change, as libgit2
/// defines them: index new, modified, deleted, renamed, typechange.
pub const STAGED_MASK: u32 = 1 | 2 | 4 | 8 | 16;

/// The per-entry status bits that mark an unstaged (working-tree) change:
/// worktree new, modified, deleted, typechange, renamed.
pub const UNSTAGED_MASK: u32 = 128 | 256 | 512 | 1024 | 2048;

/// Entry bits `bits` mark a staged change.
pub open spec fn is_staged_entry(bits: u32) -> bool {
    bits & STAGED_MASK != 0
}

/// Entry bits `bits` mark an unstaged change.
pub open spec fn is_unstaged_entry(bits: u32) -> bool {
    bits & UNSTAGED_MASK != 0
}

/// Some entry in `flags` marks a staged change.
pub open spec fn any_staged(flags: Seq<u32>) -> bool {
    exists|i: int| 0 <= i < flags.len() && is_staged_entry(#[trigger] flags[i])
}

/// Some entry in `flags` marks an unstaged change.
pub open spec fn any_unstaged(flags: Seq<u32>) -> bool {
    exists|i: int| 0 <= i < flags.len() && is_unstaged_entry(#[trigger] flags[i])
}

/// The derivation rule for the status category: `Dirty` as soon as either
/// change flag is set, else `Clean`.
pub open spec fn derived_status(has_staged: bool, has_unstaged: bool) -> WorktreeStatus {
    if has_staged || has_unstaged {
        WorktreeStatus::Dirty
    } else {
        WorktreeStatus::Clean
    }
}

/// Relies on git2: `Repository::statuses` enumerates the index and
/// working-tree differences; each entry's `status()` flags are handed back
/// as their raw bits, one per entry.
#[verifier::external_body]
fn status_entry_bits(repo: &git2::Repository) -> (r: Result<Vec<u32>, GitGardenerError>) {
    match repo.statuses(None) {
        Ok(statuses) => Ok(statuses.iter().map(|e| e.status().bits()).collect()),
        Err(e) => Err(GitGardenerError::Custom(format!("Failed to get repository status: {}", e))),
    }
}

/// Relies on git2: `Repository::head`, `Reference::target` and
/// `Repository::find_commit` resolve HEAD to a commit, whose committer
/// timestamp `Commit::time().seconds()` is handed back; nothing when any
/// step fails.
#[verifier::external_body]
fn head_commit_time(repo: &git2::Repository) -> (r: Option<i64>) {
    repo.head().ok().and_then(|reference| reference.target()).and_then(
        |oid| repo.find_commit(oid).ok(),
    ).map(|commit| commit.time().seconds())
}

/// Relies on git2: `Repository::open` opens the checkout at `path`; the
/// error is mapped to this library's words.
#[verifier::external_body]
fn open_repository_at(path: &str) -> (r: Result<git2::Repository, GitGardenerError>) {
    git2::Repository::open(path).map_err(
        |e| GitGardenerError::Custom(format!("Failed to open repository: {}", e)),
    )
}

/// Scans the per-entry status bits: some entry marks a staged change, and
/// some entry marks an unstaged change — each exactly when such an entry is
/// in `flags`.
pub fn scan_status_flags(flags: &Vec<u32>) -> (r: (bool, bool))
    ensures
        r.0 == any_staged(flags@),
        r.1 == any_unstaged(flags@),
{
    let mut has_staged = false;
    let mut has_unstaged = false;
    let n = flags.len();
    let mut i: usize = 0;
    while i < n
        invariant
            i <= n == flags@.len(),
            has_staged == any_staged(flags@.take(i as int)),
            has_unstaged == any_unstaged(flags@.take(i as int)),
        decreases n - i,
    {
        let bits = flags[i];
        proof {
            let pre = flags@.take(i as int);
            let cur = flags@.take(i + 1);
            assert(cur.len() == i + 1);
            assert(forall|k: int| 0 <= k < i ==> cur[k] == pre[k]);
            assert(cur[i as int] == flags@[i as int]);
            if is_staged_entry(bits) {
                assert(any_staged(cur));
            } else {
                assert forall|k: int| 0 <= k < cur.len() && is_staged_entry(
                    #[trigger] cur[k],
                ) implies any_staged(pre) by {
                    if k < i {
                        assert(pre[k] == cur[k]);
                    }
                }
            }
            if is_unstaged_entry(bits) {
                assert(any_unstaged(cur));
            } else {
                assert forall|k: int| 0 <= k < cur.len() && is_unstaged_entry(
                    #[trigger] cur[k],
                ) implies any_unstaged(pre) by {
                    if k < i {
                        assert(pre[k] == cur[k]);
                    }
                }
            }
        }
        if bits & STAGED_MASK != 0 {
            has_staged = true;
        }
        if bits & UNSTAGED_MASK != 0 {
            has_unstaged = true;
        }
        i += 1;
    }
    proof {
        assert(flags@.take(flags@.len() as int) =~= flags@);
    }
    (has_staged, has_unstaged)
}

impl GitStatus {
    /// Inspects the checkout at `path`. Any failure to open or query is an
    /// error the caller treats as "status unknown", never as fatal.
    pub fn from_path(path: &str) -> (r: Result<GitStatus, GitGardenerError>)
        ensures
            r matches Ok(st) ==> st.working_tree_status == derived_status(
                st.has_staged_changes,
                st.has_unstaged_changes,
            ) && st.ahead_count == 0 && st.behind_count == 0,
    {
        let repo = open_repository_at(path)?;
        Self::from_repository(&repo)
    }

    /// Inspects an open repository: scans the status entries for staged and
    /// unstaged changes and derives the category from exactly those flags.
    pub fn from_repository(repo: &git2::Repository) -> (r: Result<GitStatus, GitGardenerError>)
        ensures
            r matches Ok(st) ==> st.working_tree_status == derived_status(
                st.has_staged_changes,
                st.has_unstaged_changes,
            ) && st.ahead_count == 0 && st.behind_count == 0,
    {
        let flags = status_entry_bits(repo)?;
        let scanned = scan_status_flags(&flags);
        let has_staged_changes = scanned.0;
        let has_unstaged_changes = scanned.1;
        let working_tree_status = if has_staged_changes || has_unstaged_changes {
            WorktreeStatus::Dirty
        } else {
            WorktreeStatus::Clean
        };
        let last_commit_time = head_commit_time(repo);
        Ok(
            GitStatus {
                working_tree_status,
                has_staged_changes,
                has_unstaged_changes,
                last_commit_time,
                ahead_count: 0,
                behind_count: 0,
            },
        )
    }
}

} // verus!
