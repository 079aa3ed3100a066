//! The worktree gateway: records describing the registered worktrees, the
//! pure bookkeeping over them (lookup, insertion with a uniqueness check,
//! removal), and the thin seam over the installed Git implementation through
//! which repository state is read.

use vstd::prelude::*;
use crate::error::GitGardenerError;
use crate::git::status::{GitStatus, WorktreeStatus, derived_status};
use crate::text::str_eq;

verus! {

/// One registered Git worktree.
#[derive(Debug, Clone)]
pub struct WorktreeInfo {
    /// Unique identifier, derived from the branch name.
    pub name: String,
    /// Filesystem location of the checkout.
    pub path: String,
    /// The branch checked out there.
    pub branch: String,
    /// Whether Git considers the worktree's administrative data orphaned.
    pub is_prunable: bool,
    /// Status snapshot; absent when inspection failed.
    pub status: Option<GitStatus>,
}

/// One registered worktree together with a status that is always present,
/// a default standing in where inspection failed.
#[derive(Debug, Clone)]
pub struct WorktreeInfoWithStatus {
    pub name: String,
    pub path: String,
    pub branch: String,
    pub is_prunable: bool,
    pub status: GitStatus,
}

/// No two records share a name, and no two share a path.
pub open spec fn unique_records(rs: Seq<WorktreeInfo>) -> bool {
    forall|i: int, j: int|
        0 <= i < j < rs.len() ==> (#[trigger] rs[i]).name@ != (#[trigger] rs[j]).name@
            && rs[i].path@ != rs[j].path@
}

/// Some record already carries this name or this path.
pub open spec fn has_name_or_path(rs: Seq<WorktreeInfo>, name: Seq<char>, path: Seq<char>) -> bool {
    exists|i: int| 0 <= i < rs.len() && ((#[trigger] rs[i]).name@ == name || rs[i].path@ == path)
}

/// The position of the first record named `name`, or -1.
pub open spec fn first_with_name(rs: Seq<WorktreeInfo>, name: Seq<char>) -> int
    decreases rs.len(),
{
    if rs.len() == 0 {
        -1
    } else if rs[0].name@ == name {
        0
    } else {
        let r = first_with_name(rs.skip(1), name);
        if r < 0 {
            -1
        } else {
            r + 1
        }
    }
}

/// The position of the first record whose branch is `branch`, or -1.
pub open spec fn first_with_branch(rs: Seq<WorktreeInfo>, branch: Seq<char>) -> int
    decreases rs.len(),
{
    if rs.len() == 0 {
        -1
    } else if rs[0].branch@ == branch {
        0
    } else {
        let r = first_with_branch(rs.skip(1), branch);
        if r < 0 {
            -1
        } else {
            r + 1
        }
    }
}

/// How many records carry branch `b`.
pub open spec fn count_with_branch(rs: Seq<WorktreeInfo>, b: Seq<char>) -> nat
    decreases rs.len(),
{
    if rs.len() == 0 {
        0
    } else {
        count_with_branch(rs.drop_last(), b) + if rs.last().branch@ == b {
            1nat
        } else {
            0nat
        }
    }
}


/// The first-match position is always inside the list, and names a record
/// that really matches.
pub proof fn lemma_first_with_name_props(rs: Seq<WorktreeInfo>, name: Seq<char>)
    ensures
        first_with_name(rs, name) < rs.len(),
        first_with_name(rs, name) >= 0 ==> rs[first_with_name(rs, name)].name@ == name,
    decreases rs.len(),
{
    if rs.len() > 0 {
        lemma_first_with_name_props(rs.skip(1), name);
    }
}

/// The first-match position is always inside the list, and names a record
/// whose branch really matches.
pub proof fn lemma_first_with_branch_props(rs: Seq<WorktreeInfo>, branch: Seq<char>)
    ensures
        first_with_branch(rs, branch) < rs.len(),
        first_with_branch(rs, branch) >= 0 ==> rs[first_with_branch(rs, branch)].branch@ == branch,
    decreases rs.len(),
{
    if rs.len() > 0 {
        lemma_first_with_branch_props(rs.skip(1), branch);
    }
}

pub proof fn lemma_first_with_name_at(rs: Seq<WorktreeInfo>, name: Seq<char>, i: int)
    requires
        0 <= i < rs.len(),
        forall|k: int| 0 <= k < i ==> (#[trigger] rs[k]).name@ != name,
        rs[i].name@ == name,
    ensures
        first_with_name(rs, name) == i,
    decreases i,
{
    if i > 0 {
        lemma_first_with_name_at(rs.skip(1), name, i - 1);
    }
}

pub proof fn lemma_first_with_name_none(rs: Seq<WorktreeInfo>, name: Seq<char>)
    requires
        forall|k: int| 0 <= k < rs.len() ==> (#[trigger] rs[k]).name@ != name,
    ensures
        first_with_name(rs, name) == -1,
    decreases rs.len(),
{
    if rs.len() > 0 {
        lemma_first_with_name_none(rs.skip(1), name);
    }
}

pub proof fn lemma_first_with_branch_at(rs: Seq<WorktreeInfo>, branch: Seq<char>, i: int)
    requires
        0 <= i < rs.len(),
        forall|k: int| 0 <= k < i ==> (#[trigger] rs[k]).branch@ != branch,
        rs[i].branch@ == branch,
    ensures
        first_with_branch(rs, branch) == i,
    decreases i,
{
    if i > 0 {
        lemma_first_with_branch_at(rs.skip(1), branch, i - 1);
    }
}

pub proof fn lemma_first_with_branch_none(rs: Seq<WorktreeInfo>, branch: Seq<char>)
    requires
        forall|k: int| 0 <= k < rs.len() ==> (#[trigger] rs[k]).branch@ != branch,
    ensures
        first_with_branch(rs, branch) == -1,
    decreases rs.len(),
{
    if rs.len() > 0 {
        lemma_first_with_branch_none(rs.skip(1), branch);
    }
}

/// Uniqueness invariant: inserting a record whose name and path are both
/// fresh keeps the set free of duplicate names and paths, so any sequence
/// of checked insertions leaves it so.
pub proof fn lemma_add_preserves_uniqueness(rs: Seq<WorktreeInfo>, rec: WorktreeInfo)
    requires
        unique_records(rs),
        !has_name_or_path(rs, rec.name@, rec.path@),
    ensures
        unique_records(rs.push(rec)),
{
    let rs2 = rs.push(rec);
    assert forall|i: int, j: int| 0 <= i < j < rs2.len() implies (#[trigger] rs2[i]).name@
        != (#[trigger] rs2[j]).name@ && rs2[i].path@ != rs2[j].path@ by {
        if j < rs.len() {
            assert(rs2[i] == rs[i] && rs2[j] == rs[j]);
        } else {
            assert(rs2[j] == rec && rs2[i] == rs[i]);
            assert(!(rs[i].name@ == rec.name@ || rs[i].path@ == rec.path@));
        }
    }
}

/// Round trip: inserting a record for a fresh branch leaves exactly one
/// record with that branch in the set, found under the record's name; taking
/// it out again leaves the set exactly as it was, with no record for the
/// branch.
pub proof fn lemma_round_trip(rs: Seq<WorktreeInfo>, rec: WorktreeInfo)
    requires
        count_with_branch(rs, rec.branch@) == 0,
        !has_name_or_path(rs, rec.name@, rec.path@),
    ensures
        count_with_branch(rs.push(rec), rec.branch@) == 1,
        first_with_name(rs.push(rec), rec.name@) == rs.len() as int,
        rs.push(rec).remove(rs.len() as int) == rs,
{
    let rs2 = rs.push(rec);
    assert(rs2.drop_last() =~= rs);
    assert(rs2.last() == rec);
    assert forall|k: int| 0 <= k < rs.len() implies (#[trigger] rs2[k]).name@ != rec.name@ by {
        assert(rs2[k] == rs[k]);
        assert(!(rs[k].name@ == rec.name@ || rs[k].path@ == rec.path@));
    }
    lemma_first_with_name_at(rs2, rec.name@, rs.len() as int);
    assert(rs2.remove(rs.len() as int) =~= rs);
}


/// Whether some record already carries this name or this path.
pub fn exists_name_or_path(records: &Vec<WorktreeInfo>, name: &str, path: &str) -> (r: bool)
    ensures
        r == has_name_or_path(records@, name@, path@),
{
    let n = records.len();
    let mut i: usize = 0;
    while i < n
        invariant
            i <= n == records@.len(),
            forall|k: int|
                0 <= k < i ==> (#[trigger] records@[k]).name@ != name@ && records@[k].path@
                    != path@,
        decreases n - i,
    {
        let w = &records[i];
        if str_eq(w.name.as_str(), name) || str_eq(w.path.as_str(), path) {
            return true;
        }
        i += 1;
    }
    false
}

/// Inserts `rec` unless a record with its name or path is already present;
/// a rejected insertion leaves the set untouched.
pub fn add_record(records: &mut Vec<WorktreeInfo>, rec: WorktreeInfo) -> (r: Result<
    (),
    GitGardenerError,
>)
    ensures
        !has_name_or_path(old(records)@, rec.name@, rec.path@) ==> (r is Ok && final(records)@
            == old(records)@.push(rec)),
        has_name_or_path(old(records)@, rec.name@, rec.path@) ==> ((r matches Err(e) && (e
            matches GitGardenerError::WorktreeExists { name } && name@ == rec.name@))
            && final(records)@ == old(records)@),
{
    let n = records.len();
    let mut i: usize = 0;
    while i < n
        invariant
            i <= n == records@.len(),
            forall|k: int|
                0 <= k < i ==> (#[trigger] records@[k]).name@ != rec.name@ && records@[k].path@
                    != rec.path@,
        decreases n - i,
    {
        let w = &records[i];
        if str_eq(w.name.as_str(), rec.name.as_str()) || str_eq(w.path.as_str(), rec.path.as_str())
        {
            return Err(GitGardenerError::WorktreeExists { name: rec.name });
        }
        i += 1;
    }
    records.push(rec);
    Ok(())
}

/// Finds the record `ident` names: the first record with that name, or,
/// when none carries the name, the first whose branch is `ident`.
pub fn find_record_index(records: &Vec<WorktreeInfo>, ident: &str) -> (r: Option<usize>)
    ensures
        first_with_name(records@, ident@) >= 0 ==> (r matches Some(i) && i as int
            == first_with_name(records@, ident@)),
        first_with_name(records@, ident@) < 0 && first_with_branch(records@, ident@) >= 0 ==> (r
            matches Some(i) && i as int == first_with_branch(records@, ident@)),
        first_with_name(records@, ident@) < 0 && first_with_branch(records@, ident@) < 0 ==> r
            is None,
{
    let n = records.len();
    let mut i: usize = 0;
    while i < n
        invariant
            i <= n == records@.len(),
            forall|k: int| 0 <= k < i ==> (#[trigger] records@[k]).name@ != ident@,
        decreases n - i,
    {
        if str_eq(records[i].name.as_str(), ident) {
            proof {
                lemma_first_with_name_at(records@, ident@, i as int);
            }
            return Some(i);
        }
        i += 1;
    }
    proof {
        lemma_first_with_name_none(records@, ident@);
    }
    let mut j: usize = 0;
    while j < n
        invariant
            j <= n == records@.len(),
            first_with_name(records@, ident@) == -1,
            forall|k: int| 0 <= k < j ==> (#[trigger] records@[k]).branch@ != ident@,
        decreases n - j,
    {
        if str_eq(records[j].branch.as_str(), ident) {
            proof {
                lemma_first_with_branch_at(records@, ident@, j as int);
            }
            return Some(j);
        }
        j += 1;
    }
    proof {
        lemma_first_with_branch_none(records@, ident@);
    }
    None
}

/// Takes the record named `name` out of the set and hands it back; the set
/// is untouched when no record carries the name.
pub fn remove_record(records: &mut Vec<WorktreeInfo>, name: &str) -> (r: Result<
    WorktreeInfo,
    GitGardenerError,
>)
    ensures
        first_with_name(old(records)@, name@) >= 0 ==> (r matches Ok(w) && w == old(
            records,
        )@[first_with_name(old(records)@, name@)] && final(records)@ == old(records)@.remove(
            first_with_name(old(records)@, name@),
        )),
        first_with_name(old(records)@, name@) < 0 ==> ((r matches Err(e) && (e
            matches GitGardenerError::WorktreeNotFound { name: n } && n@ == name@))
            && final(records)@ == old(records)@),
{
    let n = records.len();
    let mut i: usize = 0;
    while i < n
        invariant
            i <= n == records@.len(),
            records@ == old(records)@,
            forall|k: int| 0 <= k < i ==> (#[trigger] records@[k]).name@ != name@,
        decreases n - i,
    {
        if str_eq(records[i].name.as_str(), name) {
            proof {
                lemma_first_with_name_at(records@, name@, i as int);
            }
            let w = records.remove(i);
            return Ok(w);
        }
        i += 1;
    }
    proof {
        lemma_first_with_name_none(records@, name@);
    }
    Err(GitGardenerError::WorktreeNotFound { name: name.to_owned() })
}

// ---------------------------------------------------------------------------
// The trusted seam over git2. Every read of repository state goes through one
// of these calls; what they hand back depends on the repository on disk, so
// their contracts state only the shape of the result.
// ---------------------------------------------------------------------------

/// Relies on git2: `Repository::open_from_env` discovers the repository the
/// way git itself would; every failure means no repository is discoverable,
/// and is reported as exactly that.
#[verifier::external_body]
fn repo_open_from_env() -> (r: Result<git2::Repository, GitGardenerError>)
    ensures
        r matches Err(e) ==> e is NotInRepository,
{
    git2::Repository::open_from_env().map_err(|_| GitGardenerError::NotInRepository)
}

/// Relies on git2: `Repository::open` opens the repository at `path`; every
/// failure is reported as no repository being there.
#[verifier::external_body]
fn repo_open(path: &str) -> (r: Result<git2::Repository, GitGardenerError>)
    ensures
        r matches Err(e) ==> e is NotInRepository,
{
    git2::Repository::open(path).map_err(|_| GitGardenerError::NotInRepository)
}

/// Relies on git2: `Repository::workdir` is the working directory, absent
/// for a bare repository.
#[verifier::external_body]
fn repo_workdir(repo: &git2::Repository) -> (r: Option<String>) {
    repo.workdir().map(|p| p.to_string_lossy().to_string())
}

/// Relies on git2: `Repository::find_branch` with the local branch type;
/// only whether it succeeded is handed back.
#[verifier::external_body]
fn local_branch_exists(repo: &git2::Repository, name: &str) -> (r: bool) {
    repo.find_branch(name, git2::BranchType::Local).is_ok()
}

/// Relies on git2: `Repository::find_reference` on `refs/heads/<name>` and
/// `Reference::target`; nothing when the reference is missing or symbolic.
#[verifier::external_body]
fn branch_target(repo: &git2::Repository, name: &str) -> (r: Option<git2::Oid>) {
    repo.find_reference(&format!("refs/heads/{}", name)).ok().and_then(|re| re.target())
}

/// Relies on git2: `Repository::find_commit` and `Commit::time().seconds()`,
/// the committer timestamp of the commit `oid` names.
#[verifier::external_body]
fn commit_time_seconds(repo: &git2::Repository, oid: &git2::Oid) -> (r: Option<i64>) {
    repo.find_commit(*oid).ok().map(|c| c.time().seconds())
}

/// Relies on git2: `Repository::graph_descendant_of(commit, ancestor)`,
/// true when `commit` descends from `ancestor`; a commit does not count as
/// its own descendant.
#[verifier::external_body]
fn graph_descendant(repo: &git2::Repository, commit: &git2::Oid, ancestor: &git2::Oid) -> (r:
    Result<bool, GitGardenerError>) {
    repo.graph_descendant_of(*commit, *ancestor).map_err(
        |e| GitGardenerError::Git(format!("{}", e)),
    )
}

/// Relies on git2: `Repository::head`, `Reference::peel_to_commit` and
/// `Repository::branch` create a local branch at the current HEAD commit.
#[verifier::external_body]
fn create_branch_at_head(repo: &git2::Repository, name: &str) -> (r: Result<
    (),
    GitGardenerError,
>) {
    let head = repo.head().map_err(|e| GitGardenerError::Git(format!("{}", e)))?;
    let commit = head.peel_to_commit().map_err(|e| GitGardenerError::Git(format!("{}", e)))?;
    repo.branch(name, &commit, false).map_err(|e| GitGardenerError::Git(format!("{}", e)))?;
    Ok(())
}

/// Relies on git2: `Repository::worktrees` lists the registered worktree
/// names; entries that are not valid text are left out.
#[verifier::external_body]
fn worktree_names(repo: &git2::Repository) -> (r: Result<Vec<String>, GitGardenerError>) {
    match repo.worktrees() {
        Ok(names) => Ok(
            names.iter().filter_map(|entry| entry.ok().flatten()).map(|s| s.to_string()).collect(),
        ),
        Err(e) => Err(GitGardenerError::Git(format!("{}", e))),
    }
}

/// Relies on git2: `Repository::find_worktree`, `Worktree::path` and
/// `Worktree::is_prunable`; nothing when the worktree cannot be looked up,
/// and a failed prunability check counts as not prunable.
#[verifier::external_body]
fn worktree_path_prunable(repo: &git2::Repository, name: &str) -> (r: Option<(String, bool)>) {
    match repo.find_worktree(name) {
        Ok(wt) => {
            let path = wt.path().to_string_lossy().to_string();
            let prunable = wt.is_prunable(None).unwrap_or(false);
            Some((path, prunable))
        },
        Err(_) => None,
    }
}

/// Relies on git2: opens the checkout at `path` and reads
/// `head().shorthand()`; nothing when HEAD or its short name is unavailable,
/// an error when the checkout cannot be opened.
#[verifier::external_body]
fn branch_shorthand_at(path: &str) -> (r: Result<Option<String>, GitGardenerError>) {
    let repo = git2::Repository::open(path).map_err(|e| GitGardenerError::Git(format!("{}", e)))?;
    let r = match repo.head() {
        Ok(head) => match head.shorthand() {
            Ok(s) => Ok(Some(s.to_string())),
            Err(_) => Ok(None),
        },
        Err(_) => Ok(None),
    };
    r
}

/// Relies on std: `SystemTime::now` against `UNIX_EPOCH`, in whole seconds;
/// a clock before the epoch reads as 0 rather than failing.
#[verifier::external_body]
pub fn unix_now_seconds() -> (r: i64) {
    std::time::SystemTime::now().duration_since(std::time::UNIX_EPOCH).map(
        |d| d.as_secs() as i64,
    ).unwrap_or(0)
}

/// How the merged query resolves before history is consulted.
pub enum MergedResolution {
    /// Both refs resolved; these tips go on to the ancestry check.
    Tips(git2::Oid, git2::Oid),
    /// At least one ref did not resolve, and the query's answer is already
    /// decided: carried here, it is "not merged" and never an error.
    NotMerged(Result<bool, GitGardenerError>),
}

/// The merged query's own rule: with both refs resolved their tips are
/// handed on to the ancestry check; with either unresolved the answer is
/// `Ok(false)` — an unresolvable ref means "not merged", never an error.
pub fn resolve_merged_query(branch_tip: Option<git2::Oid>, base_tip: Option<git2::Oid>) -> (r:
    MergedResolution)
    ensures
        r == (match (branch_tip, base_tip) {
            (Some(b), Some(m)) => MergedResolution::Tips(b, m),
            _ => MergedResolution::NotMerged(Ok(false)),
        }),
{
    match (branch_tip, base_tip) {
        (Some(b), Some(m)) => MergedResolution::Tips(b, m),
        _ => MergedResolution::NotMerged(Ok(false)),
    }
}

/// Builds one listing record from what the gateway handed back for a
/// registered worktree: the branch is the checkout's HEAD short name, or
/// `(unknown)` when it has none; a failed status inspection leaves the
/// status absent rather than failing anything; a checkout that could not
/// even be opened for the branch lookup fails the record with that error.
pub fn assemble_record(
    name: &String,
    path: String,
    is_prunable: bool,
    branch: Result<Option<String>, GitGardenerError>,
    status: Result<GitStatus, GitGardenerError>,
) -> (r: Result<WorktreeInfo, GitGardenerError>)
    ensures
        branch matches Err(e) ==> (r matches Err(e2) && e2 == e),
        branch matches Ok(b) ==> (r matches Ok(w) && w.name == *name && w.path == path
            && w.is_prunable == is_prunable && (b matches Some(bn) ==> w.branch == bn) && (b
            is None ==> w.branch@ == "(unknown)"@) && (status matches Ok(st) ==> w.status == Some(
            st,
        )) && (status is Err ==> w.status is None)),
{
    let branch_name = match branch {
        Err(e) => {
            return Err(e);
        },
        Ok(Some(b)) => b,
        Ok(None) => {
            let u = "(unknown)";
            u.to_owned()
        },
    };
    let status_value = match status {
        Ok(st) => Some(st),
        Err(_) => None,
    };
    Ok(
        WorktreeInfo {
            name: name.clone(),
            path,
            branch: branch_name,
            is_prunable,
            status: status_value,
        },
    )
}

/// The status a record shows where one is always demanded: its own when
/// inspection succeeded, the clean default otherwise.
pub open spec fn status_or_default(w: WorktreeInfo) -> GitStatus {
    match w.status {
        Some(st) => st,
        None => GitStatus {
            working_tree_status: WorktreeStatus::Clean,
            has_staged_changes: false,
            has_unstaged_changes: false,
            last_commit_time: None,
            ahead_count: 0,
            behind_count: 0,
        },
    }
}

/// Pairs every record with a status that is always present — its own when
/// inspection succeeded, the clean default where it had failed — changing
/// nothing else and keeping the order.
pub fn records_with_status(records: &Vec<WorktreeInfo>) -> (r: Vec<WorktreeInfoWithStatus>)
    ensures
        r@.len() == records@.len(),
        forall|i: int|
            0 <= i < r@.len() ==> ((#[trigger] r@[i]).name == records@[i].name && r@[i].path
                == records@[i].path && r@[i].branch == records@[i].branch && r@[i].is_prunable
                == records@[i].is_prunable && r@[i].status == status_or_default(records@[i])),
{
    let mut result: Vec<WorktreeInfoWithStatus> = Vec::new();
    let n = records.len();
    let mut i: usize = 0;
    while i < n
        invariant
            i <= n == records@.len(),
            result@.len() == i,
            forall|k: int|
                0 <= k < i ==> ((#[trigger] result@[k]).name == records@[k].name && result@[k].path
                    == records@[k].path && result@[k].branch == records@[k].branch
                    && result@[k].is_prunable == records@[k].is_prunable && result@[k].status
                    == status_or_default(records@[k])),
        decreases n - i,
    {
        let w = &records[i];
        let status = match &w.status {
            Some(st) => GitStatus {
                working_tree_status: st.working_tree_status,
                has_staged_changes: st.has_staged_changes,
                has_unstaged_changes: st.has_unstaged_changes,
                last_commit_time: st.last_commit_time,
                ahead_count: st.ahead_count,
                behind_count: st.behind_count,
            },
            None => GitStatus {
                working_tree_status: WorktreeStatus::Clean,
                has_staged_changes: false,
                has_unstaged_changes: false,
                last_commit_time: None,
                ahead_count: 0,
                behind_count: 0,
            },
        };
        result.push(
            WorktreeInfoWithStatus {
                name: w.name.clone(),
                path: w.path.clone(),
                branch: w.branch.clone(),
                is_prunable: w.is_prunable,
                status,
            },
        );
        i += 1;
    }
    result
}

/// The gateway to one open repository.
pub struct GitWorktree {
    repo: git2::Repository,
}

impl GitWorktree {
    /// Opens the repository discoverable from the environment, as git
    /// would; when none is discoverable the failure is exactly that.
    pub fn new() -> (r: Result<GitWorktree, GitGardenerError>)
        ensures
            r matches Err(e) ==> e is NotInRepository,
    {
        let repo = repo_open_from_env()?;
        Ok(GitWorktree { repo })
    }

    /// Opens the repository at `path`; when none is there the failure is
    /// exactly that.
    pub fn from_path(path: &str) -> (r: Result<GitWorktree, GitGardenerError>)
        ensures
            r matches Err(e) ==> e is NotInRepository,
    {
        let repo = repo_open(path)?;
        Ok(GitWorktree { repo })
    }

    /// The repository's working directory; a bare repository has none.
    pub fn get_repository_root(&self) -> (r: Result<String, GitGardenerError>) {
        match repo_workdir(&self.repo) {
            Some(root) => Ok(root),
            None => {
                let m = "Could not determine repository root";
                Err(GitGardenerError::Custom(m.to_owned()))
            },
        }
    }

    /// Whether a local branch with this name exists; the query itself
    /// never fails.
    pub fn branch_exists(&self, branch_name: &str) -> (r: Result<bool, GitGardenerError>)
        ensures
            r is Ok,
    {
        Ok(local_branch_exists(&self.repo, branch_name))
    }

    /// Whether `branch_name`'s work is fully contained in `base_branch`:
    /// the branch tip is an ancestor of the base tip. A branch whose ref
    /// cannot be resolved is not merged, not an error; that rule is
    /// `resolve_merged_query`'s contract.
    pub fn is_branch_merged(&self, branch_name: &str, base_branch: &str) -> (r: Result<
        bool,
        GitGardenerError,
    >) {
        let branch_tip = branch_target(&self.repo, branch_name);
        let base_tip = branch_target(&self.repo, base_branch);
        match resolve_merged_query(branch_tip, base_tip) {
            MergedResolution::NotMerged(answer) => answer,
            MergedResolution::Tips(branch_oid, base_oid) => graph_descendant(
                &self.repo,
                &base_oid,
                &branch_oid,
            ),
        }
    }

    /// Whether `branch_name`'s last commit is older than `days` days,
    /// measured strictly: exactly `days` days old is not stale. A branch
    /// whose ref or commit cannot be resolved is never stale, and the
    /// query itself never fails.
    pub fn is_worktree_stale(&self, branch_name: &str, days: u32) -> (r: Result<
        bool,
        GitGardenerError,
    >)
        ensures
            r is Ok,
    {
        let commit_time = match branch_target(&self.repo, branch_name) {
            Some(oid) => commit_time_seconds(&self.repo, &oid),
            None => None,
        };
        let now = unix_now_seconds();
        Ok(crate::cleanup::stale_decision(commit_time, now, days))
    }


    /// The Unix timestamp of `branch_name`'s last commit, when the branch
    /// and its commit resolve.
    pub fn branch_commit_time(&self, branch_name: &str) -> (r: Option<i64>) {
        match branch_target(&self.repo, branch_name) {
            Some(oid) => commit_time_seconds(&self.repo, &oid),
            None => None,
        }
    }

    /// Enumerates the registered worktrees with best-effort status: each
    /// listed name whose worktree can be looked up becomes one record, built
    /// by `assemble_record` — the branch read from its checkout or
    /// `(unknown)`, the status carried when inspection succeeded and absent
    /// when it failed, never failing the listing.
    pub fn list_worktrees(&self) -> (r: Result<Vec<WorktreeInfo>, GitGardenerError>)
        ensures
            r matches Ok(v) ==> forall|i: int|
                0 <= i < v@.len() ==> ((#[trigger] v@[i]).status matches Some(st)
                    ==> st.working_tree_status == derived_status(
                    st.has_staged_changes,
                    st.has_unstaged_changes,
                )),
    {
        let names = worktree_names(&self.repo)?;
        let mut infos: Vec<WorktreeInfo> = Vec::new();
        let n = names.len();
        let mut i: usize = 0;
        while i < n
            invariant
                i <= n == names@.len(),
                forall|k: int|
                    0 <= k < infos@.len() ==> ((#[trigger] infos@[k]).status matches Some(st)
                        ==> st.working_tree_status == derived_status(
                        st.has_staged_changes,
                        st.has_unstaged_changes,
                    )),
            decreases n - i,
        {
            let name = &names[i];
            match worktree_path_prunable(&self.repo, name.as_str()) {
                Some((path, is_prunable)) => {
                    let branch = branch_shorthand_at(path.as_str());
                    let status = GitStatus::from_path(path.as_str());
                    let record = assemble_record(name, path, is_prunable, branch, status)?;
                    infos.push(record);
                },
                None => {},
            }
            i += 1;
        }
        Ok(infos)
    }

    /// Enumerates the registered worktrees, substituting a clean default
    /// status where inspection failed, as `records_with_status` fixes it.
    pub fn list_worktrees_with_status(&self) -> (r: Result<
        Vec<WorktreeInfoWithStatus>,
        GitGardenerError,
    >)
        ensures
            r matches Ok(v) ==> forall|i: int|
                0 <= i < v@.len() ==> (#[trigger] v@[i]).status.working_tree_status
                    == derived_status(
                    v@[i].status.has_staged_changes,
                    v@[i].status.has_unstaged_changes,
                ),
    {
        let worktrees = self.list_worktrees()?;
        let result = records_with_status(&worktrees);
        proof {
            assert forall|i: int| 0 <= i < result@.len() implies (#[trigger] result@[i])
                .status.working_tree_status == derived_status(
                result@[i].status.has_staged_changes,
                result@[i].status.has_unstaged_changes,
            ) by {
                assert(result@[i].status == status_or_default(worktrees@[i]));
            }
        }
        Ok(result)
    }

    /// Makes sure the branch for a new worktree exists: when asked to create
    /// it and no local branch carries the name, one is created at HEAD.
    /// Without the request this does nothing and cannot fail.
    pub fn ensure_branch(&self, branch_name: &str, create_branch: bool) -> (r: Result<
        (),
        GitGardenerError,
    >)
        ensures
            !create_branch ==> r is Ok,
    {
        if create_branch {
            let exists = self.branch_exists(branch_name)?;
            if !exists {
                create_branch_at_head(&self.repo, branch_name)?;
                return Ok(());
            }
        }
        Ok(())
    }
}

/// The exact argument list handed to `git` to attach a worktree: `-b` when
/// the branch is to be created, the starting commit only then and only when
/// given, the bare branch name otherwise.
pub fn worktree_add_args(path: &str, branch_name: &str, create_branch: bool, commit: Option<
    &str,
>) -> (r: Vec<String>)
    ensures
        create_branch ==> r@.map_values(|s: String| s@) == (match commit {
            Some(c) => seq!["worktree"@, "add"@, "-b"@, branch_name@, path@, c@],
            None => seq!["worktree"@, "add"@, "-b"@, branch_name@, path@],
        }),
        !create_branch ==> r@.map_values(|s: String| s@) == seq![
            "worktree"@,
            "add"@,
            path@,
            branch_name@,
        ],
{
    let mut args: Vec<String> = Vec::new();
    let w = "worktree";
    let a = "add";
    args.push(w.to_owned());
    args.push(a.to_owned());
    if create_branch {
        let b = "-b";
        args.push(b.to_owned());
        args.push(branch_name.to_owned());
        args.push(path.to_owned());
        match commit {
            Some(c) => {
                args.push(c.to_owned());
                proof {
                    assert(args@.map_values(|s: String| s@) =~= seq![
                        "worktree"@,
                        "add"@,
                        "-b"@,
                        branch_name@,
                        path@,
                        c@,
                    ]);
                }
            },
            None => {
                proof {
                    assert(args@.map_values(|s: String| s@) =~= seq![
                        "worktree"@,
                        "add"@,
                        "-b"@,
                        branch_name@,
                        path@,
                    ]);
                }
            },
        }
    } else {
        args.push(path.to_owned());
        args.push(branch_name.to_owned());
        proof {
            assert(args@.map_values(|s: String| s@) =~= seq![
                "worktree"@,
                "add"@,
                path@,
                branch_name@,
            ]);
        }
    }
    args
}

/// The exact argument list handed to `git` to remove the worktree at `path`,
/// with `--force` exactly when asked for.
pub fn worktree_remove_args(path: &str, force: bool) -> (r: Vec<String>)
    ensures
        force ==> r@.map_values(|s: String| s@) == seq![
            "worktree"@,
            "remove"@,
            "--force"@,
            path@,
        ],
        !force ==> r@.map_values(|s: String| s@) == seq!["worktree"@, "remove"@, path@],
{
    let mut args: Vec<String> = Vec::new();
    let w = "worktree";
    let rm = "remove";
    args.push(w.to_owned());
    args.push(rm.to_owned());
    if force {
        let f = "--force";
        args.push(f.to_owned());
    }
    args.push(path.to_owned());
    proof {
        if force {
            assert(args@.map_values(|s: String| s@) =~= seq![
                "worktree"@,
                "remove"@,
                "--force"@,
                path@,
            ]);
        } else {
            assert(args@.map_values(|s: String| s@) =~= seq!["worktree"@, "remove"@, path@]);
        }
    }
    args
}


/// A field-for-field copy of one record, equal to the record it copies.
pub fn clone_record(w: &WorktreeInfo) -> (r: WorktreeInfo)
    ensures
        r == *w,
{
    let status = match &w.status {
        Some(st) => Some(
            GitStatus {
                working_tree_status: st.working_tree_status,
                has_staged_changes: st.has_staged_changes,
                has_unstaged_changes: st.has_unstaged_changes,
                last_commit_time: st.last_commit_time,
                ahead_count: st.ahead_count,
                behind_count: st.behind_count,
            },
        ),
        None => None,
    };
    WorktreeInfo {
        name: w.name.clone(),
        path: w.path.clone(),
        branch: w.branch.clone(),
        is_prunable: w.is_prunable,
        status,
    }
}

} // verus!

