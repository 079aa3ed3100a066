//! Resolving an identifier — `@`, a worktree name or a branch name — to the
//! directory to change into.

use vstd::prelude::*;
use crate::error::GitGardenerError;
use crate::git::worktree::{
    GitWorktree, WorktreeInfo, first_with_name, first_with_branch, find_record_index,
};
use crate::text::str_eq;

verus! {

/// Parameters of one `cd` invocation.
pub struct CdCommand {
    /// The identifier to resolve: `@`, a worktree name or a branch name.
    pub worktree: String,
}

/// The whole identifier decision of `cd`: `@` names the repository root;
/// anything else names the first record with that name, else the first
/// whose branch matches; an identifier matching neither is rejected with
/// its own words.
pub fn resolve_worktree_path(records: &Vec<WorktreeInfo>, repo_root: &str, ident: &str) -> (r:
    Result<String, GitGardenerError>)
    ensures
        ident@ == "@"@ ==> (r matches Ok(p) && p@ == repo_root@),
        ident@ != "@"@ && first_with_name(records@, ident@) >= 0 ==> (r matches Ok(p) && p@
            == records@[first_with_name(records@, ident@)].path@),
        ident@ != "@"@ && first_with_name(records@, ident@) < 0 && first_with_branch(
            records@,
            ident@,
        ) >= 0 ==> (r matches Ok(p) && p@ == records@[first_with_branch(records@, ident@)].path@),
        ident@ != "@"@ && first_with_name(records@, ident@) < 0 && first_with_branch(
            records@,
            ident@,
        ) < 0 ==> (r matches Err(e) && (e matches GitGardenerError::Custom(m) && m@ == ((
        "Worktree '"@ + ident@) + "' not found"@))),
{
    proof {
        crate::git::worktree::lemma_first_with_name_props(records@, ident@);
        crate::git::worktree::lemma_first_with_branch_props(records@, ident@);
    }
    if str_eq(ident, "@") {
        return Ok(repo_root.to_owned());
    }
    match find_record_index(records, ident) {
        Some(i) => Ok(records[i].path.clone()),
        None => {
            let mut m = String::new();
            m.append("Worktree '");
            m.append(ident);
            m.append("' not found");
            proof {
                assert(((Seq::<char>::empty() + "Worktree '"@) + ident@) + "' not found"@ =~= (
                "Worktree '"@ + ident@) + "' not found"@);
            }
            Err(GitGardenerError::Custom(m))
        },
    }
}

impl CdCommand {
    /// A `cd` towards the given identifier.
    pub fn new(worktree: String) -> (r: CdCommand)
        ensures
            r.worktree == worktree,
    {
        CdCommand { worktree }
    }

    /// The directory to change into: the repository root for `@`, else the
    /// path of the worktree the identifier names — the whole decision is
    /// `resolve_worktree_path`'s contract.
    pub fn execute(&self) -> (r: Result<String, GitGardenerError>) {
        let git_worktree = GitWorktree::new()?;
        let repo_root = git_worktree.get_repository_root()?;
        let worktrees = git_worktree.list_worktrees()?;
        resolve_worktree_path(&worktrees, repo_root.as_str(), self.worktree.as_str())
    }
}

} // verus!
