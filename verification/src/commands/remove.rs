//! Removing a worktree by name or branch, optionally deleting the branch
//! afterwards. The lookup is the worktree bookkeeping's; the `git` calls
//! that remove the checkout and the branch are the caller's side, and a
//! failed branch deletion never undoes the removal.

use vstd::prelude::*;

verus! {

/// Parameters of one `remove` invocation.
pub struct RemoveCommand {
    /// The worktree to remove, by name or by branch.
    pub worktree: String,
    /// Also delete the branch once the worktree is gone.
    pub with_branch: bool,
}

impl RemoveCommand {
    /// A `remove` of the given worktree.
    pub fn new(worktree: String, with_branch: bool) -> (r: RemoveCommand)
        ensures
            r.worktree == worktree,
            r.with_branch == with_branch,
    {
        RemoveCommand { worktree, with_branch }
    }
}

/// The exact argument list handed to `git` to force-delete a branch.
pub fn branch_delete_args(branch: &str) -> (r: Vec<String>)
    ensures
        r@.map_values(|s: String| s@) == seq!["branch"@, "-D"@, branch@],
{
    let mut args: Vec<String> = Vec::new();
    let b = "branch";
    let d = "-D";
    args.push(b.to_owned());
    args.push(d.to_owned());
    args.push(branch.to_owned());
    proof {
        assert(args@.map_values(|s: String| s@) =~= seq!["branch"@, "-D"@, branch@]);
    }
    args
}

} // verus!
