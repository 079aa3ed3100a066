//! Moving a worktree to a new path. The lookup is the worktree
//! bookkeeping's; the `git` call that relocates the checkout is the
//! caller's side.

use vstd::prelude::*;

verus! {

/// Parameters of one `move` invocation.
pub struct MoveCommand {
    /// The worktree to relocate, by name.
    pub worktree_name: String,
    /// Where it goes.
    pub new_path: String,
}

impl MoveCommand {
    /// A `move` of the given worktree.
    pub fn new(worktree_name: String, new_path: String) -> (r: MoveCommand)
        ensures
            r.worktree_name == worktree_name,
            r.new_path == new_path,
    {
        MoveCommand { worktree_name, new_path }
    }
}

/// The exact argument list handed to `git` to relocate a worktree.
pub fn worktree_move_args(current_path: &str, new_path: &str) -> (r: Vec<String>)
    ensures
        r@.map_values(|s: String| s@) == seq!["worktree"@, "move"@, current_path@, new_path@],
{
    let mut args: Vec<String> = Vec::new();
    let w = "worktree";
    let m = "move";
    args.push(w.to_owned());
    args.push(m.to_owned());
    args.push(current_path.to_owned());
    args.push(new_path.to_owned());
    proof {
        assert(args@.map_values(|s: String| s@) =~= seq![
            "worktree"@,
            "move"@,
            current_path@,
            new_path@,
        ]);
    }
    args
}

} // verus!
