//! Listing worktrees: the names-only projection used for shell completion.
//! The table rendering is the caller's side.

use vstd::prelude::*;
use crate::git::worktree::WorktreeInfo;

verus! {

/// Parameters of one `list` invocation.
pub struct ListCommand {
    /// Print only the branch names, one per line.
    pub names_only: bool,
}

impl ListCommand {
    /// A `list`, names-only or tabular.
    pub fn new(names_only: bool) -> (r: ListCommand)
        ensures
            r.names_only == names_only,
    {
        ListCommand { names_only }
    }
}

/// The branch of every record, in listing order: the names-only output.
pub fn branch_lines(records: &Vec<WorktreeInfo>) -> (r: Vec<String>)
    ensures
        r@.len() == records@.len(),
        forall|i: int| 0 <= i < r@.len() ==> (#[trigger] r@[i])@ == records@[i].branch@,
{
    let mut out: Vec<String> = Vec::new();
    let n = records.len();
    let mut i: usize = 0;
    while i < n
        invariant
            i <= n == records@.len(),
            out@.len() == i,
            forall|k: int| 0 <= k < i ==> (#[trigger] out@[k])@ == records@[k].branch@,
        decreases n - i,
    {
        out.push(records[i].branch.clone());
        i += 1;
    }
    out
}

} // verus!
