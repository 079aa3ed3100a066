//! Pruning: selecting the worktrees Git already considers orphaned. The
//! removals are the caller's side, each forced.

use vstd::prelude::*;
use crate::git::worktree::{WorktreeInfo, clone_record};

verus! {

/// Parameters of one `prune` invocation.
pub struct PruneCommand {
    /// Only report what would be pruned.
    pub dry_run: bool,
}

impl PruneCommand {
    /// A `prune`, dry or real.
    pub fn new(dry_run: bool) -> (r: PruneCommand)
        ensures
            r.dry_run == dry_run,
    {
        PruneCommand { dry_run }
    }
}

/// The records whose administrative data Git flagged as orphaned, in order.
pub open spec fn prunable_of(rs: Seq<WorktreeInfo>) -> Seq<WorktreeInfo>
    decreases rs.len(),
{
    if rs.len() == 0 {
        rs
    } else {
        let rest = prunable_of(rs.skip(1));
        if rs[0].is_prunable {
            seq![rs[0]] + rest
        } else {
            rest
        }
    }
}

/// The prunable records among `records`, in listing order.
pub fn select_prunable(records: &Vec<WorktreeInfo>) -> (r: Vec<WorktreeInfo>)
    ensures
        r@ == prunable_of(records@),
{
    let mut out: Vec<WorktreeInfo> = Vec::new();
    let n = records.len();
    let mut i: usize = 0;
    proof {
        assert(records@.skip(0) =~= records@);
        assert(Seq::<WorktreeInfo>::empty() + prunable_of(records@) =~= prunable_of(records@));
    }
    while i < n
        invariant
            i <= n == records@.len(),
            out@ + prunable_of(records@.skip(i as int)) == prunable_of(records@),
        decreases n - i,
    {
        proof {
            let rest = records@.skip(i as int);
            assert(rest[0] == records@[i as int]);
            assert(rest.skip(1) =~= records@.skip(i + 1));
            if records@[i as int].is_prunable {
                assert((out@ + seq![records@[i as int]]) + prunable_of(records@.skip(i + 1)) =~= out@
                    + (seq![records@[i as int]] + prunable_of(records@.skip(i + 1))));
            }
        }
        if records[i].is_prunable {
            let w = clone_record(&records[i]);
            out.push(w);
        }
        i += 1;
    }
    proof {
        assert(records@.skip(n as int) =~= Seq::<WorktreeInfo>::empty());
        assert(out@ + Seq::<WorktreeInfo>::empty() =~= out@);
    }
    out
}

} // verus!
