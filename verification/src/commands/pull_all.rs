//! Pulling every worktree with a fixed pool of workers: the chunk plan that
//! gives each worker an exclusive slice, and the tally of the outcomes. The
//! threads and the fetches themselves are the caller's side; the aggregate
//! is raised as a failure only after every worktree was attempted.

use vstd::prelude::*;

verus! {

/// Parameters of one `pull-all` invocation.
pub struct PullAllCommand {
    /// The worker count; the detected parallelism stands in when absent.
    pub parallel: Option<u32>,
}

impl PullAllCommand {
    /// A `pull-all` with the given pool size.
    pub fn new(parallel: Option<u32>) -> (r: PullAllCommand)
        ensures
            r.parallel == parallel,
    {
        PullAllCommand { parallel }
    }
}

/// How many items each worker takes: the total split evenly across the pool,
/// rounded up, and at least one.
pub fn pull_chunk_size(len: usize, parallel: u32) -> (r: usize)
    requires
        parallel >= 1,
    ensures
        len == 0 ==> r == 1,
        len > 0 ==> r == 1 + (len - 1) as int / (parallel as int),
        r >= 1,
        r as int * parallel as int >= len as int,
{
    if len == 0 {
        1
    } else {
        let p = parallel as usize;
        let r = 1 + (len - 1) / p;
        proof {
            let l = len as int;
            let pi = p as int;
            assert((l - 1) / pi * pi + (l - 1) % pi == l - 1) by (nonlinear_arith)
                requires
                    pi >= 1,
                    l >= 1,
            ;
            assert((1 + (l - 1) / pi) * pi == pi + (l - 1) / pi * pi) by (nonlinear_arith);
            assert((l - 1) % pi < pi) by (nonlinear_arith)
                requires
                    pi >= 1,
            ;
        }
        r
    }
}

/// Cuts `[0, len)` into consecutive runs of `chunk_size`, the last one
/// shorter when `len` is not a multiple: every item lies in exactly one run,
/// so no two workers ever touch the same worktree.
pub fn plan_chunks(len: usize, chunk_size: usize) -> (r: Vec<(usize, usize)>)
    requires
        chunk_size >= 1,
    ensures
        len == 0 ==> r@.len() == 0,
        len > 0 ==> r@.len() >= 1,
        forall|i: int| 0 <= i < r@.len() ==> (#[trigger] r@[i]).0 < r@[i].1 <= len,
        forall|i: int| 0 <= i < r@.len() - 1 ==> (#[trigger] r@[i]).1 == r@[i + 1].0,
        r@.len() > 0 ==> r@[0].0 == 0 && r@[r@.len() - 1].1 == len,
        forall|i: int| 0 <= i < r@.len() ==> (#[trigger] r@[i]).1 - r@[i].0 <= chunk_size,
{
    let mut out: Vec<(usize, usize)> = Vec::new();
    let mut start: usize = 0;
    while start < len
        invariant
            start <= len,
            chunk_size >= 1,
            len > 0 && start == 0 ==> out@.len() == 0,
            start > 0 ==> out@.len() >= 1 && out@[out@.len() - 1].1 == start,
            len == 0 ==> out@.len() == 0,
            forall|i: int| 0 <= i < out@.len() ==> (#[trigger] out@[i]).0 < out@[i].1 <= len,
            forall|i: int| 0 <= i < out@.len() - 1 ==> (#[trigger] out@[i]).1 == out@[i + 1].0,
            out@.len() > 0 ==> out@[0].0 == 0,
            out@.len() > 0 ==> out@[out@.len() - 1].1 == start,
            forall|i: int| 0 <= i < out@.len() ==> (#[trigger] out@[i]).1 - out@[i].0 <= chunk_size,
        decreases len - start,
    {
        let end = if len - start > chunk_size {
            start + chunk_size
        } else {
            len
        };
        out.push((start, end));
        start = end;
    }
    out
}

/// The tally of one bulk pull.
#[derive(Debug, Clone, Copy, PartialEq, Eq, Structural)]
pub struct PullSummary {
    /// How many worktrees pulled cleanly.
    pub success_count: usize,
    /// How many failed.
    pub error_count: usize,
}

/// How many of the outcomes are successes.
pub open spec fn count_true(s: Seq<bool>) -> nat
    decreases s.len(),
{
    if s.len() == 0 {
        0
    } else {
        count_true(s.drop_last()) + if s.last() {
            1nat
        } else {
            0nat
        }
    }
}

/// Tallies the per-worktree outcomes: every success and every failure is
/// counted, and together they account for every worktree attempted.
pub fn aggregate_pull_results(results: &Vec<bool>) -> (r: PullSummary)
    ensures
        r.success_count == count_true(results@),
        r.error_count == results@.len() - count_true(results@),
        r.success_count + r.error_count == results@.len(),
{
    let mut success: usize = 0;
    let n = results.len();
    let mut i: usize = 0;
    while i < n
        invariant
            i <= n == results@.len(),
            success == count_true(results@.take(i as int)),
            success <= i,
        decreases n - i,
    {
        proof {
            let cur = results@.take(i + 1);
            assert(cur.drop_last() =~= results@.take(i as int));
            assert(cur.last() == results@[i as int]);
        }
        if results[i] {
            success += 1;
        }
        i += 1;
    }
    proof {
        assert(results@.take(n as int) =~= results@);
        lemma_count_true_bound(results@);
    }
    PullSummary { success_count: success, error_count: n - success }
}

/// No more successes than outcomes.
proof fn lemma_count_true_bound(s: Seq<bool>)
    ensures
        count_true(s) <= s.len(),
    decreases s.len(),
{
    if s.len() > 0 {
        lemma_count_true_bound(s.drop_last());
    }
}

/// Whether the whole run must be reported as failed: exactly when at least
/// one pull failed.
pub fn pull_failed(summary: &PullSummary) -> (r: bool)
    ensures
        r == (summary.error_count > 0),
{
    summary.error_count > 0
}

} // verus!
