//! The cleanup policy engine: given the worktree records and the per-branch
//! facts the gateway resolved, decides which worktrees are eligible for
//! removal under a policy of force, merged-into-base and stale-after-days,
//! any combination taken as a union.

use vstd::prelude::*;
use crate::git::worktree::WorktreeInfo;

verus! {

/// What the gateway could resolve about one worktree's branch.
#[derive(Debug, Clone, Copy)]
pub struct BranchFacts {
    /// The branch tip is an ancestor of the base branch's tip.
    pub merged_into_base: bool,
    /// Unix timestamp of the branch's last commit; absent when the branch
    /// ref could not be resolved.
    pub last_commit_time: Option<i64>,
}

/// A cleanup policy; the three grounds are combined as a union.
#[derive(Debug, Clone)]
pub struct CleanupPolicy {
    /// Every worktree is eligible.
    pub force: bool,
    /// Worktrees merged into this base branch are eligible.
    pub merged_base: Option<String>,
    /// Worktrees whose last commit is strictly older than this many days
    /// are eligible.
    pub stale_days: Option<u32>,
}

/// Why a worktree was selected.
#[derive(Debug, Clone)]
pub enum CleanupReason {
    /// Selected because the policy forces removal.
    Forced,
    /// Selected because its branch is merged into the named base.
    MergedInto(String),
    /// Selected because its last commit is older than this many days.
    StaleSince(u32),
}

/// The per-worktree outcome of a selection.
#[derive(Debug, Clone)]
pub struct CleanupCandidate {
    /// The worktree the verdict is about.
    pub worktree_name: String,
    /// Whether the policy selects it for removal.
    pub eligible: bool,
    /// The first ground that applies, in the order force, merged, stale;
    /// absent exactly when the worktree is not eligible.
    pub reason: Option<CleanupReason>,
}

/// A last commit `t` seconds after the epoch is stale at `now` under a
/// threshold of `days` days exactly when its age exceeds `days * 86400`
/// seconds strictly; an unresolved commit time is never stale.
pub open spec fn stale_spec(t: Option<i64>, now: i64, days: u32) -> bool {
    match t {
        Some(tv) => now - tv > days * 86400,
        None => false,
    }
}

/// The staleness threshold, decided without overflow.
pub fn stale_decision(last_commit_time: Option<i64>, now: i64, days: u32) -> (r: bool)
    ensures
        r == stale_spec(last_commit_time, now, days),
{
    match last_commit_time {
        None => false,
        Some(t) => {
            let age: i128 = (now as i128) - (t as i128);
            let threshold: i128 = (days as i128) * 86400;
            age > threshold
        },
    }
}

/// Staleness threshold law: a worktree whose branch's last commit is `t`,
/// seen at `now`, is stale under `days` exactly when its age in seconds
/// exceeds `days * 86400` strictly; an age of exactly `days * 86400` is not
/// stale.
pub proof fn lemma_stale_threshold(t: i64, now: i64, days: u32)
    ensures
        stale_spec(Some(t), now, days) <==> now - t > days * 86400,
        now - t == days * 86400 ==> !stale_spec(Some(t), now, days),
{
}

/// Stale rejection for an unresolved branch: a worktree whose branch ref
/// cannot be resolved has no commit time and is never selected as stale,
/// whatever the threshold.
pub proof fn lemma_stale_unresolved(now: i64, days: u32)
    ensures
        !stale_spec(None, now, days),
{
}

/// Whether the policy selects a worktree with these facts.
pub open spec fn eligible_spec(policy: CleanupPolicy, fact: BranchFacts, now: i64) -> bool {
    ||| policy.force
    ||| (policy.merged_base is Some && fact.merged_into_base)
    ||| (match policy.stale_days {
        Some(d) => stale_spec(fact.last_commit_time, now, d),
        None => false,
    })
}

/// Merged-cleanup law: under a policy whose only ground is a merged base,
/// a worktree is selected exactly when its branch is merged into the base —
/// included when the fact holds, left out when it does not.
pub proof fn lemma_merged_selection(base: String, fact: BranchFacts, now: i64)
    ensures
        eligible_spec(
            CleanupPolicy { force: false, merged_base: Some(base), stale_days: None },
            fact,
            now,
        ) <==> fact.merged_into_base,
{
}

/// Decides eligibility for every record. `facts[i]` is what the gateway
/// resolved about `records[i]`'s branch; `now` is the time the staleness
/// ages are measured against. Every record gets a verdict, eligible exactly
/// when the policy selects its facts, with the first applicable ground as
/// the reason.
pub fn select_for_removal(
    records: &Vec<WorktreeInfo>,
    facts: &Vec<BranchFacts>,
    policy: &CleanupPolicy,
    now: i64,
) -> (r: Vec<CleanupCandidate>)
    requires
        records@.len() == facts@.len(),
    ensures
        r@.len() == records@.len(),
        forall|i: int|
            0 <= i < r@.len() ==> (#[trigger] r@[i]).worktree_name@ == records@[i].name@,
        forall|i: int|
            0 <= i < r@.len() ==> (#[trigger] r@[i]).eligible == eligible_spec(
                *policy,
                facts@[i],
                now,
            ),
        forall|i: int|
            0 <= i < r@.len() ==> ((#[trigger] r@[i]).eligible == false ==> r@[i].reason is None),
        forall|i: int|
            0 <= i < r@.len() ==> (policy.force ==> (#[trigger] r@[i]).reason == Some(
                CleanupReason::Forced,
            )),
        forall|i: int|
            0 <= i < r@.len() ==> (!policy.force && policy.merged_base is Some
                && facts@[i].merged_into_base ==> ((#[trigger] r@[i]).reason matches Some(
                CleanupReason::MergedInto(b),
            ) && b@ == policy.merged_base.unwrap()@)),
        forall|i: int|
            0 <= i < r@.len() ==> (!policy.force && !(policy.merged_base is Some
                && facts@[i].merged_into_base) && (policy.stale_days matches Some(d)
                && stale_spec(facts@[i].last_commit_time, now, d)) ==> (#[trigger] r@[i]).reason
                == Some(CleanupReason::StaleSince(policy.stale_days.unwrap()))),
{
    let mut out: Vec<CleanupCandidate> = Vec::new();
    let n = records.len();
    let mut i: usize = 0;
    while i < n
        invariant
            i <= n == records@.len(),
            records@.len() == facts@.len(),
            out@.len() == i,
            forall|k: int|
                0 <= k < i ==> (#[trigger] out@[k]).worktree_name@ == records@[k].name@,
            forall|k: int|
                0 <= k < i ==> (#[trigger] out@[k]).eligible == eligible_spec(
                    *policy,
                    facts@[k],
                    now,
                ),
            forall|k: int|
                0 <= k < i ==> ((#[trigger] out@[k]).eligible == false ==> out@[k].reason
                    is None),
            forall|k: int|
                0 <= k < i ==> (policy.force ==> (#[trigger] out@[k]).reason == Some(
                    CleanupReason::Forced,
                )),
            forall|k: int|
                0 <= k < i ==> (!policy.force && policy.merged_base is Some
                    && facts@[k].merged_into_base ==> ((#[trigger] out@[k]).reason matches Some(
                    CleanupReason::MergedInto(b),
                ) && b@ == policy.merged_base.unwrap()@)),
            forall|k: int|
                0 <= k < i ==> (!policy.force && !(policy.merged_base is Some
                    && facts@[k].merged_into_base) && (policy.stale_days matches Some(d)
                    && stale_spec(facts@[k].last_commit_time, now, d)) ==> (#[trigger] out@[k])
                    .reason == Some(CleanupReason::StaleSince(policy.stale_days.unwrap()))),
        decreases n - i,
    {
        let fact = &facts[i];
        let merged_here = match &policy.merged_base {
            Some(_) => fact.merged_into_base,
            None => false,
        };
        let stale_here = match policy.stale_days {
            Some(d) => stale_decision(fact.last_commit_time, now, d),
            None => false,
        };
        let eligible = policy.force || merged_here || stale_here;
        let reason: Option<CleanupReason> = if policy.force {
            Some(CleanupReason::Forced)
        } else if merged_here {
            match &policy.merged_base {
                Some(b) => Some(CleanupReason::MergedInto(b.clone())),
                None => None,
            }
        } else if stale_here {
            match policy.stale_days {
                Some(d) => Some(CleanupReason::StaleSince(d)),
                None => None,
            }
        } else {
            None
        };
        out.push(
            CleanupCandidate { worktree_name: records[i].name.clone(), eligible, reason },
        );
        i += 1;
    }
    out
}

/// The outcome of a whole cleanup run: how many removals succeeded, and the
/// name and complaint of each one that failed.
#[derive(Debug, Clone)]
pub struct CleanSummary {
    /// How many worktrees were removed.
    pub removed_count: usize,
    /// The worktrees whose removal failed, each with its complaint.
    pub failed: Vec<(String, String)>,
}

impl CleanSummary {
    /// A summary with nothing attempted yet.
    pub fn new() -> (r: CleanSummary)
        ensures
            r.removed_count == 0,
            r.failed@.len() == 0,
    {
        CleanSummary { removed_count: 0, failed: Vec::new() }
    }

    /// Counts one successful removal.
    pub fn record_removed(&mut self)
        requires
            old(self).removed_count < usize::MAX,
        ensures
            final(self).removed_count == old(self).removed_count + 1,
            final(self).failed == old(self).failed,
    {
        self.removed_count += 1;
    }

    /// Records one failed removal; earlier failures are kept, so one
    /// failure never blocks the rest of the run.
    pub fn record_failed(&mut self, name: String, detail: String)
        ensures
            final(self).removed_count == old(self).removed_count,
            final(self).failed@ == old(self).failed@.push((name, detail)),
    {
        self.failed.push((name, detail));
    }

    /// Whether the run as a whole must be reported as failed: exactly when
    /// at least one removal failed.
    pub fn any_failed(&self) -> (r: bool)
        ensures
            r == (self.failed@.len() > 0),
    {
        self.failed.len() > 0
    }
}

} // verus!
