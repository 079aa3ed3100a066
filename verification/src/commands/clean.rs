//! Bulk cleanup: the option check and the policy one `clean` invocation
//! stands for. The selection itself is the policy engine's; the removals and
//! their tally are driven by the caller, one failure never blocking the
//! rest.

use vstd::prelude::*;
use crate::cleanup::CleanupPolicy;
use crate::error::GitGardenerError;

verus! {

/// Parameters of one `clean` invocation.
pub struct CleanCommand {
    /// Remove worktrees whose branch is merged into the base branch.
    pub merged: bool,
    /// Remove worktrees whose last commit is strictly older than this many
    /// days.
    pub stale: Option<u32>,
    /// Remove every worktree.
    pub force: bool,
}

impl CleanCommand {
    /// A `clean` with the given grounds.
    pub fn new(merged: bool, stale: Option<u32>, force: bool) -> (r: CleanCommand)
        ensures
            r.merged == merged,
            r.stale == stale,
            r.force == force,
    {
        CleanCommand { merged, stale, force }
    }

    /// At least one ground must be given; a bare `clean` is rejected.
    pub fn validate(&self) -> (r: Result<(), GitGardenerError>)
        ensures
            !self.force && !self.merged && self.stale is None ==> (r matches Err(e) && (e
                matches GitGardenerError::Custom(m) && m@
                == "No cleanup option specified. Use --force, --merged, or --stale"@)),
            self.force || self.merged || self.stale is Some ==> r is Ok,
    {
        if !self.force && !self.merged && self.stale.is_none() {
            let m = "No cleanup option specified. Use --force, --merged, or --stale";
            Err(GitGardenerError::Custom(m.to_owned()))
        } else {
            Ok(())
        }
    }

    /// The policy these grounds stand for, merged measured against
    /// `base_branch`.
    pub fn policy(&self, base_branch: &str) -> (r: CleanupPolicy)
        ensures
            r.force == self.force,
            self.merged ==> (r.merged_base matches Some(b) && b@ == base_branch@),
            !self.merged ==> r.merged_base is None,
            r.stale_days == self.stale,
    {
        CleanupPolicy {
            force: self.force,
            merged_base: if self.merged {
                Some(base_branch.to_owned())
            } else {
                None
            },
            stale_days: self.stale,
        }
    }
}

} // verus!
