//! The seam over the installed Git implementation: opaque handles for the
//! repository and object ids, declared here so both the worktree gateway and
//! the status inspector can carry them through verified code.

pub mod status;
pub mod worktree;

pub use status::GitStatus;
pub use status::WorktreeStatus;
pub use worktree::GitWorktree;
pub use worktree::WorktreeInfo;
pub use worktree::WorktreeInfoWithStatus;

use vstd::prelude::*;

verus! {

/// An open Git repository, opaque to the verified code; every read of it
/// goes through a trusted call.
#[verifier::external_type_specification]
#[verifier::external_body]
pub struct ExRepository(git2::Repository);

/// A Git object id, carried through verified code without being inspected.
#[verifier::external_type_specification]
#[verifier::external_body]
pub struct ExOid(git2::Oid);

} // verus!
