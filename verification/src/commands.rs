//! One module per user-facing verb, each holding the command's parameters
//! and the decisions it makes; what needs a process or the filesystem is the
//! caller's side.

pub mod add;
pub mod cd;
pub mod clean;
pub mod completion;
pub mod config;
pub mod init;
pub mod list;
pub mod prune;
pub mod pull_all;
pub mod relocate;
pub mod remove;
pub mod shell_init;
pub mod tui;

use vstd::prelude::*;
use crate::error::GitGardenerError;

verus! {

/// What every command offers its front end.
pub trait Command {
    /// Carries the command out against the repository at hand.
    fn execute(&self) -> core::result::Result<(), GitGardenerError>;
}

} // verus!
