//! Verified core of a Git worktree manager: worktree bookkeeping with a
//! uniqueness invariant, a merge/staleness cleanup policy, a post-creation
//! hook pipeline with placeholder expansion, and the dashboard state machine.

pub mod cleanup;
pub mod commands;
pub mod config;
pub mod error;
pub mod git;
pub mod hooks;
pub mod text;
