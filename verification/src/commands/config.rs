//! Viewing and changing the configuration. The in-memory change is the
//! configuration type's own; reading and writing the file is the caller's
//! side.

use vstd::prelude::*;

verus! {

/// What one `config` invocation asks for.
pub enum ConfigSubcommand {
    /// Show the configuration.
    View,
    /// Set one key to a value.
    SetValue { key: String, value: String },
}

/// Parameters of one `config` invocation.
pub struct ConfigCommand {
    /// What is asked for.
    pub subcommand: ConfigSubcommand,
}

impl ConfigCommand {
    /// A `config` doing the given thing.
    pub fn new(subcommand: ConfigSubcommand) -> (r: ConfigCommand)
        ensures
            r.subcommand == subcommand,
    {
        ConfigCommand { subcommand }
    }
}

} // verus!
