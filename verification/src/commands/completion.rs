//! Shell completion: the shells completions can be emitted for. The
//! completion text itself is static and printed by the caller.

use vstd::prelude::*;

verus! {

/// The shells completion scripts exist for.
#[derive(Debug, Clone, Copy, PartialEq, Eq, Structural)]
pub enum CompletionShell {
    Bash,
    Zsh,
    Fish,
}

/// Parameters of one `completion` invocation.
pub struct CompletionCommand {
    /// The shell to emit completions for.
    pub shell: CompletionShell,
}

impl CompletionCommand {
    /// A `completion` for the given shell.
    pub fn new(shell: CompletionShell) -> (r: CompletionCommand)
        ensures
            r.shell == shell,
    {
        CompletionCommand { shell }
    }
}

} // verus!
