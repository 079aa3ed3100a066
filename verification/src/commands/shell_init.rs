//! The shell function that wraps the binary so that `cd` can change the
//! caller's own directory: one text per supported shell. Printing it is the
//! caller's side.

use vstd::prelude::*;
use crate::commands::completion::CompletionShell;

verus! {

/// Parameters of one `shell-init` invocation.
pub struct ShellInitCommand {
    /// The shell to emit the wrapper function for.
    pub shell: CompletionShell,
}

impl ShellInitCommand {
    /// A `shell-init` for the given shell.
    pub fn new(shell: CompletionShell) -> (r: ShellInitCommand)
        ensures
            r.shell == shell,
    {
        ShellInitCommand { shell }
    }

    /// The wrapper text for the configured shell.
    pub fn generate_shell_script(&self) -> (r: String)
        ensures
            self.shell is Bash ==> r@ == bash_wrapper(),
            self.shell is Zsh ==> r@ == zsh_wrapper(),
            self.shell is Fish ==> r@ == fish_wrapper(),
    {
        match self.shell {
            CompletionShell::Bash => self.generate_bash_script(),
            CompletionShell::Zsh => self.generate_zsh_script(),
            CompletionShell::Fish => self.generate_fish_script(),
        }
    }

    /// The wrapper for bash.
    pub fn generate_bash_script(&self) -> (r: String)
        ensures
            r@ == bash_wrapper(),
    {
        let script =
            "ggr() {\n  if [ \"$1\" = \"cd\" ]; then\n    shift\n    local target\n    target=$(git-gardener cd \"$@\") && cd \"$target\"\n  else\n    git-gardener \"$@\"\n  fi\n}\n";
        script.to_owned()
    }

    /// The wrapper for zsh.
    pub fn generate_zsh_script(&self) -> (r: String)
        ensures
            r@ == zsh_wrapper(),
    {
        let script =
            "ggr() {\n  if [[ \"$1\" == \"cd\" ]]; then\n    shift\n    local target\n    target=$(git-gardener cd \"$@\") && cd \"$target\"\n  else\n    git-gardener \"$@\"\n  fi\n}\n";
        script.to_owned()
    }

    /// The wrapper for fish.
    pub fn generate_fish_script(&self) -> (r: String)
        ensures
            r@ == fish_wrapper(),
    {
        let script =
            "function ggr\n  if test (count $argv) -gt 0; and test $argv[1] = cd\n    set -l target (git-gardener cd $argv[2..-1])\n    and cd $target\n  else\n    git-gardener $argv\n  end\nend\n";
        script.to_owned()
    }
}

/// The bash wrapper text.
pub open spec fn bash_wrapper() -> Seq<char> {
    "ggr() {\n  if [ \"$1\" = \"cd\" ]; then\n    shift\n    local target\n    target=$(git-gardener cd \"$@\") && cd \"$target\"\n  else\n    git-gardener \"$@\"\n  fi\n}\n"@
}

/// The zsh wrapper text.
pub open spec fn zsh_wrapper() -> Seq<char> {
    "ggr() {\n  if [[ \"$1\" == \"cd\" ]]; then\n    shift\n    local target\n    target=$(git-gardener cd \"$@\") && cd \"$target\"\n  else\n    git-gardener \"$@\"\n  fi\n}\n"@
}

/// The fish wrapper text.
pub open spec fn fish_wrapper() -> Seq<char> {
    "function ggr\n  if test (count $argv) -gt 0; and test $argv[1] = cd\n    set -l target (git-gardener cd $argv[2..-1])\n    and cd $target\n  else\n    git-gardener $argv\n  end\nend\n"@
}

} // verus!
