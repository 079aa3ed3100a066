//! Initializing a repository for worktree management: the text decisions —
//! above all what the ignore file becomes. Creating directories and writing
//! files is the caller's side.

use vstd::prelude::*;
use crate::text::{has_trimmed_token, scan_for_token};

verus! {

/// Parameters of one `init` invocation.
pub struct InitCommand {
    /// Reinitialize even when a configuration file already exists.
    pub force: bool,
}

/// The line added to the ignore file for the worktree directory.
pub open spec fn ignore_entry() -> Seq<char> {
    ".gardener/"@
}

/// What the ignore file should become: a fresh file holding just the entry
/// when there is none; nothing when some line already reads the entry; else
/// the old content with the entry appended on a line of its own, a newline
/// inserted first when the content does not end in one.
pub fn gitignore_with_entry(content: Option<&str>) -> (r: Option<String>)
    ensures
        content is None ==> (r matches Some(c) && c@ == ".gardener/\n"@),
        content matches Some(c) ==> ({
            if has_trimmed_token(c@, '\n', ignore_entry()) {
                r is None
            } else if c@.len() > 0 && c@.last() == '\n' {
                r matches Some(o) && o@ == c@ + ".gardener/\n"@
            } else {
                r matches Some(o) && o@ == (c@ + "\n"@) + ".gardener/\n"@
            }
        }),
{
    match content {
        None => {
            let fresh = ".gardener/\n";
            Some(fresh.to_owned())
        },
        Some(c) => {
            if scan_for_token(c, '\n', ".gardener/") {
                return None;
            }
            let n = c.unicode_len();
            let ends_with_newline = n > 0 && c.get_char(n - 1) == '\n';
            let mut out = c.to_owned();
            if !ends_with_newline {
                out.append("\n");
            }
            out.append(".gardener/\n");
            Some(out)
        },
    }
}

impl InitCommand {
    /// An `init`, forced or not.
    pub fn new(force: bool) -> (r: InitCommand)
        ensures
            r.force == force,
    {
        InitCommand { force }
    }
}

} // verus!
