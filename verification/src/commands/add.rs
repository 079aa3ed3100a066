//! Creating a worktree: the checks and path decisions behind the `add`
//! verb. The process that attaches the worktree and the filesystem work
//! around it are the caller's side.

use vstd::prelude::*;
use crate::error::GitGardenerError;

verus! {

/// Parameters of one `add` invocation.
pub struct AddCommand {
    /// The branch to check out in the new worktree.
    pub branch: String,
    /// Whether to create the branch rather than require it.
    pub new_branch: bool,
    /// The commit to start a created branch at, when given.
    pub commit: Option<String>,
}

/// The directory that receives new worktrees when the configuration names
/// none.
pub open spec fn default_root_dir() -> Seq<char> {
    ".gardener"@
}

impl AddCommand {
    /// An `add` with the given parameters.
    pub fn new(branch: String, new_branch: bool, commit: Option<String>) -> (r: AddCommand)
        ensures
            r.branch == branch,
            r.new_branch == new_branch,
            r.commit == commit,
    {
        AddCommand { branch, new_branch, commit }
    }

    /// An existing branch is required unless a new one is asked for:
    /// `branch_exists` is what the gateway answered.
    pub fn check_branch(&self, branch_exists: bool) -> (r: Result<(), GitGardenerError>)
        ensures
            !self.new_branch && !branch_exists ==> (r matches Err(e) && (e
                matches GitGardenerError::Custom(m) && m@ == (("Branch '"@ + self.branch@)
                + "' does not exist. Use -b flag to create a new branch."@))),
            self.new_branch || branch_exists ==> r is Ok,
    {
        if !self.new_branch && !branch_exists {
            let mut m = String::new();
            m.append("Branch '");
            m.append(self.branch.as_str());
            m.append("' does not exist. Use -b flag to create a new branch.");
            proof {
                assert(((Seq::<char>::empty() + "Branch '"@) + self.branch@)
                    + "' does not exist. Use -b flag to create a new branch."@ =~= ("Branch '"@
                    + self.branch@) + "' does not exist. Use -b flag to create a new branch."@);
            }
            Err(GitGardenerError::Custom(m))
        } else {
            Ok(())
        }
    }

    /// Where the worktree goes and what it is called: named after the
    /// branch, placed under the configured root directory — `.gardener`
    /// when none is configured — inside the repository root.
    pub fn destination(&self, repo_root: &str, root_dir: &Option<String>) -> (r: (String, String))
        ensures
            r.0@ == self.branch@,
            r.1@ == ((repo_root@ + "/"@ + (match root_dir {
                Some(d) => d@,
                None => default_root_dir(),
            })) + "/"@) + self.branch@,
    {
        let base: &str = match root_dir {
            Some(d) => d.as_str(),
            None => ".gardener",
        };
        let mut path = repo_root.to_owned();
        path.append("/");
        path.append(base);
        path.append("/");
        path.append(self.branch.as_str());
        (self.branch.clone(), path)
    }
}

} // verus!
