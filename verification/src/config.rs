//! The per-repository configuration: defaults and post-creation hooks.

use vstd::prelude::*;
use crate::error::GitGardenerError;

verus! {

/// The whole configuration of one repository.
#[derive(Debug, Clone)]
pub struct Config {
    /// Schema generation marker of the file.
    pub version: String,
    /// Defaults applied when a command gives no explicit value.
    pub defaults: DefaultConfig,
    /// Hooks run after certain operations, when declared.
    pub hooks: Option<Hooks>,
}

/// Default values for worktree placement and editing.
#[derive(Debug, Clone)]
pub struct DefaultConfig {
    /// Directory under the repository root that receives new worktrees.
    pub root_dir: Option<String>,
    /// Command used to open a worktree in an editor.
    pub editor: Option<String>,
}

/// The declared hook lists.
#[derive(Debug, Clone)]
pub struct Hooks {
    /// Hooks run right after a worktree is created, in order.
    pub post_create: Option<Vec<Hook>>,
}

/// One declared unit of post-creation work.
#[derive(Debug, Clone)]
pub struct Hook {
    /// Whether this hook copies a file or runs a command.
    pub hook_type: HookType,
    /// Source path of a copy hook.
    pub from: Option<String>,
    /// Destination of a copy hook, relative to the new worktree.
    pub to: Option<String>,
    /// Shell command of a command hook; may hold placeholders.
    pub command: Option<String>,
    /// Extra environment for a command hook; values may hold placeholders.
    pub env: Option<Vec<(String, String)>>,
}

/// The closed set of hook kinds.
#[derive(Debug, Clone, PartialEq, Eq, Structural)]
pub enum HookType {
    Copy,
    Command,
}

impl Default for DefaultConfig {
    /// No root directory and no editor configured.
    fn default() -> (r: DefaultConfig)
        ensures
            r.root_dir is None,
            r.editor is None,
    {
        DefaultConfig { root_dir: None, editor: None }
    }
}

impl Default for Config {
    /// The configuration substituted when no file exists.
    fn default() -> (r: Config)
        ensures
            r.version@ == "1.0"@,
            r.defaults.root_dir is None,
            r.defaults.editor is None,
            r.hooks is None,
    {
        Config {
            version: default_version(),
            defaults: DefaultConfig { root_dir: None, editor: None },
            hooks: None,
        }
    }
}

/// The version written into fresh configuration files.
pub fn default_version() -> (r: String)
    ensures
        r@ == "1.0"@,
{
    let v = "1.0";
    v.to_owned()
}

impl Config {
    /// The location of the configuration file inside a repository root.
    pub fn get_config_path(repo_path: &str) -> (r: String)
        ensures
            r@ == repo_path@ + "/.gardener.yml"@,
    {
        let mut p = repo_path.to_owned();
        p.append("/.gardener.yml");
        p
    }

    /// Applies one `set` operation to this configuration in memory.
    /// Exactly the keys `defaults.root_dir` and `defaults.editor` are known;
    /// any other key is rejected without changing the configuration.
    pub fn apply_set(&mut self, key: &str, value: &str) -> (r: Result<(), GitGardenerError>)
        ensures
            key@ == "defaults.root_dir"@ ==> r is Ok && (final(self).defaults.root_dir matches Some(
                v,
            ) && v@ == value@) && final(self).defaults.editor == old(self).defaults.editor,
            key@ == "defaults.editor"@ ==> r is Ok && (final(self).defaults.editor matches Some(v)
                && v@ == value@) && final(self).defaults.root_dir == old(self).defaults.root_dir,
            key@ != "defaults.root_dir"@ && key@ != "defaults.editor"@ ==> r is Err && *final(self)
                == *old(self),
            final(self).version == old(self).version,
            final(self).hooks == old(self).hooks,
    {
        proof {
            reveal_strlit("defaults.root_dir");
            reveal_strlit("defaults.editor");
            assert("defaults.root_dir"@.len() != "defaults.editor"@.len());
        }
        if crate::text::str_eq(key, "defaults.root_dir") {
            self.defaults.root_dir = Some(value.to_owned());
            Ok(())
        } else if crate::text::str_eq(key, "defaults.editor") {
            self.defaults.editor = Some(value.to_owned());
            Ok(())
        } else {
            let mut m = String::new();
            m.append("Unknown config key: ");
            m.append(key);
            Err(GitGardenerError::Custom(m))
        }
    }
}

} // verus!
