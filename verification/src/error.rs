//! The error taxonomy shared by every operation of the library.

use vstd::prelude::*;

verus! {

/// Everything a worktree operation can fail with. Failures coming from the
/// underlying Git layer or the filesystem carry their detail as text.
#[derive(Debug, Clone)]
pub enum GitGardenerError {
    /// The underlying Git layer rejected an operation.
    Git(String),
    /// A filesystem operation failed.
    Io(String),
    /// Rendering or reading the configuration as TOML failed.
    TomlParse(String),
    /// Serializing the configuration failed.
    TomlSerialize(String),
    /// No configuration file was found at the given path.
    ConfigNotFound { path: String },
    /// The configuration file was read but its content is unusable.
    InvalidConfig { message: String },
    /// A worktree with this name or path is already registered.
    WorktreeExists { name: String },
    /// No registered worktree matches this name.
    WorktreeNotFound { name: String },
    /// No repository is discoverable from the current directory.
    NotInRepository,
    /// Any other failure, described in plain words.
    Custom(String),
}

impl GitGardenerError {
    /// The single descriptive line shown to the user for this error.
    pub fn message(&self) -> (r: String)
        ensures
            self is NotInRepository ==> r@ == "Not in a git repository"@,
            self matches GitGardenerError::Custom(d) ==> r@ == d@,
    {
        match self {
            GitGardenerError::Git(d) => {
                let mut m = String::new();
                m.append("Git error: ");
                m.append(d.as_str());
                m
            },
            GitGardenerError::Io(d) => {
                let mut m = String::new();
                m.append("IO error: ");
                m.append(d.as_str());
                m
            },
            GitGardenerError::TomlParse(d) => {
                let mut m = String::new();
                m.append("TOML parsing error: ");
                m.append(d.as_str());
                m
            },
            GitGardenerError::TomlSerialize(d) => {
                let mut m = String::new();
                m.append("TOML serialization error: ");
                m.append(d.as_str());
                m
            },
            GitGardenerError::ConfigNotFound { path } => {
                let mut m = String::new();
                m.append("Config file not found at ");
                m.append(path.as_str());
                m
            },
            GitGardenerError::InvalidConfig { message } => {
                let mut m = String::new();
                m.append("Invalid configuration: ");
                m.append(message.as_str());
                m
            },
            GitGardenerError::WorktreeExists { name } => {
                let mut m = String::new();
                m.append("Worktree '");
                m.append(name.as_str());
                m.append("' already exists");
                m
            },
            GitGardenerError::WorktreeNotFound { name } => {
                let mut m = String::new();
                m.append("Worktree '");
                m.append(name.as_str());
                m.append("' not found");
                m
            },
            GitGardenerError::NotInRepository => {
                let m = "Not in a git repository";
                m.to_owned()
            },
            GitGardenerError::Custom(d) => d.clone(),
        }
    }
}

/// The result type used throughout the library.
pub type Result<T> = core::result::Result<T, GitGardenerError>;

} // verus!
