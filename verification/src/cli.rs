//! The command-line options as the core consumes them, already parsed into
//! plain values by the surrounding program.
use vstd::prelude::*;

verus! {

/// The command-line options that steer a run.
#[derive(Clone, Debug)]
pub struct Cli {
    /// Path to the configuration file.
    pub config: String,
    /// Optional prefix to add to commit messages.
    pub prefix: String,
    /// Whether to push automatically after each commit.
    pub auto_push: bool,
    /// Whether to handle multiple files in a single commit.
    pub multi_file: bool,
    /// Whether to run the audit gate over each change.
    pub audit: bool,
    /// Minimum severity level for audit findings.
    pub audit_level: String,
    /// Whether to force operations without confirmation.
    pub force: bool,
}

/// An error met while handling command-line input.
#[derive(Clone, Debug)]
pub enum CliError {
    IoError(String),
    InvalidInput(String),
}

impl Cli {
    /// Hands out the configuration file path.
    pub fn get_config_path(&self) -> (r: Result<String, CliError>)
        ensures
            r is Ok,
            r->Ok_0@ == self.config@,
    {
        Ok(self.config.clone())
    }
}

} // verus!
