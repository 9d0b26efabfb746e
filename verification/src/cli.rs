//! The commands of the command line tool.
use vstd::prelude::*;

verus! {

/// The parsed command line: which command to run.
#[derive(Debug)]
pub struct Cli {
    pub command: Commands,
}

/// The commands of the tool.
#[derive(Debug)]
pub enum Commands {
    /// Lists all installed packages
    List,
    /// Declares a package matching the provided owner and repository.
    Declare { owner: String, repo: String },
    /// Sync a package matching the provided owner and repository.
    Sync { owner: String, repo: String },
    /// Removes a package matching the provided owner and repository.
    Remove {
        owner: String,
        repo: String,
        /// Delete cofig files as well.
        config: bool,
    },
}

} // verus!
