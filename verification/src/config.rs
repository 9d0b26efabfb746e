//! A package's configuration, kept in its config directory.
use vstd::prelude::*;

verus! {

/// The configuration of a package: the files its build installs, which
/// `remove` deletes again.
#[derive(Debug)]
pub struct PackageConfig {
    pub binaries_path: Vec<String>,
}

} // verus!
