//! The older form of a package's record, kept in a state directory.
use crate::layout::{json_file_name, spec_json_file_name};
use vstd::prelude::*;

verus! {

/// A package's record in the state directory.
#[derive(Debug)]
pub struct PackageState {
    pub owner: String,
    pub repo: String,
    pub installed_version: String,
}

impl PackageState {
    /// The name of the file, in the state directory, that holds this record:
    /// `<owner>-<repo>.json`.
    pub fn file_name(&self) -> (res: String)
        ensures
            res@ == spec_json_file_name(self.owner@, self.repo@),
            res@ == self.owner@ + "-"@ + self.repo@ + ".json"@,
    {
        json_file_name(self.owner.as_str(), self.repo.as_str())
    }
}

} // verus!
