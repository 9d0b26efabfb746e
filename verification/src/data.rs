//! What the tool records about each declared package.
use crate::layout::{json_file_name, spec_json_file_name};
use vstd::prelude::*;

verus! {

/// The record kept in the data directory for a declared package.
#[derive(Debug)]
pub struct PackageData {
    pub owner: String,
    pub repo: String,
    /// The release tag that was last built, or `none` before the first sync.
    pub installed_version: String,
}

/// How a package is shown by `list`.
pub open spec fn spec_listing(owner: Seq<char>, repo: Seq<char>, version: Seq<char>) -> Seq<char> {
    "Owner: "@ + owner + "\nRepository: "@ + repo + "\nVersion: "@ + version + "\n"@
}

impl PackageData {
    /// The name of the file, in the data directory, that holds this record:
    /// `<owner>-<repo>.json`.
    pub fn file_name(&self) -> (res: String)
        ensures
            res@ == spec_json_file_name(self.owner@, self.repo@),
            res@ == self.owner@ + "-"@ + self.repo@ + ".json"@,
    {
        json_file_name(self.owner.as_str(), self.repo.as_str())
    }

    /// The text that `list` shows for this package.
    pub fn listing(&self) -> (res: String)
        ensures
            res@ == spec_listing(self.owner@, self.repo@, self.installed_version@),
            res@ == "Owner: "@ + self.owner@ + "\nRepository: "@ + self.repo@ + "\nVersion: "@
                + self.installed_version@ + "\n"@,
    {
        let mut res = String::from_str("Owner: ");
        res.append(self.owner.as_str());
        res.append("\nRepository: ");
        res.append(self.repo.as_str());
        res.append("\nVersion: ");
        res.append(self.installed_version.as_str());
        res.append("\n");
        res
    }
}

} // verus!
