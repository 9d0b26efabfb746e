//! Names of the files and directories that belong to a package.
use vstd::prelude::*;

verus! {

/// Name of the directory, below each of the user's base directories, that
/// holds everything this tool keeps.
pub const APP_DIR_NAME: &'static str = "github-repository-manager";

/// The identifier of a package: its owner and repository joined by `-`.
pub open spec fn spec_package_id(owner: Seq<char>, repo: Seq<char>) -> Seq<char> {
    owner + "-"@ + repo
}

/// The name of a package's JSON files (its data file and its config file).
pub open spec fn spec_json_file_name(owner: Seq<char>, repo: Seq<char>) -> Seq<char> {
    spec_package_id(owner, repo) + ".json"@
}

/// The name of a package's build script.
pub open spec fn spec_script_file_name(owner: Seq<char>, repo: Seq<char>) -> Seq<char> {
    spec_package_id(owner, repo) + ".sh"@
}

/// How a file name is shown below a directory in the tool's messages.
pub open spec fn spec_shown_in(dir: Seq<char>, name: Seq<char>) -> Seq<char> {
    dir + "/"@ + name
}

/// The identifier of a package, `<owner>-<repo>`. It names the package's
/// config directory and cache directory.
pub fn package_id(owner: &str, repo: &str) -> (res: String)
    ensures
        res@ == spec_package_id(owner@, repo@),
        res@ == owner@ + "-"@ + repo@,
{
    let mut res = String::from_str(owner);
    res.append("-");
    res.append(repo);
    res
}

/// `<owner>-<repo>.json`, the name of both the data file and the config file.
pub fn json_file_name(owner: &str, repo: &str) -> (res: String)
    ensures
        res@ == spec_json_file_name(owner@, repo@),
        res@ == owner@ + "-"@ + repo@ + ".json"@,
{
    let mut res = package_id(owner, repo);
    res.append(".json");
    res
}

/// `<owner>-<repo>.sh`, the name of the package's build script.
pub fn script_file_name(owner: &str, repo: &str) -> (res: String)
    ensures
        res@ == spec_script_file_name(owner@, repo@),
        res@ == owner@ + "-"@ + repo@ + ".sh"@,
{
    let mut res = package_id(owner, repo);
    res.append(".sh");
    res
}

/// `<dir>/<name>`, a file below a directory as the tool's messages show it.
pub fn shown_in(dir: &str, name: &str) -> (res: String)
    ensures
        res@ == spec_shown_in(dir@, name@),
        res@ == dir@ + "/"@ + name@,
{
    let mut res = String::from_str(dir);
    res.append("/");
    res.append(name);
    res
}

} // verus!
