//! The GitHub releases API: where the latest release of a repository is
//! asked for, and how the answer's status is judged.
use crate::error::{spec_decimal, spec_status_line, status_line, status_reason, GrmError};
use vstd::prelude::*;

verus! {

/// The `User-Agent` the tool sends to GitHub.
pub const USER_AGENT: &'static str = "github-repository-manager";

/// The `accept` header the tool sends with its request for a release.
pub const RELEASE_MEDIA_TYPE: &'static str = "application/vnd.github+json";

/// The part of GitHub's answer about a release that the tool reads.
#[derive(Debug)]
pub struct Release {
    pub tag_name: String,
    pub tarball_url: String,
}

/// The address of the latest release of a repository.
pub open spec fn spec_release_api_url(owner: Seq<char>, repo: Seq<char>) -> Seq<char> {
    "https://api.github.com/repos/"@ + owner + "/"@ + repo + "/releases/latest"@
}

/// What `url::Url::from_str` makes of a text: the parsed address in its
/// serialized form, or, when the text is no URL, the parser's error as shown.
pub uninterp spec fn url_parse(text: Seq<char>) -> Result<Seq<char>, Seq<char>>;

/// `url::Url::from_str`, with the parsed address given in its serialized
/// form (`Url::as_str`) and a failure by its `Display`. The contract claims
/// that the outcome depends on the text alone (named `url_parse`); how
/// texts are parsed and serialized it leaves unsaid.
#[verifier::external_body]
fn parse_url(text: &str) -> (res: Result<String, String>)
    ensures
        match res {
            Ok(address) => url_parse(text@) == Ok::<Seq<char>, Seq<char>>(address@),
            Err(shown) => url_parse(text@) == Err::<Seq<char>, Seq<char>>(shown@),
        },
{
    match <url::Url as core::str::FromStr>::from_str(text) {
        Ok(url) => Ok(url.as_str().to_string()),
        Err(e) => Err(e.to_string()),
    }
}

/// The address of the latest release of a repository, as text.
pub fn release_api_url(owner: &str, repo: &str) -> (res: String)
    ensures
        res@ == spec_release_api_url(owner@, repo@),
        res@ == "https://api.github.com/repos/"@ + owner@ + "/"@ + repo@ + "/releases/latest"@,
{
    let mut res = String::from_str("https://api.github.com/repos/");
    res.append(owner);
    res.append("/");
    res.append(repo);
    res.append("/releases/latest");
    res
}

/// The address of the latest release of a repository, checked by the URL
/// parser and given as it serializes it; a text that is no URL is reported
/// as `UrlParse` with the parser's reason.
pub fn release_url(owner: &str, repo: &str) -> (res: Result<String, GrmError>)
    ensures
        match res {
            Ok(address) => url_parse(spec_release_api_url(owner@, repo@)) == Ok::<
                Seq<char>,
                Seq<char>,
            >(address@),
            Err(GrmError::UrlParse(reason)) => url_parse(spec_release_api_url(owner@, repo@))
                == Err::<Seq<char>, Seq<char>>(reason@),
            Err(_) => false,
        },
{
    let text = release_api_url(owner, repo);
    match parse_url(text.as_str()) {
        Ok(address) => Ok(address),
        Err(reason) => Err(GrmError::UrlParse(reason)),
    }
}

/// What the answer to a request for the latest release means, by its status:
/// success for `200`, and otherwise the error that the tool reports.
pub open spec fn spec_release_status(code: u16, owner: Seq<char>, repo: Seq<char>) -> Result<(), Seq<char>> {
    if code == 200 {
        Ok(())
    } else if code == 403 {
        Err("Request forbidden by GitHub API."@)
    } else if code == 404 {
        Err("Repository '"@ + owner + "/"@ + repo + "' doesn't exist, or has no releases."@)
    } else {
        Err("GitHub returned unexpected status: "@ + spec_status_line(code))
    }
}

/// Judges the status of the answer to a request for the latest release of
/// `owner/repo`: `Ok` for `200`, and otherwise the error to report.
pub fn check_release_status(code: u16, owner: &str, repo: &str) -> (res: Result<(), GrmError>)
    requires
        100 <= code <= 999,
    ensures
        match spec_release_status(code, owner@, repo@) {
            Ok(()) => res is Ok,
            Err(message) => res matches Err(GrmError::Custom(m)) && m@ == message,
        },
        res is Ok <==> code == 200,
        code == 403 ==> (res matches Err(GrmError::Custom(m)) && m@
            == "Request forbidden by GitHub API."@),
        code == 404 ==> (res matches Err(GrmError::Custom(m)) && m@ == "Repository '"@ + owner@
            + "/"@ + repo@ + "' doesn't exist, or has no releases."@),
        code != 200 && code != 403 && code != 404 ==> (res matches Err(GrmError::Custom(m)) && m@
            == "GitHub returned unexpected status: "@ + spec_decimal(code as nat) + " "@
            + status_reason(code)),
{
    if code == 200 {
        Ok(())
    } else if code == 403 {
        Err(GrmError::Custom(String::from_str("Request forbidden by GitHub API.")))
    } else if code == 404 {
        let mut m = String::from_str("Repository '");
        m.append(owner);
        m.append("/");
        m.append(repo);
        m.append("' doesn't exist, or has no releases.");
        Err(GrmError::Custom(m))
    } else {
        let mut m = String::from_str("GitHub returned unexpected status: ");
        let line = status_line(code);
        m.append(line.as_str());
        Err(GrmError::Custom(m))
    }
}

} // verus!
