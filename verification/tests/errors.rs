use grm::config::PackageConfig;
use grm::error::{GrmError, HttpFailure, IoFailure};
use grm::github::{check_release_status, release_url};
use grm::package::remove::config_for_removal;

fn http(status: Option<u16>, detail: &str) -> GrmError {
    GrmError::Reqwest(HttpFailure { status, detail: detail.to_string() })
}

#[test]
fn message_of_each_error() {
    let io = GrmError::Io(IoFailure { not_found: true, detail: "No such file".to_string() });
    assert_eq!(io.message(), "Filesystem error: No such file");
    assert_eq!(GrmError::Json("expected value".to_string()).message(), "Configuration format error: expected value");
    assert_eq!(GrmError::UrlParse("empty host".to_string()).message(), "Invalid URL generated: empty host");
    assert_eq!(GrmError::Custom("anything at all".to_string()).message(), "anything at all");
    assert_eq!(http(None, "connection refused").message(), "Network connection error: connection refused");
}

#[test]
fn message_of_http_statuses() {
    assert_eq!(http(Some(403), "x").message(), "GitHub API access forbidden. You might be rate-limited.");
    assert_eq!(http(Some(404), "x").message(), "Requested resource not found. Check if the repo/owner exists.");
    assert_eq!(http(Some(500), "x").message(), "GitHub API returned error status: 500 Internal Server Error");
    assert_eq!(http(Some(418), "x").message(), "GitHub API returned error status: 418 I'm a teapot");
    assert_eq!(http(Some(599), "x").message(), "GitHub API returned error status: 599 <unknown status code>");
}

fn custom_text(res: Result<(), GrmError>) -> String {
    match res {
        Err(GrmError::Custom(m)) => m,
        other => panic!("unexpected {:?}", other),
    }
}

#[test]
fn release_status_is_judged() {
    assert!(check_release_status(200, "o", "r").is_ok());
    assert_eq!(custom_text(check_release_status(403, "o", "r")), "Request forbidden by GitHub API.");
    assert_eq!(
        custom_text(check_release_status(404, "sharkdp", "nope")),
        "Repository 'sharkdp/nope' doesn't exist, or has no releases."
    );
    assert_eq!(
        custom_text(check_release_status(502, "o", "r")),
        "GitHub returned unexpected status: 502 Bad Gateway"
    );
    assert_eq!(
        custom_text(check_release_status(201, "o", "r")),
        "GitHub returned unexpected status: 201 Created"
    );
}

#[test]
fn release_address_parses() {
    let url = release_url("sharkdp", "bat").expect("a valid address");
    assert_eq!(url, "https://api.github.com/repos/sharkdp/bat/releases/latest");
    // The parser normalizes what it accepts.
    let url = release_url("Owner", "re po").expect("a valid address");
    assert_eq!(url, "https://api.github.com/repos/Owner/re%20po/releases/latest");
}

#[test]
fn removal_needs_a_configuration() {
    let missing = Err(GrmError::Io(IoFailure { not_found: true, detail: "gone".to_string() }));
    match config_for_removal(missing) {
        Err(GrmError::Custom(m)) => assert_eq!(
            m,
            "No package configuration file exists, unable to remove package. Remove manually if desired."
        ),
        other => panic!("unexpected {:?}", other),
    }
    let denied = Err(GrmError::Io(IoFailure { not_found: false, detail: "denied".to_string() }));
    match config_for_removal(denied) {
        Err(GrmError::Io(f)) => {
            assert!(!f.not_found);
            assert_eq!(f.detail, "denied");
        }
        other => panic!("unexpected {:?}", other),
    }
    match config_for_removal(Err(GrmError::Json("bad".to_string()))) {
        Err(GrmError::Json(d)) => assert_eq!(d, "bad"),
        other => panic!("unexpected {:?}", other),
    }
    let config = PackageConfig { binaries_path: vec!["/usr/local/bin/bat".to_string()] };
    match config_for_removal(Ok(config)) {
        Ok(c) => assert_eq!(c.binaries_path, vec!["/usr/local/bin/bat".to_string()]),
        other => panic!("unexpected {:?}", other),
    }
}
