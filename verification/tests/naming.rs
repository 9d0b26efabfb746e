use grm::data::PackageData;
use grm::github::{release_api_url, RELEASE_MEDIA_TYPE, USER_AGENT};
use grm::layout::{json_file_name, package_id, script_file_name, shown_in, APP_DIR_NAME};
use grm::state::PackageState;

#[test]
fn package_id_joins_owner_and_repo() {
    assert_eq!(package_id("sharkdp", "bat"), "sharkdp-bat");
    assert_eq!(package_id("", ""), "-");
}

#[test]
fn file_names_of_a_package() {
    assert_eq!(json_file_name("sharkdp", "bat"), "sharkdp-bat.json");
    assert_eq!(script_file_name("sharkdp", "bat"), "sharkdp-bat.sh");
    assert_eq!(shown_in("/home/u/.local/share/grm", "a-b.json"), "/home/u/.local/share/grm/a-b.json");
}

#[test]
fn data_record_file_name_matches_lookup() {
    let data = PackageData {
        owner: "BurntSushi".to_string(),
        repo: "ripgrep".to_string(),
        installed_version: "14.1.0".to_string(),
    };
    assert_eq!(data.file_name(), json_file_name("BurntSushi", "ripgrep"));
    assert_eq!(data.file_name(), "BurntSushi-ripgrep.json");
}

#[test]
fn state_record_file_name() {
    let state = PackageState {
        owner: "o".to_string(),
        repo: "r".to_string(),
        installed_version: "v1".to_string(),
    };
    assert_eq!(state.file_name(), "o-r.json");
}

#[test]
fn listing_of_a_package() {
    let data = PackageData {
        owner: "sharkdp".to_string(),
        repo: "fd".to_string(),
        installed_version: "none".to_string(),
    };
    assert_eq!(data.listing(), "Owner: sharkdp\nRepository: fd\nVersion: none\n");
}

#[test]
fn release_address_and_headers() {
    assert_eq!(
        release_api_url("sharkdp", "bat"),
        "https://api.github.com/repos/sharkdp/bat/releases/latest"
    );
    assert_eq!(USER_AGENT, "github-repository-manager");
    assert_eq!(RELEASE_MEDIA_TYPE, "application/vnd.github+json");
    assert_eq!(APP_DIR_NAME, "github-repository-manager");
}
