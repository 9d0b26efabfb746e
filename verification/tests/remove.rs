use grm::error::GrmError;
use grm::package::remove::{RemoveAction, Removal};

/// Runs a removal of the given binaries; `present` and `deletable` say,
/// by path, what exists and what can be deleted.
fn remove(
    binaries: &[&str],
    present: &[&str],
    undeletable: &[&str],
    data_exists: bool,
    cache_exists: bool,
    config: bool,
) -> Vec<String> {
    let mut r = Removal::new(
        binaries.iter().map(|b| b.to_string()).collect(),
        config,
        "/data/o-r.json".to_string(),
        "/cache/o-r".to_string(),
        "/cfg/o-r".to_string(),
    );
    let mut done = Vec::new();
    for _ in 0..50 {
        let (text, answer) = match r.action() {
            RemoveAction::BinaryExists(p) => (format!("exists {}", p), present.contains(&p.as_str())),
            RemoveAction::DeleteBinary(p) => (format!("delete {}", p), !undeletable.contains(&p.as_str())),
            RemoveAction::DataFileExists => ("data?".to_string(), data_exists),
            RemoveAction::RemoveDataFile => ("rm data".to_string(), false),
            RemoveAction::CacheDirExists => ("cache?".to_string(), cache_exists),
            RemoveAction::RemoveCacheDir => ("rm cache".to_string(), false),
            RemoveAction::RemoveConfigDir => ("rm config".to_string(), false),
            RemoveAction::Print(line) => (line, false),
            RemoveAction::Finish => {
                done.push("finish".to_string());
                return done;
            }
            RemoveAction::Fail(GrmError::Custom(m)) => {
                done.push(format!("fail: {}", m));
                return done;
            }
            RemoveAction::Fail(other) => panic!("unexpected error {:?}", other),
        };
        done.push(text);
        r.advance(answer);
    }
    panic!("removal did not end: {:?}", done);
}

#[test]
fn removal_of_everything() {
    assert_eq!(
        remove(&["/bin/a", "/bin/b"], &["/bin/a", "/bin/b"], &[], true, true, true),
        vec![
            "exists /bin/a",
            "delete /bin/a",
            "File removed: /bin/a",
            "exists /bin/b",
            "delete /bin/b",
            "File removed: /bin/b",
            "data?",
            "rm data",
            "File removed: /data/o-r.json",
            "cache?",
            "rm cache",
            "Directory removed: /cache/o-r",
            "rm config",
            "Directory removed: /cfg/o-r",
            "Done!",
            "finish",
        ]
    );
}

#[test]
fn removal_skips_what_is_absent() {
    assert_eq!(
        remove(&["/bin/a", "/bin/b"], &["/bin/b"], &[], false, false, false),
        vec![
            "exists /bin/a",
            "exists /bin/b",
            "delete /bin/b",
            "File removed: /bin/b",
            "data?",
            "cache?",
            "Done!",
            "finish",
        ]
    );
}

#[test]
fn config_directory_goes_only_on_request() {
    let kept = remove(&[], &[], &[], true, true, false);
    assert!(!kept.contains(&"rm config".to_string()));
    let gone = remove(&[], &[], &[], true, true, true);
    assert!(gone.contains(&"rm config".to_string()));
}

#[test]
fn failed_deletion_stops_removal() {
    assert_eq!(
        remove(&["/bin/a", "/bin/b"], &["/bin/a", "/bin/b"], &["/bin/a"], true, true, true),
        vec!["exists /bin/a", "delete /bin/a", "fail: Failed to remove file with sudo."]
    );
}

#[test]
fn failed_removal_stays_failed() {
    let mut r = Removal::new(
        vec!["/bin/a".to_string(), "/bin/b".to_string()],
        true,
        "/data/o-r.json".to_string(),
        "/cache/o-r".to_string(),
        "/cfg/o-r".to_string(),
    );
    r.advance(true); // /bin/a exists
    r.advance(false); // deleting it fails
    for answer in [true, false, true] {
        match r.action() {
            RemoveAction::Fail(GrmError::Custom(m)) => assert_eq!(m, "Failed to remove file with sudo."),
            other => panic!("unexpected {:?}", other),
        }
        r.advance(answer);
    }
}

#[test]
fn removal_with_no_binaries_starts_at_the_data_file() {
    let r = Removal::new(Vec::new(), false, "d".to_string(), "c".to_string(), "k".to_string());
    assert!(matches!(r.action(), RemoveAction::DataFileExists));
}
