use grm::error::GrmError;
use grm::package::sync::{first_directory, Synchronization, SyncAction, SyncEvent};

struct World {
    declared: bool,
    cache_exists: bool,
    dirs: Vec<bool>,
    build_succeeds: bool,
}

/// Runs a sync of `o/r` against `world`, and lists what it does.
fn sync(world: &World) -> Vec<String> {
    let mut s = Synchronization::new("o".to_string(), "r".to_string());
    let mut done = Vec::new();
    for _ in 0..30 {
        let (text, event) = match s.action() {
            SyncAction::LoadData => ("data?".to_string(), SyncEvent::Answer(world.declared)),
            SyncAction::FetchRelease => ("fetch".to_string(), SyncEvent::Text("v1.2.3".to_string())),
            SyncAction::CacheExists => ("cache?".to_string(), SyncEvent::Answer(world.cache_exists)),
            SyncAction::RemoveCacheDir => ("rm cache".to_string(), SyncEvent::Done),
            SyncAction::CreateCacheDir => ("mkdir cache".to_string(), SyncEvent::Done),
            SyncAction::ExtractArchive => ("extract".to_string(), SyncEvent::Done),
            SyncAction::ReadScript => (
                "read script".to_string(),
                SyncEvent::Text("cd {{SOURCE_CODE}} && make".to_string()),
            ),
            SyncAction::ListCacheDir => ("list".to_string(), SyncEvent::Entries(world.dirs.clone())),
            SyncAction::SourceDirPath(i) => (
                format!("path {}", i),
                SyncEvent::Text(format!("/cache/o-r/entry{}", i)),
            ),
            SyncAction::WriteScript(script) => (format!("write {}", script), SyncEvent::Done),
            SyncAction::RunScript => (
                "run".to_string(),
                SyncEvent::Exit {
                    success: world.build_succeeds,
                    status: "exit status: 2".to_string(),
                },
            ),
            SyncAction::SaveData(data) => (
                format!("save {} {} {}", data.owner, data.repo, data.installed_version),
                SyncEvent::Done,
            ),
            SyncAction::Print(line) => (line, SyncEvent::Done),
            SyncAction::Finish => {
                done.push("finish".to_string());
                return done;
            }
            SyncAction::Fail(GrmError::Custom(m)) => {
                done.push(format!("fail: {}", m));
                return done;
            }
            SyncAction::Fail(other) => panic!("unexpected error {:?}", other),
        };
        done.push(text);
        s.advance(event);
    }
    panic!("sync did not end: {:?}", done);
}

#[test]
fn undeclared_package_is_not_synced() {
    let world = World { declared: false, cache_exists: true, dirs: vec![true], build_succeeds: true };
    assert_eq!(
        sync(&world),
        vec![
            "data?",
            "fail: Package 'o/r' needs to be declared before sync, run 'grm declare o r'",
        ]
    );
}

#[test]
fn sync_records_the_fetched_tag() {
    let world = World { declared: true, cache_exists: true, dirs: vec![false, true, true], build_succeeds: true };
    assert_eq!(
        sync(&world),
        vec![
            "data?",
            "fetch",
            "cache?",
            "rm cache",
            "mkdir cache",
            "extract",
            "read script",
            "list",
            "path 1",
            "write cd /cache/o-r/entry1 && make",
            "run",
            "save o r v1.2.3",
            "Done!",
            "finish",
        ]
    );
}

#[test]
fn sync_without_cache_does_not_remove_it() {
    let world = World { declared: true, cache_exists: false, dirs: vec![true], build_succeeds: true };
    let steps = sync(&world);
    assert!(!steps.contains(&"rm cache".to_string()));
    assert_eq!(steps[3], "mkdir cache");
    assert_eq!(steps[7], "path 0");
}

#[test]
fn sync_fails_without_a_root_directory() {
    let world = World { declared: true, cache_exists: false, dirs: vec![false, false], build_succeeds: true };
    let steps = sync(&world);
    assert_eq!(steps.last().unwrap(), "fail: Tarball did not contain a root directory");
    let world = World { declared: true, cache_exists: false, dirs: vec![], build_succeeds: true };
    assert_eq!(sync(&world).last().unwrap(), "fail: Tarball did not contain a root directory");
}

#[test]
fn failed_build_is_not_recorded() {
    let world = World { declared: true, cache_exists: false, dirs: vec![true], build_succeeds: false };
    let steps = sync(&world);
    assert_eq!(steps.last().unwrap(), "fail: Build script failed with status: exit status: 2");
    assert!(!steps.iter().any(|s| s.starts_with("save")));
}

#[test]
fn unexpected_event_changes_nothing() {
    let mut s = Synchronization::new("o".to_string(), "r".to_string());
    s.advance(SyncEvent::Done);
    assert!(matches!(s.action(), SyncAction::LoadData));
    s.advance(SyncEvent::Answer(true));
    assert!(matches!(s.action(), SyncAction::FetchRelease));
    s.advance(SyncEvent::Answer(true));
    assert!(matches!(s.action(), SyncAction::FetchRelease));
}

#[test]
fn first_directory_of_a_listing() {
    assert_eq!(first_directory(&vec![]), None);
    assert_eq!(first_directory(&vec![false, false]), None);
    assert_eq!(first_directory(&vec![true]), Some(0));
    assert_eq!(first_directory(&vec![false, true, true]), Some(1));
}

#[test]
fn build_runs_after_unpacking_and_record_after_success() {
    let world = World { declared: true, cache_exists: true, dirs: vec![true], build_succeeds: true };
    let steps = sync(&world);
    let pos = |name: &str| steps.iter().position(|s| s.starts_with(name)).unwrap();
    assert!(pos("extract") < pos("write"));
    assert_eq!(pos("write") + 1, pos("run"));
    assert!(pos("run") < pos("save"));
}
