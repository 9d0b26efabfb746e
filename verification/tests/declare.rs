use grm::package::declare::{DeclareAction, Declaration};

/// Runs a declaration of `o/r` against what it finds, and lists what it does.
fn declare(script_exists: bool, data_loads: bool, config_loads: bool) -> Vec<String> {
    let mut d = Declaration::new(
        "o".to_string(),
        "r".to_string(),
        "/cfg/o-r/o-r.sh".to_string(),
        "/data".to_string(),
        "/cfg/o-r".to_string(),
    );
    let mut done = Vec::new();
    for _ in 0..20 {
        let action = d.action();
        let answer = match &action {
            DeclareAction::CheckScriptExists => script_exists,
            DeclareAction::LoadData => data_loads,
            DeclareAction::LoadConfig => config_loads,
            _ => false,
        };
        let text = match action {
            DeclareAction::CreateConfigDir => "mkdir".to_string(),
            DeclareAction::CheckScriptExists => "script?".to_string(),
            DeclareAction::WriteScriptTemplate => "write script".to_string(),
            DeclareAction::LoadData => "data?".to_string(),
            DeclareAction::SaveData(data) => {
                format!("save data {} {} {}", data.owner, data.repo, data.installed_version)
            }
            DeclareAction::LoadConfig => "config?".to_string(),
            DeclareAction::SaveConfig(config) => format!("save config {}", config.binaries_path.len()),
            DeclareAction::Print(line) => line,
            DeclareAction::Finish => {
                done.push("finish".to_string());
                return done;
            }
        };
        done.push(text);
        d.advance(answer);
    }
    panic!("declaration did not finish: {:?}", done);
}

#[test]
fn declaring_a_new_package_creates_everything() {
    assert_eq!(
        declare(false, false, false),
        vec![
            "mkdir",
            "script?",
            "write script",
            "Created missing build script: /cfg/o-r/o-r.sh",
            "data?",
            "save data o r none",
            "Created missing state file: /data/o-r.json",
            "config?",
            "save config 0",
            "Created missing config file: /cfg/o-r/o-r.json",
            "Done!",
            "finish",
        ]
    );
}

#[test]
fn declaring_twice_writes_nothing() {
    assert_eq!(
        declare(true, true, true),
        vec![
            "mkdir",
            "script?",
            "Already existing build script: /cfg/o-r/o-r.sh",
            "data?",
            "Already existing data file: /data/o-r.json",
            "config?",
            "Already existing config file: /cfg/o-r/o-r.json",
            "Done!",
            "finish",
        ]
    );
}

#[test]
fn declaring_writes_only_what_is_missing() {
    for mask in 0..8u8 {
        let (s, d, c) = (mask & 1 != 0, mask & 2 != 0, mask & 4 != 0);
        let steps = declare(s, d, c);
        assert_eq!(steps.contains(&"write script".to_string()), !s);
        assert_eq!(steps.contains(&"save data o r none".to_string()), !d);
        assert_eq!(steps.contains(&"save config 0".to_string()), !c);
        assert_eq!(steps.last().unwrap(), "finish");
    }
}

#[test]
fn finished_declaration_stays_finished() {
    let mut d = Declaration::new(String::new(), String::new(), String::new(), String::new(), String::new());
    for _ in 0..11 {
        d.advance(true);
    }
    assert!(matches!(d.action(), DeclareAction::Finish));
    d.advance(false);
    assert!(matches!(d.action(), DeclareAction::Finish));
}
