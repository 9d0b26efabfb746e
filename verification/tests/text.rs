use grm::text::{fill_source_dir, BUILD_SCRIPT_TEMPLATE, SOURCE_PLACEHOLDER};

#[test]
fn placeholder_is_filled_in() {
    let script = "cd {{SOURCE_CODE}}\nmake\ncp {{SOURCE_CODE}}/bin/x /usr/local/bin\n";
    assert_eq!(
        fill_source_dir(script, "/cache/o-r/o-r-abc123"),
        "cd /cache/o-r/o-r-abc123\nmake\ncp /cache/o-r/o-r-abc123/bin/x /usr/local/bin\n"
    );
}

#[test]
fn script_without_placeholder_is_unchanged() {
    let script = "#!/bin/bash\necho {{SOURCE}} {SOURCE_CODE}\n";
    assert_eq!(fill_source_dir(script, "/x"), script);
    assert_eq!(fill_source_dir("", "/x"), "");
}

#[test]
fn placeholder_filled_with_itself_is_unchanged() {
    let script = "a{{SOURCE_CODE}}b{{SOURCE_CODE}}";
    assert_eq!(fill_source_dir(script, SOURCE_PLACEHOLDER), script);
}

#[test]
fn occurrences_do_not_overlap() {
    assert_eq!(fill_source_dir("{{{SOURCE_CODE}}}", "D"), "{D}");
    assert_eq!(fill_source_dir("{{SOURCE_CODE}}{{SOURCE_CODE}}", "é"), "éé");
    assert_eq!(fill_source_dir("ü{{SOURCE_CODE}", "D"), "ü{{SOURCE_CODE}");
    let text = "x{{SOURCE_CODE}}y";
    assert_eq!(fill_source_dir(text, "{{SOURCE_"), text.replace("{{SOURCE_CODE}}", "{{SOURCE_"));
}

#[test]
fn template_names_the_source_directory() {
    assert!(BUILD_SCRIPT_TEMPLATE.contains(SOURCE_PLACEHOLDER));
    let filled = fill_source_dir(BUILD_SCRIPT_TEMPLATE, "/src");
    assert!(!filled.contains(SOURCE_PLACEHOLDER));
    assert!(filled.contains("cd \"/src\""));
}
