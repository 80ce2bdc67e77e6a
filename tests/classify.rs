use git2page::classify::{is_main_file, is_source_file, pick_targets, select_source_targets};

fn texts(v: &[&str]) -> Vec<String> {
    v.iter().map(|s| s.to_string()).collect()
}

#[test]
fn source_extensions_ignore_case() {
    assert!(is_source_file("main.py"));
    assert!(is_source_file("MAIN.PY"));
    assert!(is_source_file("src/lib.rs"));
    assert!(!is_source_file("README.md"));
    assert!(!is_source_file("Cargo.toml"));
}

#[test]
fn entry_markers_ignore_case() {
    assert!(is_main_file("src/Main.rs"));
    assert!(is_main_file("INDEX.js"));
    assert!(!is_main_file("utils.py"));
}

#[test]
fn entry_sources_come_first() {
    let files = texts(&["utils.py", "README.md", "app.py", "src/main.rs", "src/cli.rs"]);
    assert_eq!(select_source_targets(&files), texts(&["app.py", "src/main.rs"]));
}

#[test]
fn any_sources_when_no_entry() {
    let files = texts(&["notes.txt", "helpers.go", "Util.JAVA"]);
    assert_eq!(select_source_targets(&files), texts(&["helpers.go", "Util.JAVA"]));
}

#[test]
fn no_sources_no_targets() {
    let files = texts(&["notes.txt", "LICENSE"]);
    assert!(select_source_targets(&files).is_empty());
}

#[test]
fn targets_from_given_lowercase_names() {
    let files = texts(&["A.TXT", "B.X"]);
    let lowered = texts(&["main.py", "b.x"]);
    assert_eq!(pick_targets(&files, &lowered), texts(&["A.TXT"]));
}
