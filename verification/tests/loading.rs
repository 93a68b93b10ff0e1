use archive_config::read_config;
use archive_config::ConfigError;
use archive_config::LoadStep;
use archive_config::System;

/// Drives a load to completion the way the surrounding application would,
/// answering every path-existence query with `exists`.
fn load(root: &str, root_exists: bool, contents: Option<&str>, exists: bool) -> LoadStep {
    let mut answers: Vec<bool> = Vec::new();
    loop {
        match read_config(root, root_exists, contents, &answers) {
            LoadStep::Query(_) => answers.push(exists),
            done => return done,
        }
    }
}

fn loaded(step: LoadStep) -> Vec<System> {
    match step {
        LoadStep::Loaded(systems) => systems,
        other => panic!("expected a loaded configuration, got {other:?}"),
    }
}

fn failed(step: LoadStep) -> ConfigError {
    match step {
        LoadStep::Failed(e) => e,
        other => panic!("expected a failure, got {other:?}"),
    }
}

fn same_descriptor(a: &System, b: &System) -> bool {
    a.label == b.label && a.pretty_string.text == b.pretty_string.text
        && a.pretty_string.color == b.pretty_string.color && a.directory == b.directory
        && a.games_are_directories == b.games_are_directories
}

#[test]
fn end_to_end_single_system() {
    let contents = "
systems:
    wii:
        display_name: WII
        color: [0,215,255]
        path: wbfs
        games_are_directories: true
";
    let mut answers: Vec<bool> = Vec::new();
    let step = read_config("archive", true, Some(contents), &answers);
    match step {
        LoadStep::Query(path) => assert_eq!(path, "archive/wbfs"),
        other => panic!("expected a path query first, got {other:?}"),
    }
    answers.push(true);
    let systems = loaded(read_config("archive", true, Some(contents), &answers));
    assert_eq!(systems.len(), 1);
    let sys = &systems[0];
    assert_eq!(sys.label, "wii");
    assert_eq!(sys.pretty_string.text, "WII");
    assert_eq!(
        (sys.pretty_string.color.r, sys.pretty_string.color.g, sys.pretty_string.color.b),
        (0, 215, 255)
    );
    assert_eq!(sys.directory, "wbfs");
    assert!(sys.games_are_directories);
}

#[test]
fn valid_document_loads_every_entry_in_order() {
    let contents = "
systems:
    wii:
        display_name: WII
        color: [0,215,255]
        path: wbfs
        games_are_directories: true
    snes:
        display_name: SNES
        color: [95,0,255]
        path: snes
        games_are_directories: false
    ds:
        display_name: DS
        color: [135,215,255]
        path: ds
        games_are_directories: false
";
    let systems = loaded(load("root", true, Some(contents), true));
    assert_eq!(systems.len(), 3);
    let labels: Vec<&str> = systems.iter().map(|s| s.label.as_str()).collect();
    assert_eq!(labels, ["wii", "snes", "ds"]);
}

#[test]
fn empty_systems_mapping_is_not_an_error() {
    let systems = loaded(load("root", true, Some("systems: {}"), true));
    assert_eq!(systems.len(), 0);
}

#[test]
fn loading_twice_gives_equal_results() {
    let contents = "
systems:
    wii:
        display_name: WII
        color: [0,215,255]
        path: wbfs
        games_are_directories: true
    ds:
        display_name: DS
        color: [135,215,255]
        path: ds
        games_are_directories: false
";
    let first = loaded(load("root", true, Some(contents), true));
    let second = loaded(load("root", true, Some(contents), true));
    assert_eq!(first.len(), second.len());
    for (a, b) in first.iter().zip(second.iter()) {
        assert!(same_descriptor(a, b));
    }
}

#[test]
fn root_not_found() {
    let e = failed(load("missing-root", false, None, true));
    assert_eq!(e, ConfigError::RootNotFound("missing-root".to_string()));
}

#[test]
fn config_file_missing() {
    let e = failed(load("root", true, None, true));
    assert_eq!(e, ConfigError::ConfigFileMissing);
}

#[test]
fn malformed_text_is_a_parse_error() {
    let e = failed(load("root", true, Some("systems: [unclosed"), true));
    assert!(matches!(e, ConfigError::ConfigParseError(_)), "got {e:?}");
}

#[test]
fn missing_systems_key() {
    let e = failed(load("root", true, Some("platforms: {}"), true));
    assert_eq!(e, ConfigError::MissingSystemsKey);
}

#[test]
fn systems_key_must_hold_a_mapping() {
    let e = failed(load("root", true, Some("systems: 3"), true));
    assert_eq!(e, ConfigError::MissingSystemsKey);
}

#[test]
fn non_text_label_is_invalid() {
    let contents = "
systems:
    7:
        display_name: X
        color: [1,2,3]
        path: x
        games_are_directories: false
";
    let e = failed(load("root", true, Some(contents), true));
    assert_eq!(e, ConfigError::InvalidLabel);
}

#[test]
fn nonexistent_system_path_names_label_and_path() {
    let contents = "
systems:
    wii:
        display_name: WII
        color: [0,215,255]
        path: wbfs
        games_are_directories: true
";
    let e = failed(load("root", true, Some(contents), false));
    assert_eq!(
        e,
        ConfigError::SystemPathNotFound("wii".to_string(), "root/wbfs".to_string())
    );
}

#[test]
fn first_error_in_document_order_wins() {
    // The first entry's path is missing on disk; the second entry has a bad
    // colour. The path failure comes first in document order, so it wins.
    let contents = "
systems:
    wii:
        display_name: WII
        color: [0,215,255]
        path: wbfs
        games_are_directories: true
    ds:
        display_name: DS
        color: [0,256,0]
        path: ds
        games_are_directories: false
";
    let e = failed(load("root", true, Some(contents), false));
    assert_eq!(
        e,
        ConfigError::SystemPathNotFound("wii".to_string(), "root/wbfs".to_string())
    );
}

#[test]
fn later_bad_entry_surfaces_after_earlier_paths_pass() {
    // The first entry is valid and its path exists; the second entry's key is
    // not text. The load asks for the first path, and only then fails.
    let contents = "
systems:
    wii:
        display_name: WII
        color: [0,215,255]
        path: wbfs
        games_are_directories: true
    7:
        display_name: X
        color: [1,2,3]
        path: x
        games_are_directories: false
";
    let answers: Vec<bool> = Vec::new();
    match read_config("root", true, Some(contents), &answers) {
        LoadStep::Query(path) => assert_eq!(path, "root/wbfs"),
        other => panic!("expected a query for the first entry, got {other:?}"),
    }
    let e = failed(load("root", true, Some(contents), true));
    assert_eq!(e, ConfigError::InvalidLabel);
}

#[test]
fn unknown_keys_and_properties_are_ignored() {
    let contents = "
version: 2
systems:
    wii:
        display_name: WII
        color: [0,215,255]
        path: wbfs
        games_are_directories: true
        comment: extra properties are fine
";
    let systems = loaded(load("root", true, Some(contents), true));
    assert_eq!(systems.len(), 1);
}
