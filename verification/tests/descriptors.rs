use archive_config::plan_from_doc;
use archive_config::ColoredText;
use archive_config::ConfigError;
use archive_config::DocValue;
use archive_config::EntryPlan;
use archive_config::Rgb;
use archive_config::System;

fn descriptor(label: &str, name: &str, directory: &str, games_are_directories: bool) -> System {
    System::new(
        label,
        ColoredText { text: name.to_string(), color: Rgb { r: 1, g: 2, b: 3 } },
        directory,
        games_are_directories,
    )
}

#[test]
fn equality_ignores_label_name_and_color() {
    let a = descriptor("wii", "WII", "wbfs", true);
    let mut b = descriptor("wii-backup", "Nintendo Wii", "wbfs", true);
    b.pretty_string.color = Rgb { r: 9, g: 9, b: 9 };
    assert!(a == b);
}

#[test]
fn equality_distinguishes_directory_and_mode() {
    let a = descriptor("wii", "WII", "wbfs", true);
    let b = descriptor("wii", "WII", "wbfs2", true);
    let c = descriptor("wii", "WII", "wbfs", false);
    assert!(a != b);
    assert!(a != c);
}

#[test]
fn hashing_follows_equality() {
    let a = descriptor("wii", "WII", "wbfs", true);
    let b = descriptor("wii-backup", "Nintendo Wii", "wbfs", true);
    let mut set = std::collections::HashSet::new();
    set.insert(a);
    assert!(set.contains(&b));
}

#[test]
fn construction_keeps_every_field() {
    let sys = descriptor("snes", "SNES", "snes-games", false);
    assert_eq!(sys.label, "snes");
    assert_eq!(sys.pretty_string.text, "SNES");
    assert_eq!(sys.pretty_string.color, Rgb { r: 1, g: 2, b: 3 });
    assert_eq!(sys.directory, "snes-games");
    assert!(!sys.games_are_directories);
}

fn text(s: &str) -> DocValue {
    DocValue::Text(s.to_string())
}

fn entry_props(name: &str, color: [i64; 3], path: &str, dirs: bool) -> DocValue {
    DocValue::Mapping(vec![
        (text("display_name"), text(name)),
        (
            text("color"),
            DocValue::List(vec![
                DocValue::Int(color[0]),
                DocValue::Int(color[1]),
                DocValue::Int(color[2]),
            ]),
        ),
        (text("path"), text(path)),
        (text("games_are_directories"), DocValue::Flag(dirs)),
    ])
}

#[test]
fn planning_a_handmade_document_builds_the_descriptor() {
    let doc = DocValue::Mapping(vec![(
        text("systems"),
        DocValue::Mapping(vec![(text("wii"), entry_props("WII", [0, 215, 255], "wbfs", true))]),
    )]);
    let plan = plan_from_doc("archive", &doc).expect("the handmade document is valid");
    assert_eq!(plan.len(), 1);
    match &plan[0] {
        EntryPlan::Sys(sys, resolved) => {
            assert_eq!(sys.label, "wii");
            assert_eq!(sys.pretty_string.text, "WII");
            assert_eq!(sys.pretty_string.color, Rgb { r: 0, g: 215, b: 255 });
            assert_eq!(sys.directory, "wbfs");
            assert!(sys.games_are_directories);
            assert_eq!(resolved, "archive/wbfs");
        },
        EntryPlan::Bad(e) => panic!("expected a valid plan, got {e:?}"),
    }
}

#[test]
fn planning_a_non_mapping_document_fails() {
    let doc = DocValue::Int(4);
    match plan_from_doc("archive", &doc) {
        Err(e) => assert_eq!(e, ConfigError::MissingSystemsKey),
        Ok(plan) => panic!("expected a failure, got {plan:?}"),
    }
}
