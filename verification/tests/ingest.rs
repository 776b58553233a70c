//! Ingest pipeline behaviour: the three-way join, its warnings, and the
//! order-dependent overwrite on a rom listed under two categories.

use lemon_launcher::lemon_menu::{LemonMenu, SelectOutcome};
use lemon_launcher::mame_xml::{Machine, Mame};
use lemon_launcher::menu_config::{Menu, MenuConfig, MenuEntry, MenuEntryAction, Query};
use lemon_launcher::rom_library::RomLibrary;
use lemon_launcher::scan::{scan, IngestWarning};

fn machine(name: &str, description: &str, clone_of: Option<&str>) -> Machine {
    Machine {
        name: name.to_string(),
        clone_of: clone_of.map(|s| s.to_string()),
        rom_of: None,
        is_mechanical: None,
        is_device: None,
        description: description.to_string(),
        year: None,
        manufacturer: None,
    }
}

#[test]
fn ingest_joins_metadata_category_and_files() {
    let machines = Mame { machines: vec![machine("sf2", "Street Fighter II", None)] }
        .load_xml_map();
    let categories = vec![("Fighting".to_string(), vec!["sf2".to_string()])];
    let installed = vec!["sf2".to_string()];
    let outcome = scan(&machines, &categories, &installed);
    assert!(outcome.warnings.is_empty());
    assert_eq!(outcome.roms.len(), 1);
    assert_eq!(outcome.roms[0].name, "sf2");
    assert_eq!(outcome.roms[0].title, "Street Fighter II");
    assert_eq!(outcome.roms[0].category, "Fighting");
    assert!(outcome.roms[0].clone_of.is_none());
    assert_eq!(outcome.roms[0].play_count, 0);
    assert!(!outcome.roms[0].is_favourite);
}

#[test]
fn ingest_feeds_catalog_and_navigation() {
    // end to end: ingest one rom, browse Categories, open Fighting,
    // find the launchable entry
    let machines = Mame { machines: vec![machine("sf2", "Street Fighter II", None)] }
        .load_xml_map();
    let categories = vec![("Fighting".to_string(), vec!["sf2".to_string()])];
    let installed = vec!["sf2".to_string()];
    let outcome = scan(&machines, &categories, &installed);
    let mut lib = RomLibrary::new();
    assert!(lib.replace_all(outcome.roms).is_ok());

    let main = Menu {
        entries: vec![MenuEntry {
            title: "Games".to_string(),
            action: MenuEntryAction::Query(Query::Categories),
            screenshot: None,
            details: None,
        }],
    };
    let mut menu = LemonMenu::new(MenuConfig { main, menus: vec![] });
    assert!(matches!(menu.handle_select(&mut lib), Ok(SelectOutcome::Handled)));
    assert_eq!(menu.selected().unwrap().title, "Fighting");
    assert!(matches!(menu.handle_select(&mut lib), Ok(SelectOutcome::Handled)));
    let selected = menu.selected().unwrap();
    assert_eq!(selected.title, "Street Fighter II");
    match &selected.action {
        MenuEntryAction::Rom { rom, params } => {
            assert_eq!(rom, "sf2");
            assert!(params.is_none());
        }
        _ => panic!("a catalog entry must carry a launch action"),
    }
}

#[test]
fn missing_metadata_is_reported_and_skipped() {
    let machines = Mame { machines: vec![machine("sf2", "Street Fighter II", None)] }
        .load_xml_map();
    let categories = vec![(
        "Fighting".to_string(),
        vec!["sf2".to_string(), "unknown".to_string()],
    )];
    let installed = vec!["sf2".to_string()];
    let outcome = scan(&machines, &categories, &installed);
    assert_eq!(outcome.roms.len(), 1);
    assert_eq!(outcome.warnings.len(), 1);
    match &outcome.warnings[0] {
        IngestWarning::MetadataNotFound { rom } => assert_eq!(rom, "unknown"),
        _ => panic!("a rom without metadata must be reported"),
    }
}

#[test]
fn installed_rom_without_metadata_is_reported_and_skipped() {
    let machines = Mame { machines: vec![machine("sf2", "Street Fighter II", None)] }
        .load_xml_map();
    let categories = vec![("Fighting".to_string(), vec!["sf2".to_string()])];
    let installed = vec!["sf2".to_string(), "stray".to_string()];
    let outcome = scan(&machines, &categories, &installed);
    assert_eq!(outcome.roms.len(), 1);
    assert_eq!(outcome.warnings.len(), 1);
    match &outcome.warnings[0] {
        IngestWarning::NoMetadataForFile { rom } => assert_eq!(rom, "stray"),
        _ => panic!("an installed rom without metadata must be reported"),
    }
}

#[test]
fn uninstalled_rom_with_metadata_is_silently_excluded() {
    let machines = Mame {
        machines: vec![machine("sf2", "Street Fighter II", None), machine("mk", "Mortal Kombat", None)],
    }
    .load_xml_map();
    let categories = vec![(
        "Fighting".to_string(),
        vec!["sf2".to_string(), "mk".to_string()],
    )];
    let installed = vec!["sf2".to_string()];
    let outcome = scan(&machines, &categories, &installed);
    assert_eq!(outcome.roms.len(), 1);
    assert_eq!(outcome.roms[0].name, "sf2");
    assert!(outcome.warnings.is_empty());
}

#[test]
fn clone_metadata_is_carried_through() {
    let machines = Mame { machines: vec![machine("sf2b", "Street Fighter II (rev B)", Some("sf2"))] }
        .load_xml_map();
    let categories = vec![("Fighting".to_string(), vec!["sf2b".to_string()])];
    let installed = vec!["sf2b".to_string()];
    let outcome = scan(&machines, &categories, &installed);
    assert_eq!(outcome.roms.len(), 1);
    assert_eq!(outcome.roms[0].clone_of.as_deref(), Some("sf2"));
}

#[test]
fn duplicate_rom_across_categories_last_category_wins() {
    // a rom listed under two categories keeps the later category: the join's
    // metadata map is written in source order and the last write wins. This
    // pins the order-dependent behaviour down so a change shows up.
    let machines = Mame { machines: vec![machine("sf2", "Street Fighter II", None)] }
        .load_xml_map();
    let categories = vec![
        ("Fighting".to_string(), vec!["sf2".to_string()]),
        ("Capcom".to_string(), vec!["sf2".to_string()]),
    ];
    let installed = vec!["sf2".to_string()];
    let outcome = scan(&machines, &categories, &installed);
    assert_eq!(outcome.roms.len(), 1);
    assert_eq!(outcome.roms[0].category, "Capcom");
}

#[test]
fn duplicate_machine_names_last_record_wins() {
    let machines = Mame {
        machines: vec![machine("sf2", "Old Title", None), machine("sf2", "New Title", None)],
    }
    .load_xml_map();
    let categories = vec![("Fighting".to_string(), vec!["sf2".to_string()])];
    let installed = vec!["sf2".to_string()];
    let outcome = scan(&machines, &categories, &installed);
    assert_eq!(outcome.roms.len(), 1);
    assert_eq!(outcome.roms[0].title, "New Title");
}
