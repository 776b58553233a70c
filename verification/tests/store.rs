//! Catalog store behaviour: replace, mutate, and the four listings.

use lemon_launcher::rom_library::{Rom, RomLibrary, StorageError};

fn rom(name: &str, title: &str, category: &str) -> Rom {
    Rom {
        name: name.to_string(),
        title: title.to_string(),
        category: category.to_string(),
        clone_of: None,
        is_favourite: false,
        play_count: 0,
        year: None,
        manufacturer: None,
    }
}

fn names(roms: &[Rom]) -> Vec<String> {
    roms.iter().map(|r| r.name.clone()).collect()
}

#[test]
fn replace_all_installs_records() {
    let mut lib = RomLibrary::new();
    let records = vec![rom("sf2", "Street Fighter II", "Fighting"), rom("pacman", "Pac-Man", "Maze")];
    assert!(lib.replace_all(records).is_ok());
    let listed = lib.list_roms(None);
    assert_eq!(names(&listed), vec!["pacman".to_string(), "sf2".to_string()]);
}

#[test]
fn replace_all_rejects_duplicate_names() {
    let mut lib = RomLibrary::new();
    assert!(lib.replace_all(vec![rom("sf2", "A", "X")]).is_ok());
    let dup = vec![rom("pacman", "B", "Y"), rom("pacman", "C", "Z")];
    match lib.replace_all(dup) {
        Err(StorageError::DuplicateName) => {}
        Ok(()) => panic!("duplicate names must be rejected"),
    }
    // the failed replace left the store untouched
    let listed = lib.list_roms(None);
    assert_eq!(names(&listed), vec!["sf2".to_string()]);
}

#[test]
fn replace_all_discards_mutable_state() {
    let mut lib = RomLibrary::new();
    assert!(lib.replace_all(vec![rom("sf2", "A", "X")]).is_ok());
    lib.inc_play_count("sf2");
    lib.toggle_favourite("sf2");
    assert!(lib.replace_all(vec![rom("sf2", "A", "X")]).is_ok());
    assert!(lib.list_favourites(10).is_empty());
    assert!(lib.list_most_played(10).is_empty());
}

#[test]
fn toggle_twice_restores_favourite() {
    let mut lib = RomLibrary::new();
    assert!(lib.replace_all(vec![rom("sf2", "A", "X")]).is_ok());
    lib.toggle_favourite("sf2");
    assert_eq!(names(&lib.list_favourites(10)), vec!["sf2".to_string()]);
    lib.toggle_favourite("sf2");
    assert!(lib.list_favourites(10).is_empty());
}

#[test]
fn toggle_unknown_name_is_noop() {
    let mut lib = RomLibrary::new();
    assert!(lib.replace_all(vec![rom("sf2", "A", "X")]).is_ok());
    lib.toggle_favourite("nosuch");
    let listed = lib.list_roms(None);
    assert_eq!(listed.len(), 1);
    assert!(!listed[0].is_favourite);
}

#[test]
fn play_count_is_monotonic() {
    let mut lib = RomLibrary::new();
    assert!(lib.replace_all(vec![rom("sf2", "A", "X")]).is_ok());
    for _ in 0..5 {
        lib.inc_play_count("sf2");
    }
    let played = lib.list_most_played(10);
    assert_eq!(played.len(), 1);
    assert_eq!(played[0].play_count, 5);
}

#[test]
fn increment_unknown_name_is_noop() {
    let mut lib = RomLibrary::new();
    assert!(lib.replace_all(vec![rom("sf2", "A", "X")]).is_ok());
    lib.inc_play_count("nosuch");
    assert!(lib.list_most_played(10).is_empty());
}

#[test]
fn categories_are_distinct_and_skip_clones() {
    let mut lib = RomLibrary::new();
    let mut clone_rec = rom("sf2b", "Street Fighter II (clone)", "OnlyOnClone");
    clone_rec.clone_of = Some("sf2".to_string());
    let records = vec![
        rom("sf2", "Street Fighter II", "Fighting"),
        rom("mk", "Mortal Kombat", "Fighting"),
        rom("pacman", "Pac-Man", "Maze"),
        clone_rec,
    ];
    assert!(lib.replace_all(records).is_ok());
    let cats = lib.list_categories();
    assert_eq!(cats, vec!["Fighting".to_string(), "Maze".to_string()]);
}

#[test]
fn clones_never_listed() {
    let mut lib = RomLibrary::new();
    let mut clone_rec = rom("sf2b", "Street Fighter II (clone)", "Fighting");
    clone_rec.clone_of = Some("sf2".to_string());
    clone_rec.is_favourite = true;
    clone_rec.play_count = 9;
    assert!(lib.replace_all(vec![rom("sf2", "Street Fighter II", "Fighting"), clone_rec]).is_ok());
    assert_eq!(names(&lib.list_roms(None)), vec!["sf2".to_string()]);
    assert!(lib.list_favourites(10).is_empty());
    assert!(lib.list_most_played(10).is_empty());
}

#[test]
fn list_roms_filters_by_category_and_sorts_by_title() {
    let mut lib = RomLibrary::new();
    let records = vec![
        rom("mk", "Mortal Kombat", "Fighting"),
        rom("sf2", "Street Fighter II", "Fighting"),
        rom("pacman", "Pac-Man", "Maze"),
        rom("kof", "King of Fighters", "Fighting"),
    ];
    assert!(lib.replace_all(records).is_ok());
    let fighting = lib.list_roms(Some(&"Fighting".to_string()));
    assert_eq!(names(&fighting), vec!["kof".to_string(), "mk".to_string(), "sf2".to_string()]);
    let all = lib.list_roms(None);
    assert_eq!(all.len(), 4);
    assert_eq!(all[0].name, "kof");
}

#[test]
fn favourites_sorted_and_capped() {
    let mut lib = RomLibrary::new();
    let records = vec![
        rom("c", "Carrier", "X"),
        rom("a", "Asteroids", "X"),
        rom("b", "Berzerk", "X"),
    ];
    assert!(lib.replace_all(records).is_ok());
    lib.toggle_favourite("a");
    lib.toggle_favourite("b");
    lib.toggle_favourite("c");
    let capped = lib.list_favourites(2);
    assert_eq!(names(&capped), vec!["a".to_string(), "b".to_string()]);
}

#[test]
fn most_played_ties_break_by_title() {
    let mut lib = RomLibrary::new();
    let records = vec![rom("a", "a", "X"), rom("b", "b", "X"), rom("c", "c", "X")];
    assert!(lib.replace_all(records).is_ok());
    for _ in 0..5 {
        lib.inc_play_count("a");
        lib.inc_play_count("b");
    }
    for _ in 0..3 {
        lib.inc_play_count("c");
    }
    let top = lib.list_most_played(2);
    assert_eq!(names(&top), vec!["a".to_string(), "b".to_string()]);
}

#[test]
fn most_played_orders_by_count_desc() {
    let mut lib = RomLibrary::new();
    let records = vec![rom("a", "a", "X"), rom("b", "b", "X")];
    assert!(lib.replace_all(records).is_ok());
    lib.inc_play_count("a");
    lib.inc_play_count("b");
    lib.inc_play_count("b");
    let top = lib.list_most_played(10);
    assert_eq!(names(&top), vec!["b".to_string(), "a".to_string()]);
    assert_eq!(top[0].play_count, 2);
    assert_eq!(top[1].play_count, 1);
}

#[test]
fn titles_sort_by_scalar_value() {
    let mut lib = RomLibrary::new();
    let records = vec![
        rom("x1", "b-lower", "X"),
        rom("x2", "A-upper", "X"),
        rom("x3", "Z-upper", "X"),
    ];
    assert!(lib.replace_all(records).is_ok());
    // byte/scalar order puts all upper-case titles before lower-case ones
    assert_eq!(
        names(&lib.list_roms(None)),
        vec!["x2".to_string(), "x3".to_string(), "x1".to_string()]
    );
}
