//! Navigation engine behaviour: cursor movement, the back-stack, query
//! menus, dispatch, and the favourite toggle's refresh.

use lemon_launcher::keymap::Action;
use lemon_launcher::lemon_menu::{LemonMenu, NavigationError, SelectOutcome};
use lemon_launcher::menu_config::{
    BuiltInAction, Menu, MenuConfig, MenuEntry, MenuEntryAction, Query,
};
use lemon_launcher::rom_library::{Rom, RomLibrary};

fn entry(title: &str, action: MenuEntryAction) -> MenuEntry {
    MenuEntry { title: title.to_string(), action, screenshot: None, details: None }
}

fn rom(name: &str, title: &str, category: &str) -> Rom {
    Rom {
        name: name.to_string(),
        title: title.to_string(),
        category: category.to_string(),
        clone_of: None,
        is_favourite: false,
        play_count: 0,
        year: None,
        manufacturer: None,
    }
}

fn three_item_config() -> MenuConfig {
    let main = Menu {
        entries: vec![
            entry("first", MenuEntryAction::BuiltIn(BuiltInAction::Exit)),
            entry("second", MenuEntryAction::Menu { menu: "sub".to_string() }),
            entry("third", MenuEntryAction::Exec { command: "true".to_string(), args: None }),
        ],
    };
    let sub = Menu {
        entries: vec![entry("sub-one", MenuEntryAction::BuiltIn(BuiltInAction::Exit))],
    };
    MenuConfig { main, menus: vec![("sub".to_string(), sub)] }
}

#[test]
fn cursor_moves_inside_range_only() {
    let mut menu = LemonMenu::new(three_item_config());
    // at index 0: stepping before the first entry is a no-op
    menu.move_cursor(-1);
    assert_eq!(menu.selected().unwrap().title, "first");
    menu.move_cursor(1);
    assert_eq!(menu.selected().unwrap().title, "second");
    // a page jump past the end is a no-op, not a clamp
    menu.move_cursor(5);
    assert_eq!(menu.selected().unwrap().title, "second");
    menu.move_cursor(1);
    assert_eq!(menu.selected().unwrap().title, "third");
    menu.move_cursor(1);
    assert_eq!(menu.selected().unwrap().title, "third");
}

#[test]
fn open_menu_then_back_restores_selection() {
    let mut menu = LemonMenu::new(three_item_config());
    menu.move_cursor(1);
    assert!(menu.open_menu("sub").is_ok());
    assert_eq!(menu.selected().unwrap().title, "sub-one");
    menu.back();
    assert_eq!(menu.selected().unwrap().title, "second");
}

#[test]
fn nested_open_then_back_unwinds_in_order() {
    let mut menu = LemonMenu::new(three_item_config());
    menu.move_cursor(2);
    assert!(menu.open_menu("sub").is_ok());
    assert!(menu.open_menu("sub").is_ok());
    menu.back();
    assert_eq!(menu.selected().unwrap().title, "sub-one");
    menu.back();
    assert_eq!(menu.selected().unwrap().title, "third");
}

#[test]
fn back_on_empty_history_is_noop() {
    let mut menu = LemonMenu::new(three_item_config());
    menu.move_cursor(1);
    menu.back();
    assert_eq!(menu.selected().unwrap().title, "second");
}

#[test]
fn open_unknown_menu_fails_and_changes_nothing() {
    let mut menu = LemonMenu::new(three_item_config());
    menu.move_cursor(1);
    match menu.open_menu("nosuch") {
        Err(NavigationError::UnknownMenu) => {}
        Ok(()) => panic!("unknown menu must be an error"),
    }
    assert_eq!(menu.selected().unwrap().title, "second");
}

#[test]
fn select_exit_entry_signals_exit() {
    let mut menu = LemonMenu::new(three_item_config());
    let mut lib = RomLibrary::new();
    match menu.handle_select(&mut lib) {
        Ok(SelectOutcome::Exit) => {}
        _ => panic!("selecting the exit entry must signal exit"),
    }
}

#[test]
fn select_command_entry_hands_back_the_command() {
    let mut menu = LemonMenu::new(three_item_config());
    let mut lib = RomLibrary::new();
    menu.move_cursor(2);
    match menu.handle_select(&mut lib) {
        Ok(SelectOutcome::RunCommand { command, args }) => {
            assert_eq!(command, "true");
            assert!(args.is_none());
        }
        _ => panic!("selecting a command entry must hand the command back"),
    }
}

#[test]
fn select_rom_entry_increments_play_count_before_launch() {
    let main = Menu {
        entries: vec![entry(
            "Street Fighter II",
            MenuEntryAction::Rom { rom: "sf2".to_string(), params: None },
        )],
    };
    let mut menu = LemonMenu::new(MenuConfig { main, menus: vec![] });
    let mut lib = RomLibrary::new();
    assert!(lib.replace_all(vec![rom("sf2", "Street Fighter II", "Fighting")]).is_ok());
    match menu.handle_select(&mut lib) {
        Ok(SelectOutcome::LaunchRom { rom, params }) => {
            assert_eq!(rom, "sf2");
            assert!(params.is_none());
        }
        _ => panic!("selecting a rom entry must hand the launch back"),
    }
    let played = lib.list_most_played(10);
    assert_eq!(played.len(), 1);
    assert_eq!(played[0].play_count, 1);
}

#[test]
fn select_on_empty_list_is_noop() {
    let main = Menu { entries: vec![] };
    let mut menu = LemonMenu::new(MenuConfig { main, menus: vec![] });
    let mut lib = RomLibrary::new();
    match menu.handle_select(&mut lib) {
        Ok(SelectOutcome::Handled) => {}
        _ => panic!("selecting on an empty list must do nothing"),
    }
    assert!(menu.selected().is_none());
}

#[test]
fn query_menu_lists_live_catalog() {
    let main = Menu {
        entries: vec![entry("Browse", MenuEntryAction::Query(Query::Roms { genre: None }))],
    };
    let mut menu = LemonMenu::new(MenuConfig { main, menus: vec![] });
    let mut lib = RomLibrary::new();
    assert!(lib
        .replace_all(vec![rom("mk", "Mortal Kombat", "Fighting"), rom("sf2", "Street Fighter II", "Fighting")])
        .is_ok());
    assert!(matches!(menu.handle_select(&mut lib), Ok(SelectOutcome::Handled)));
    assert_eq!(menu.selected().unwrap().title, "Mortal Kombat");
    menu.move_cursor(1);
    assert_eq!(menu.selected().unwrap().title, "Street Fighter II");
    // a rom entry carries its screenshot path and detail
    assert_eq!(menu.selected_screenshot().unwrap().as_str(), "sf2.png");
    assert!(!menu.selected_detail().unwrap().is_favourite);
}

#[test]
fn toggle_favourite_refreshes_query_backed_list() {
    // the current list came from Favourites(10); removing a favourite
    // shrinks the list on refresh
    let main = Menu {
        entries: vec![entry(
            "Favourites",
            MenuEntryAction::Query(Query::Favourites { count: 10 }),
        )],
    };
    let mut menu = LemonMenu::new(MenuConfig { main, menus: vec![] });
    let mut lib = RomLibrary::new();
    assert!(lib
        .replace_all(vec![rom("a", "Asteroids", "X"), rom("b", "Berzerk", "X")])
        .is_ok());
    lib.toggle_favourite("a");
    lib.toggle_favourite("b");
    assert!(matches!(menu.handle_select(&mut lib), Ok(SelectOutcome::Handled)));
    assert_eq!(menu.iter_fwd(10).len(), 2);
    assert_eq!(menu.selected().unwrap().title, "Asteroids");
    menu.toggle_favourite(&mut lib);
    assert_eq!(menu.iter_fwd(10).len(), 1);
    assert_eq!(menu.selected().unwrap().title, "Berzerk");
    assert_eq!(lib.list_favourites(10).len(), 1);
}

#[test]
fn toggle_favourite_without_rom_selection_is_noop() {
    let mut menu = LemonMenu::new(three_item_config());
    let mut lib = RomLibrary::new();
    assert!(lib.replace_all(vec![rom("a", "Asteroids", "X")]).is_ok());
    menu.toggle_favourite(&mut lib);
    assert_eq!(menu.selected().unwrap().title, "first");
    assert!(lib.list_favourites(10).is_empty());
}

#[test]
fn windows_split_around_selection() {
    let mut menu = LemonMenu::new(three_item_config());
    menu.move_cursor(2);
    let fwd = menu.iter_fwd(10);
    assert_eq!(fwd.len(), 1);
    assert_eq!(fwd[0].title, "third");
    let rev = menu.iter_rev(10);
    assert_eq!(rev.len(), 2);
    // nearest first
    assert_eq!(rev[0].title, "second");
    assert_eq!(rev[1].title, "first");
    let rev_capped = menu.iter_rev(1);
    assert_eq!(rev_capped.len(), 1);
    assert_eq!(rev_capped[0].title, "second");
}

#[test]
fn windows_on_empty_list_are_empty() {
    let menu = LemonMenu::new(MenuConfig { main: Menu { entries: vec![] }, menus: vec![] });
    assert!(menu.selected().is_none());
    assert!(menu.selected_screenshot().is_none());
    assert!(menu.selected_detail().is_none());
    assert!(menu.iter_fwd(5).is_empty());
    assert!(menu.iter_rev(5).is_empty());
}

#[test]
fn static_entries_carry_no_detail() {
    let menu = LemonMenu::new(three_item_config());
    assert!(menu.selected_screenshot().is_none());
    assert!(menu.selected_detail().is_none());
}

#[test]
fn unknown_category_query_lists_nothing() {
    let main = Menu {
        entries: vec![entry(
            "Browse",
            MenuEntryAction::Query(Query::Roms { genre: Some("NoSuch".to_string()) }),
        )],
    };
    let mut menu = LemonMenu::new(MenuConfig { main, menus: vec![] });
    let mut lib = RomLibrary::new();
    assert!(lib.replace_all(vec![rom("sf2", "Street Fighter II", "Fighting")]).is_ok());
    assert!(matches!(menu.handle_select(&mut lib), Ok(SelectOutcome::Handled)));
    assert!(menu.selected().is_none());
    // and back returns to the browse menu
    menu.back();
    assert_eq!(menu.selected().unwrap().title, "Browse");
}

#[test]
fn is_selected_matches_rendered_entry() {
    let menu = LemonMenu::new(three_item_config());
    let fwd = menu.iter_fwd(10);
    assert!(menu.is_selected(&fwd[0]));
    assert!(!menu.is_selected(&fwd[1]));
}

#[test]
fn actions_drive_the_engine() {
    let mut menu = LemonMenu::new(three_item_config());
    let mut lib = RomLibrary::new();
    assert!(matches!(
        menu.handle_action(&mut lib, &Action::CursorDown, 2),
        Ok(SelectOutcome::Handled)
    ));
    assert!(matches!(
        menu.handle_action(&mut lib, &Action::CursorDown, 2),
        Ok(SelectOutcome::Handled)
    ));
    assert_eq!(menu.selected().unwrap().title, "third");
    assert!(matches!(
        menu.handle_action(&mut lib, &Action::PageUp, 2),
        Ok(SelectOutcome::Handled)
    ));
    assert_eq!(menu.selected().unwrap().title, "first");
    assert!(matches!(
        menu.handle_action(&mut lib, &Action::Select, 2),
        Ok(SelectOutcome::Exit)
    ));
}
