//! Configuration helpers, path arithmetic, and the keymap tables.

use lemon_launcher::env::{default_config_file_name, default_menu_file_name, join_path, Env};
use lemon_launcher::keymap::{lookup_action, Action, Keycode, Keymap};
use lemon_launcher::lemon_config::{
    default_field_template, Font, Justify, LemonConfig, LemonMenuConfig, MameCommand, Point, Size,
};
use lemon_launcher::lemon_keymap::LemonKeymap;
use lemon_launcher::text::{str_eq, str_le};

fn env() -> Env {
    Env {
        config_file_name: default_config_file_name(),
        config_dir: "/home/arcade/.config/lemon-launcher".to_string(),
        menu_file_name: default_menu_file_name(),
        menu_dir: None,
        state_dir: "/home/arcade/.local/state/lemon-launcher".to_string(),
    }
}

#[test]
fn paths_follow_the_environment() {
    let e = env();
    assert_eq!(
        e.get_config_path(),
        "/home/arcade/.config/lemon-launcher/config.toml"
    );
    assert_eq!(e.get_menu_path(), "/home/arcade/.config/lemon-launcher/menu.toml");
    assert_eq!(
        e.get_rom_lib_path(),
        "/home/arcade/.local/state/lemon-launcher/roms.db"
    );
    assert_eq!(
        e.get_keymap_path(),
        "/home/arcade/.local/state/lemon-launcher/keymap.toml"
    );
}

#[test]
fn menu_dir_overrides_config_dir() {
    let mut e = env();
    assert_eq!(e.get_menu_dir(), "/home/arcade/.config/lemon-launcher");
    e.menu_dir = Some("/srv/menus".to_string());
    assert_eq!(e.get_menu_dir(), "/srv/menus");
    assert_eq!(e.get_menu_path(), "/srv/menus/menu.toml");
}

#[test]
fn join_path_handles_separators_and_absolutes() {
    assert_eq!(join_path("/a/b", "c.png"), "/a/b/c.png");
    assert_eq!(join_path("/a/b/", "c.png"), "/a/b/c.png");
    assert_eq!(join_path("/a/b", "/abs/c.png"), "/abs/c.png");
    assert_eq!(join_path("", "c.png"), "/c.png");
}

#[test]
fn string_order_is_by_scalar_value() {
    assert!(str_le("", "a"));
    assert!(str_le("a", "a"));
    assert!(str_le("Zebra", "apple"));
    assert!(!str_le("b", "ab"));
    assert!(str_le("ab", "b"));
    assert!(str_eq("same", "same"));
    assert!(!str_eq("same", "Same"));
}

#[test]
fn ui_size_falls_back_to_window_size() {
    let config = LemonConfig {
        size: Size { width: 640, height: 480 },
        ui_size: None,
        font: Font { file: "font.ttf".to_string(), size: 16 },
        background: None,
        menu: LemonMenuConfig {
            focus_offset: 2,
            line_height: 20,
            position: Point { x: 0, y: 0 },
            size: Size { width: 640, height: 400 },
            justify: Justify::default(),
            text_color: (255, 255, 255),
            focus_color: (255, 0, 0),
        },
        mame: MameCommand { cmd: "mame".to_string(), args: None },
        widgets: vec![],
    };
    assert_eq!(config.get_ui_size().width, 640);
    assert_eq!(config.get_ui_size().height, 480);
    assert_eq!(config.menu.get_row_count(), 20);
    assert_eq!(default_field_template(), "{}");
}

#[test]
fn font_path_lives_in_config_dir() {
    let e = env();
    let font = Font { file: "font.ttf".to_string(), size: 16 };
    assert_eq!(
        font.get_font_path(&e),
        "/home/arcade/.config/lemon-launcher/font.ttf"
    );
}

#[test]
fn default_keymap_expands_to_seven_bindings() {
    let keymap = Keymap::default();
    let table = keymap.to_keycode_map();
    assert_eq!(table.len(), 7);
    assert_eq!(lookup_action(&table, 13), Some(Action::Select));
    assert_eq!(lookup_action(&table, 8), Some(Action::Back));
    assert_eq!(lookup_action(&table, 102), Some(Action::Favourite));
    assert_eq!(lookup_action(&table, 1073741906), Some(Action::CursorUp));
    assert_eq!(lookup_action(&table, 999), None);
}

#[test]
fn many_keys_bind_to_one_action_and_later_bindings_shadow() {
    let keymap = Keymap {
        keymap: vec![
            (Action::Select, Keycode::Many(vec![13, 32])),
            (Action::Back, Keycode::Single(32)),
        ],
    };
    let table = keymap.to_keycode_map();
    assert_eq!(table.len(), 3);
    assert_eq!(lookup_action(&table, 13), Some(Action::Select));
    // the later binding for the same keycode wins
    assert_eq!(lookup_action(&table, 32), Some(Action::Back));
}

#[test]
fn capture_walks_every_action_then_finishes() {
    let mut capture = LemonKeymap::new("/tmp/keymap.toml".to_string());
    assert_eq!(capture.target_path(), "/tmp/keymap.toml");
    let mut pressed: i32 = 100;
    let mut done = false;
    let mut steps = 0;
    while let Some(_next) = capture.next_action() {
        assert!(!done);
        done = capture.record_key(pressed);
        pressed += 1;
        steps += 1;
    }
    assert!(done);
    assert_eq!(steps, 7);
    let bindings = capture.bindings();
    assert_eq!(bindings.len(), 7);
    assert!(matches!(bindings[0], (Action::CursorUp, Keycode::Single(100))));
    assert!(matches!(bindings[6], (Action::Favourite, Keycode::Single(106))));
}
