//! Core of an arcade-cabinet game launcher: a catalog store of rom records
//! with play counts and favourites, an ingest pipeline that rebuilds the
//! catalog from external metadata sources, a typed query layer, and a
//! stack-based menu navigation engine.

pub mod cli;
pub mod env;
pub mod keymap;
pub mod lemon_config;
pub mod lemon_keymap;
pub mod lemon_menu;
pub mod mame_xml;
pub mod menu_config;
pub mod order;
pub mod rom_library;
pub mod scan;
pub mod text;
