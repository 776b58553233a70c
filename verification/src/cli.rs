//! The launcher's command-line surface, as plain data: the optional
//! configuration and menu file overrides, and which command to run. The
//! surrounding application parses its arguments into these.

use vstd::prelude::*;

verus! {

/// The parsed command line.
pub struct Cli {
    /// Path of the configuration file, overriding the environment.
    pub config: Option<String>,
    /// Path of the menu file, overriding the environment.
    pub menu: Option<String>,
    /// The command to run; the graphical interface when none is given.
    pub command: Option<Commands>,
}

/// The launcher's commands.
pub enum Commands {
    /// Run the graphical interface.
    Launch,
    /// Rebuild the rom catalog from the metadata source, the category file,
    /// and the installed-roms directory.
    Scan { mame_xml: String, genre_ini: String, roms_dir: String },
    /// Capture a keymap interactively and write it to a file.
    Keymap { file_path: Option<String> },
}

} // verus!
