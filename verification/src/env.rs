//! Where the launcher's files live: the configuration directory, the state
//! directory, and the file names inside them. The surrounding application
//! fills this in from its environment; the path arithmetic itself is here.
//! Paths are plain strings with `/` as the separator.

use vstd::prelude::*;
use vstd::string::*;

verus! {

/// The name the configuration file has when the environment names none.
pub fn default_config_file_name() -> (r: String)
    ensures
        r@ == "config.toml"@,
{
    "config.toml".to_owned()
}

/// The name the menu file has when the environment names none.
pub fn default_menu_file_name() -> (r: String)
    ensures
        r@ == "menu.toml"@,
{
    "menu.toml".to_owned()
}

/// The directories and file names the launcher reads and writes.
pub struct Env {
    /// The configuration file's name inside the configuration directory.
    pub config_file_name: String,
    /// The configuration directory.
    pub config_dir: String,
    /// The menu file's name inside the menu directory.
    pub menu_file_name: String,
    /// The menu directory; the configuration directory stands in when none
    /// is set.
    pub menu_dir: Option<String>,
    /// The state directory: the rom catalog and the keymap live here.
    pub state_dir: String,
}

/// A file name joined onto a directory: an absolute file name stands alone,
/// and exactly one separator lands between directory and name otherwise.
pub open spec fn path_join(dir: Seq<char>, file: Seq<char>) -> Seq<char> {
    if file.len() > 0 && file[0] == '/' {
        file
    } else if dir.len() > 0 && dir[dir.len() - 1] == '/' {
        dir + file
    } else {
        dir + "/"@ + file
    }
}

/// Joins a file name onto a directory.
pub fn join_path(dir: &str, file: &str) -> (r: String)
    ensures
        r@ == path_join(dir@, file@),
{
    let file_len = file.unicode_len();
    if file_len > 0 && file.get_char(0) == '/' {
        return file.to_owned();
    }
    let dir_len = dir.unicode_len();
    let mut out = dir.to_owned();
    if !(dir_len > 0 && dir.get_char(dir_len - 1) == '/') {
        out.append("/");
    }
    out.append(file);
    out
}

/// The directory the menu file lives in.
pub open spec fn spec_menu_dir(e: Env) -> Seq<char> {
    match e.menu_dir {
        Option::Some(d) => d@,
        Option::None => e.config_dir@,
    }
}

impl Env {
    /// The directory the menu file lives in: the menu directory when one is
    /// set, the configuration directory otherwise.
    pub fn get_menu_dir(&self) -> (r: &str)
        ensures
            r@ == spec_menu_dir(*self),
    {
        match &self.menu_dir {
            Option::Some(dir) => dir.as_str(),
            Option::None => self.config_dir.as_str(),
        }
    }

    /// The path of a file that lives in the configuration directory.
    pub fn get_config_file_path(&self, file: &str) -> (r: String)
        ensures
            r@ == path_join(self.config_dir@, file@),
    {
        join_path(self.config_dir.as_str(), file)
    }

    /// The rom catalog's path inside the state directory.
    pub fn get_rom_lib_path(&self) -> (r: String)
        ensures
            r@ == path_join(self.state_dir@, "roms.db"@),
    {
        join_path(self.state_dir.as_str(), "roms.db")
    }

    /// The configuration file's path.
    pub fn get_config_path(&self) -> (r: String)
        ensures
            r@ == path_join(self.config_dir@, self.config_file_name@),
    {
        join_path(self.config_dir.as_str(), self.config_file_name.as_str())
    }

    /// The menu file's path.
    pub fn get_menu_path(&self) -> (r: String)
        ensures
            r@ == path_join(spec_menu_dir(*self), self.menu_file_name@),
    {
        join_path(self.get_menu_dir(), self.menu_file_name.as_str())
    }

    /// The keymap file's path inside the state directory.
    pub fn get_keymap_path(&self) -> (r: String)
        ensures
            r@ == path_join(self.state_dir@, "keymap.toml"@),
    {
        join_path(self.state_dir.as_str(), "keymap.toml")
    }
}

} // verus!
