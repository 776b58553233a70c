//! The launcher's display configuration: window and interface sizes, font,
//! background, the menu area's geometry and colours, the emulator command,
//! and the side-panel widgets. The surrounding application decodes its
//! configuration file into these types and renders from them; the few
//! computed values live here.

use vstd::prelude::*;
use crate::env::{Env, path_join};

verus! {

/// A screen position in pixels.
pub struct Point {
    pub x: i32,
    pub y: i32,
}

/// A size in pixels.
pub struct Size {
    pub width: u32,
    pub height: u32,
}

/// Horizontal text placement.
pub enum Justify {
    Left,
    Center,
    Right,
}

impl Default for Justify {
    /// Text is placed left unless the configuration says otherwise.
    fn default() -> (r: Self)
        ensures
            r == Justify::Left,
    {
        Justify::Left
    }
}

/// The menu font: a file in the configuration directory and a point size.
pub struct Font {
    pub file: String,
    pub size: u16,
}

impl Font {
    /// The font file's full path inside the configuration directory.
    pub fn get_font_path(&self, env: &Env) -> (r: String)
        ensures
            r@ == path_join(env.config_dir@, self.file@),
    {
        env.get_config_file_path(self.file.as_str())
    }
}

/// The window background: an image, a fill colour, or both.
pub struct Background {
    pub image: Option<String>,
    pub colour: Option<(u8, u8, u8)>,
}

/// The emulator command and its fixed arguments; the rom name is appended
/// per launch.
pub struct MameCommand {
    pub cmd: String,
    pub args: Option<Vec<String>>,
}

/// The menu area: where the entry list is drawn and how.
pub struct LemonMenuConfig {
    /// How many rows stand above the focused row.
    pub focus_offset: u32,
    /// One row's height in pixels.
    pub line_height: u32,
    pub position: Point,
    pub size: Size,
    pub justify: Justify,
    pub text_color: (u8, u8, u8),
    pub focus_color: (u8, u8, u8),
}

impl LemonMenuConfig {
    /// How many whole rows the menu area holds.
    pub fn get_row_count(&self) -> (r: i32)
        requires
            self.line_height >= 1,
            self.size.height <= i32::MAX,
            self.line_height <= i32::MAX,
        ensures
            r == self.size.height as int / self.line_height as int,
    {
        self.size.height as i32 / self.line_height as i32
    }
}

/// The field a text widget shows.
pub enum WidgetField {
    Year,
    Manufacturer,
}

/// A text widget: one detail field of the selected entry, in a template.
pub struct TextWidget {
    pub field: WidgetField,
    pub template: String,
    pub text_color: Option<(u8, u8, u8)>,
    pub justify: Justify,
}

/// A screenshot widget: the selected entry's screenshot from a directory,
/// over an optional backdrop.
pub struct ScreenshotWidget {
    pub dir: String,
    pub background: Option<String>,
    pub position: Option<Point>,
    pub size: Option<Size>,
}

/// What one widget shows.
pub enum WidgetContent {
    Text(TextWidget),
    Image { image: String },
    Screenshot(ScreenshotWidget),
    Favourite { yes_image: String },
}

/// One side-panel widget and where it is drawn.
pub struct Widget {
    pub position: Point,
    pub size: Size,
    pub content: WidgetContent,
}

/// The template a text widget uses when the configuration names none: the
/// field's value alone.
pub fn default_field_template() -> (r: String)
    ensures
        r@ == "{}"@,
{
    "{}".to_owned()
}

/// The launcher's whole display configuration.
pub struct LemonConfig {
    /// The window size.
    pub size: Size,
    /// The interface's logical size; the window size stands in when none is
    /// set.
    pub ui_size: Option<Size>,
    pub font: Font,
    pub background: Option<Background>,
    pub menu: LemonMenuConfig,
    pub mame: MameCommand,
    pub widgets: Vec<Widget>,
}

impl LemonConfig {
    /// The interface's logical size: the configured one when set, the window
    /// size otherwise.
    pub fn get_ui_size(&self) -> (r: &Size)
        ensures
            *r == (match self.ui_size {
                Option::Some(s) => s,
                Option::None => self.size,
            }),
    {
        match &self.ui_size {
            Option::Some(s) => s,
            Option::None => &self.size,
        }
    }
}

} // verus!
