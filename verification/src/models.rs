//! The data model: the persisted configuration document and the color-scheme
//! documents that the scheme loader lists.
//!
//! These are plain records. Their persisted JSON form is produced and parsed
//! outside the verified core; the core's contracts speak of the records
//! themselves, field by field.

use vstd::prelude::*;

verus! {

/// The persisted configuration document: a `style` section and an optional
/// `desktop` section.
#[derive(Debug, Clone, PartialEq, Eq)]
pub struct VSKConfig {
    pub style: Style,
    pub desktop: Option<Desktop>,
}

/// Desktop preferences: wallpaper list, icon size and file-visibility flags.
#[derive(Debug, Clone, PartialEq, Eq)]
pub struct Desktop {
    pub wallpaper: Vec<String>,
    pub iconsize: u32,
    pub showfiles: bool,
    pub showhiddenfiles: bool,
}

/// Style preferences: the dark-mode flag, the primary color and the corner
/// radius.
#[derive(Debug, Clone, PartialEq, Eq)]
pub struct Style {
    pub darkmode: bool,
    pub color_scheme: String,
    pub radius: u32,
}

/// One color scheme: the path of the file it was read from, and its data.
#[derive(Debug, Clone, PartialEq, Eq)]
pub struct Scheme {
    pub path: String,
    pub scheme: SchemeData,
}

/// The contents of one color-scheme document, identified by its `id` field.
#[derive(Debug, Clone, PartialEq, Eq)]
pub struct SchemeData {
    pub id: String,
    pub name: String,
    pub author: String,
    pub description: String,
    pub version: String,
    pub colors: SchemeColors,
}

/// The dark and light variants of a scheme.
#[derive(Debug, Clone, PartialEq, Eq)]
pub struct SchemeColors {
    pub dark: ThemeVariant,
    pub ligth: ThemeVariant,
}

/// One variant of a scheme: its UI palette and its terminal palette.
#[derive(Debug, Clone, PartialEq, Eq)]
pub struct ThemeVariant {
    pub ui: UiColors,
    pub terminal: TerminalColors,
}

/// The UI palette of a scheme variant.
#[derive(Debug, Clone, PartialEq, Eq)]
pub struct UiColors {
    pub color: ColorPalette,
    pub text: TextColors,
    pub background: String,
    pub border: String,
    pub surface: String,
}

/// The primary and secondary accent colors.
#[derive(Debug, Clone, PartialEq, Eq)]
pub struct ColorPalette {
    pub primary: String,
    pub seccondary: String,
}

/// The text colors of a scheme variant.
#[derive(Debug, Clone, PartialEq, Eq)]
pub struct TextColors {
    pub main: String,
    pub muted: String,
    pub on_primary: String,
}

/// The terminal palette of a scheme variant.
#[derive(Debug, Clone, PartialEq, Eq)]
pub struct TerminalColors {
    pub foreground: String,
    pub background: String,
    pub cursor: String,
    pub ansi: AnsiColors,
}

/// The sixteen ANSI terminal colors.
#[derive(Debug, Clone, PartialEq, Eq)]
pub struct AnsiColors {
    pub black: String,
    pub red: String,
    pub green: String,
    pub yellow: String,
    pub blue: String,
    pub magenta: String,
    pub cyan: String,
    pub white: String,
    pub bright_black: String,
    pub bright_red: String,
    pub bright_green: String,
    pub bright_yellow: String,
    pub bright_blue: String,
    pub bright_magenta: String,
    pub bright_cyan: String,
    pub bright_white: String,
}

/// `b` is `a` with only the dark-mode flag set to `darkmode`: every other
/// field of the document is the same value.
pub open spec fn only_darkmode_changed(a: VSKConfig, b: VSKConfig, darkmode: bool) -> bool {
    &&& b.style.darkmode == darkmode
    &&& b.style.color_scheme == a.style.color_scheme
    &&& b.style.radius == a.style.radius
    &&& b.desktop == a.desktop
}

/// Mutates only the dark-mode field of the document; every other field,
/// including the whole optional desktop section, is left untouched.
pub fn apply_darkmode(config: VSKConfig, darkmode: bool) -> (r: VSKConfig)
    ensures
        only_darkmode_changed(config, r, darkmode),
{
    let VSKConfig { style, desktop } = config;
    let Style { darkmode: _, color_scheme, radius } = style;
    VSKConfig { style: Style { darkmode, color_scheme, radius }, desktop }
}

} // verus!
