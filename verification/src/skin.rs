//! Colors, styles, and the skin that gives each part of the display its style.

use vstd::prelude::*;

verus! {

/// A terminal color.
#[derive(Clone, Copy, Debug, PartialEq, Eq, Structural)]
pub enum Color {
    Reset,
    Black,
    DarkGrey,
    Red,
    DarkRed,
    Green,
    DarkGreen,
    Yellow,
    DarkYellow,
    Blue,
    DarkBlue,
    Magenta,
    DarkMagenta,
    Cyan,
    DarkCyan,
    White,
    Grey,
    Rgb { r: u8, g: u8, b: u8 },
    AnsiValue(u8),
}

/// The colors a text is printed with. An absent color leaves the terminal's
/// current one in place.
#[derive(Clone, Copy, Debug, PartialEq, Eq)]
pub struct Style {
    pub fg: Option<Color>,
    pub bg: Option<Color>,
}

/// The style of each part of the display. A skin is built once and only read
/// while rendering.
#[derive(Clone, Copy, Debug, PartialEq, Eq)]
pub struct Skin {
    pub default: Style,
    pub tree: Style,
    pub file: Style,
    pub directory: Style,
    pub exe: Style,
    pub link: Style,
    pub pruning: Style,
    pub permissions: Style,
    pub dates: Style,
    pub selected_line: Style,
    pub char_match: Style,
    pub file_error: Style,
    pub scrollbar_track: Style,
    pub scrollbar_thumb: Style,
}

/// `style` as it shows on a row: on a selected row, and where the skin gives the
/// selection a background, that background replaces the style's own.
pub open spec fn on_row(skin: Skin, style: Style, selected: bool) -> Style {
    if selected && skin.selected_line.bg is Some {
        Style { fg: style.fg, bg: skin.selected_line.bg }
    } else {
        style
    }
}

impl Style {
    /// A style that changes no color.
    pub fn plain() -> (style: Style)
        ensures
            style == (Style { fg: None, bg: None }),
    {
        Style { fg: None, bg: None }
    }

    /// A style with a foreground color only.
    pub fn with_fg(fg: Color) -> (style: Style)
        ensures
            style == (Style { fg: Some(fg), bg: None }),
    {
        Style { fg: Some(fg), bg: None }
    }

    /// A style with a background color only.
    pub fn with_bg(bg: Color) -> (style: Style)
        ensures
            style == (Style { fg: None, bg: Some(bg) }),
    {
        Style { fg: None, bg: Some(bg) }
    }

    /// A style with both colors.
    pub fn with_fgbg(fg: Color, bg: Color) -> (style: Style)
        ensures
            style == (Style { fg: Some(fg), bg: Some(bg) }),
    {
        Style { fg: Some(fg), bg: Some(bg) }
    }
}

impl Skin {
    /// `style` as it shows on a row, selected or not.
    pub fn on_row(&self, style: Style, selected: bool) -> (shown: Style)
        ensures
            shown == on_row(*self, style, selected),
            !selected ==> shown == style,
            shown.fg == style.fg,
            selected && self.selected_line.bg is Some ==> shown.bg == self.selected_line.bg,
    {
        if selected {
            match self.selected_line.bg {
                Some(c) => Style { fg: style.fg, bg: Some(c) },
                None => style,
            }
        } else {
            style
        }
    }
}

} // verus!
