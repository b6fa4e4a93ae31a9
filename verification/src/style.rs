//! Colours and text attributes of a cell.

use vstd::prelude::*;

verus! {

#[derive(Debug, Clone, Copy, PartialEq, Eq, Structural)]
pub enum Color {
    Reset,
    Black,
    Red,
    Green,
    Yellow,
    Blue,
    Magenta,
    Cyan,
    Gray,
    DarkGray,
    LightRed,
    LightGreen,
    LightYellow,
    LightBlue,
    LightMagenta,
    LightCyan,
    White,
    Rgb(u8, u8, u8),
    Indexed(u8),
}

/// A set of text attributes (bold, italic, ...), one bit each.
#[derive(Debug, Clone, Copy, PartialEq, Eq, Structural)]
pub struct Modifier {
    pub bits: u16,
}

#[derive(Debug, Clone, Copy, PartialEq, Eq, Structural)]
pub struct Style {
    pub fg: Color,
    pub bg: Color,
    pub modifier: Modifier,
}

impl Modifier {
    /// The attribute for bold text.
    pub fn bold() -> (r: Modifier)
        ensures
            r == (Modifier { bits: 1 }),
    {
        Modifier { bits: 1 }
    }
}

impl Style {
    /// The style that changes nothing: both colours reset, no attribute.
    pub open spec fn spec_default() -> Style {
        Style { fg: Color::Reset, bg: Color::Reset, modifier: Modifier { bits: 0 } }
    }

    pub fn fg(self, color: Color) -> (r: Style)
        ensures
            r == (Style { fg: color, ..self }),
    {
        Style { fg: color, bg: self.bg, modifier: self.modifier }
    }

    pub fn bg(self, color: Color) -> (r: Style)
        ensures
            r == (Style { bg: color, ..self }),
    {
        Style { fg: self.fg, bg: color, modifier: self.modifier }
    }

    pub fn modifier(self, modifier: Modifier) -> (r: Style)
        ensures
            r == (Style { modifier, ..self }),
    {
        Style { fg: self.fg, bg: self.bg, modifier }
    }
}

impl Default for Style {
    fn default() -> (r: Style)
        ensures
            r == Style::spec_default(),
    {
        Style { fg: Color::Reset, bg: Color::Reset, modifier: Modifier { bits: 0 } }
    }
}

} // verus!
