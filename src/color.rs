//! The 16-entry colour palette and the packed foreground/background attribute.

use vstd::prelude::*;

verus! {

/// A palette entry of the text-mode display.
#[derive(Debug, Clone, Copy, PartialEq, Eq, Structural)]
pub enum Color {
    Black,
    Blue,
    Green,
    Cyan,
    Red,
    Magenta,
    Brown,
    LightGray,
    DarkGray,
    LightBlue,
    LightGreen,
    LightCyan,
    LightRed,
    Pink,
    Yellow,
    White,
}

impl Color {
    /// The palette index of the colour, as the hardware reads it.
    pub open spec fn spec_index(self) -> u8 {
        match self {
            Color::Black => 0,
            Color::Blue => 1,
            Color::Green => 2,
            Color::Cyan => 3,
            Color::Red => 4,
            Color::Magenta => 5,
            Color::Brown => 6,
            Color::LightGray => 7,
            Color::DarkGray => 8,
            Color::LightBlue => 9,
            Color::LightGreen => 10,
            Color::LightCyan => 11,
            Color::LightRed => 12,
            Color::Pink => 13,
            Color::Yellow => 14,
            Color::White => 15,
        }
    }

    /// The palette index of the colour.
    pub fn index(self) -> (r: u8)
        ensures
            r == self.spec_index(),
            r < 16,
    {
        match self {
            Color::Black => 0,
            Color::Blue => 1,
            Color::Green => 2,
            Color::Cyan => 3,
            Color::Red => 4,
            Color::Magenta => 5,
            Color::Brown => 6,
            Color::LightGray => 7,
            Color::DarkGray => 8,
            Color::LightBlue => 9,
            Color::LightGreen => 10,
            Color::LightCyan => 11,
            Color::LightRed => 12,
            Color::Pink => 13,
            Color::Yellow => 14,
            Color::White => 15,
        }
    }
}

/// A colour attribute: the low nibble is the foreground palette index, the
/// high nibble the background palette index.
#[derive(Debug, Clone, Copy, PartialEq, Eq, Structural)]
pub struct ColorCode(u8);

impl ColorCode {
    /// The attribute byte.
    pub closed spec fn spec_value(self) -> u8 {
        self.0
    }

    /// The attribute with the given foreground and background colours.
    pub closed spec fn spec_new(foreground: Color, background: Color) -> ColorCode {
        ColorCode((background.spec_index() * 16 + foreground.spec_index()) as u8)
    }

    /// Packs a foreground and a background colour into one attribute byte.
    pub fn new(foreground: Color, background: Color) -> (r: ColorCode)
        ensures
            r == ColorCode::spec_new(foreground, background),
            r.spec_value() == background.spec_index() * 16 + foreground.spec_index(),
            r.spec_value() % 16 == foreground.spec_index(),
            r.spec_value() / 16 == background.spec_index(),
    {
        let f = foreground.index();
        let b = background.index();
        assert((b << 4u8) | f == b * 16 + f) by (bit_vector)
            requires
                f < 16u8,
                b < 16u8,
        ;
        ColorCode((b << 4u8) | f)
    }

    /// The attribute byte.
    pub fn value(self) -> (r: u8)
        ensures
            r == self.spec_value(),
    {
        self.0
    }
}

} // verus!
