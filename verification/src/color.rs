//! The sixteen colours of the text-mode palette and the attribute byte
//! that pairs a foreground with a background.

use vstd::prelude::*;

verus! {

/// A colour of the text-mode palette.
#[derive(Debug, Clone, Copy, PartialEq, Eq, Structural)]
pub enum Color {
    Black,
    Blue,
    Green,
    Cyan,
    Red,
    Magenta,
    Brown,
    LightGray,
    DarkGray,
    LightBlue,
    LightGreen,
    LightCyan,
    LightRed,
    Pink,
    Yellow,
    White,
}

impl Color {
    /// The palette index of the colour, `0` for black up to `15` for white.
    pub open spec fn index(self) -> u8 {
        match self {
            Color::Black => 0,
            Color::Blue => 1,
            Color::Green => 2,
            Color::Cyan => 3,
            Color::Red => 4,
            Color::Magenta => 5,
            Color::Brown => 6,
            Color::LightGray => 7,
            Color::DarkGray => 8,
            Color::LightBlue => 9,
            Color::LightGreen => 10,
            Color::LightCyan => 11,
            Color::LightRed => 12,
            Color::Pink => 13,
            Color::Yellow => 14,
            Color::White => 15,
        }
    }

    /// The colour that a palette index below sixteen stands for.
    pub open spec fn of_index(index: u8) -> Color
        recommends
            index < 16,
    {
        if index == 0 {
            Color::Black
        } else if index == 1 {
            Color::Blue
        } else if index == 2 {
            Color::Green
        } else if index == 3 {
            Color::Cyan
        } else if index == 4 {
            Color::Red
        } else if index == 5 {
            Color::Magenta
        } else if index == 6 {
            Color::Brown
        } else if index == 7 {
            Color::LightGray
        } else if index == 8 {
            Color::DarkGray
        } else if index == 9 {
            Color::LightBlue
        } else if index == 10 {
            Color::LightGreen
        } else if index == 11 {
            Color::LightCyan
        } else if index == 12 {
            Color::LightRed
        } else if index == 13 {
            Color::Pink
        } else if index == 14 {
            Color::Yellow
        } else {
            Color::White
        }
    }

    /// Computes the palette index of the colour.
    pub fn to_index(self) -> (index: u8)
        ensures
            index == self.index(),
            index < 16,
    {
        match self {
            Color::Black => 0,
            Color::Blue => 1,
            Color::Green => 2,
            Color::Cyan => 3,
            Color::Red => 4,
            Color::Magenta => 5,
            Color::Brown => 6,
            Color::LightGray => 7,
            Color::DarkGray => 8,
            Color::LightBlue => 9,
            Color::LightGreen => 10,
            Color::LightCyan => 11,
            Color::LightRed => 12,
            Color::Pink => 13,
            Color::Yellow => 14,
            Color::White => 15,
        }
    }
}

/// An attribute byte: the background colour in the high four bits, the
/// foreground colour in the low four.
#[derive(Debug, Clone, Copy, PartialEq, Eq, Structural)]
pub struct ColorCode(pub u8);

impl View for ColorCode {
    type V = u8;

    open spec fn view(&self) -> u8 {
        self.0
    }
}

impl ColorCode {
    /// The attribute byte that pairs two colours.
    pub open spec fn pack(foreground: Color, background: Color) -> u8 {
        (16 * background.index() + foreground.index()) as u8
    }

    /// Pairs a foreground colour with a background colour.
    pub fn new(foreground: Color, background: Color) -> (code: ColorCode)
        ensures
            code@ == Self::pack(foreground, background),
            code.foreground() == foreground,
            code.background() == background,
    {
        let fg: u8 = foreground.to_index();
        let bg: u8 = background.to_index();
        assert((bg << 4 | fg) == 16 * bg + fg) by (bit_vector)
            requires
                fg < 16,
                bg < 16,
        ;
        ColorCode(bg << 4 | fg)
    }

    /// The foreground colour held in the low four bits.
    pub open spec fn foreground(self) -> Color {
        Color::of_index(self.0 % 16)
    }

    /// The background colour held in the high four bits.
    pub open spec fn background(self) -> Color {
        Color::of_index(self.0 / 16)
    }
}

} // verus!
