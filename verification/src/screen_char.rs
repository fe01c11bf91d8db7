//! One cell of the screen, and the 16-bit word that the display hardware
//! keeps for it.

use vstd::prelude::*;
use crate::color::ColorCode;

verus! {

/// The glyph that an empty cell shows: a space.
pub const BLANK: u8 = 0x20;

/// A glyph together with the colours it is shown in.
#[derive(Debug, Clone, Copy, PartialEq, Eq, Structural)]
pub struct ScreenChar {
    pub ascii_character: u8,
    pub color_code: ColorCode,
}

impl ScreenChar {
    /// The empty cell in the given colours.
    pub open spec fn blank(color_code: ColorCode) -> ScreenChar {
        ScreenChar { ascii_character: BLANK, color_code }
    }

    /// The word that stands for a cell: the glyph in the low byte, the
    /// attribute in the high byte.
    pub open spec fn word(self) -> u16 {
        (256 * self.color_code@ + self.ascii_character) as u16
    }

    /// The cell that a word stands for.
    pub open spec fn of_word(word: u16) -> ScreenChar {
        ScreenChar {
            ascii_character: (word % 256) as u8,
            color_code: ColorCode((word / 256) as u8),
        }
    }

    /// Packs the cell into its word.
    pub fn to_word(self) -> (word: u16)
        ensures
            word == self.word(),
            Self::of_word(word) == self,
    {
        let glyph: u16 = self.ascii_character as u16;
        let attribute: u16 = self.color_code.0 as u16;
        assert((attribute << 8 | glyph) == 256 * attribute + glyph) by (bit_vector)
            requires
                glyph < 256,
                attribute < 256,
        ;
        attribute << 8 | glyph
    }

    /// Unpacks a word into the cell it stands for.
    pub fn from_word(word: u16) -> (cell: ScreenChar)
        ensures
            cell == Self::of_word(word),
            cell.word() == word,
    {
        assert((word & 0xff) == word % 256 && (word >> 8) == word / 256) by (bit_vector);
        ScreenChar {
            ascii_character: (word & 0xff) as u8,
            color_code: ColorCode((word >> 8) as u8),
        }
    }
}

/// Packing a cell into a word and unpacking it again gives the cell
/// back, and the other way round: cells and words stand one for one.
pub proof fn lemma_word_round_trip(cell: ScreenChar, word: u16)
    ensures
        ScreenChar::of_word(cell.word()) == cell,
        ScreenChar::of_word(word).word() == word,
{
}

} // verus!
