//! The writer: it owns the write position and the colours, holds the grid
//! by exclusive reference, and puts bytes on the screen.

use vstd::prelude::*;
use vstd::string::StringSliceAdditionalSpecFns;
use crate::buffer::{cells_of, read_cell, write_cell, Buffer};
use crate::color::ColorCode;
use crate::cursor::{
    lemma_guard_keeps_position, BUFFER_HEIGHT, BUFFER_WIDTH, LAST_ROW_START, NEWLINE, PAGE_CELLS,
};
use crate::screen::{displayed, Screen, PLACEHOLDER};
use crate::screen_char::{ScreenChar, BLANK};

verus! {

/// Writes bytes to a text-mode grid, wrapping lines at the right edge
/// and scrolling at the bottom.
pub struct Writer<'a> {
    char_numbers: usize,
    color_code: ColorCode,
    buffer: &'a mut Buffer,
}

impl<'a> View for Writer<'a> {
    type V = Screen;

    closed spec fn view(&self) -> Screen {
        Screen {
            cells: cells_of(*self.buffer),
            cursor: self.char_numbers,
            color_code: self.color_code,
        }
    }
}

impl<'a> Writer<'a> {
    /// Whatever a writer holds, the screen it shows has the full grid.
    pub proof fn lemma_view_wf(&self)
        ensures
            self@.wf(),
    {
    }

    /// Takes a grid as it is, with the write position at the given
    /// counter. The grid keeps what it shows.
    pub fn attach(buffer: &'a mut Buffer, color_code: ColorCode, char_numbers: usize) -> (writer:
        Writer<'a>)
        ensures
            writer@ == (Screen { cells: cells_of(*old(buffer)), cursor: char_numbers, color_code }),
            writer@.wf(),
    {
        Writer { char_numbers, color_code, buffer }
    }

    /// Takes a grid and empties it, with the write position at its top
    /// left.
    pub fn new(buffer: &'a mut Buffer, color_code: ColorCode) -> (writer: Writer<'a>)
        ensures
            writer@ == Screen::empty(color_code),
            writer@.wf(),
    {
        let mut writer = Writer { char_numbers: 0, color_code, buffer };
        let mut row: usize = 0;
        while row < BUFFER_HEIGHT
            invariant
                row <= BUFFER_HEIGHT,
                writer.char_numbers == 0,
                writer.color_code == color_code,
                writer@.wf(),
                forall|r: int|
                    0 <= r < row ==> #[trigger] writer@.cells[r] == Screen::blank_row(color_code),
            decreases BUFFER_HEIGHT - row,
        {
            writer.clear_row(row);
            row += 1;
        }
        assert(writer@.cells =~= Screen::empty(color_code).cells);
        writer
    }

    /// Lets go of the grid and hands it back. The memory holds what the
    /// writer showed.
    pub fn into_buffer(self) -> (buffer: &'a mut Buffer)
        ensures
            cells_of(*buffer) == self@.cells,
    {
        self.buffer
    }

    /// The counter of the write position.
    pub fn char_numbers(&self) -> (cursor: usize)
        ensures
            cursor == self@.cursor,
    {
        self.char_numbers
    }

    /// The colours in use.
    pub fn color_code(&self) -> (color_code: ColorCode)
        ensures
            color_code == self@.color_code,
    {
        self.color_code
    }

    /// The cell shown at a place of the grid, if the place is on the grid.
    pub fn cell(&self, row: usize, col: usize) -> (cell: Option<ScreenChar>)
        ensures
            cell == if row < BUFFER_HEIGHT && col < BUFFER_WIDTH {
                Some(self@.cells[row as int][col as int])
            } else {
                None
            },
    {
        if row < BUFFER_HEIGHT && col < BUFFER_WIDTH {
            Some(read_cell(self.buffer, row, col))
        } else {
            None
        }
    }

    /// Empties one row of the grid.
    pub fn clear_row(&mut self, row: usize)
        requires
            row < BUFFER_HEIGHT,
        ensures
            final(self)@ == old(self)@.clear_row(row as int),
            final(self)@.wf(),
    {
        let blank = ScreenChar { ascii_character: BLANK, color_code: self.color_code };
        let mut col: usize = 0;
        while col < BUFFER_WIDTH
            invariant
                row < BUFFER_HEIGHT,
                col <= BUFFER_WIDTH,
                blank == ScreenChar::blank(old(self).color_code),
                self.char_numbers == old(self).char_numbers,
                self.color_code == old(self).color_code,
                self@.wf(),
                forall|r: int|
                    0 <= r < BUFFER_HEIGHT && r != row ==> #[trigger] self@.cells[r] == old(
                        self,
                    )@.cells[r],
                forall|c: int| 0 <= c < col ==> #[trigger] self@.cells[row as int][c] == blank,
            decreases BUFFER_WIDTH - col,
        {
            write_cell(self.buffer, row, col, blank);
            col += 1;
        }
        assert(self@.cells =~~= old(self)@.clear_row(row as int).cells);
    }

    /// Moves every row up by one and empties the last row.
    fn scroll(&mut self)
        ensures
            final(self)@ == old(self)@.scroll(),
            final(self)@.wf(),
    {
        let mut row: usize = 1;
        while row < BUFFER_HEIGHT
            invariant
                1 <= row <= BUFFER_HEIGHT,
                self.char_numbers == old(self).char_numbers,
                self.color_code == old(self).color_code,
                self@.wf(),
                old(self)@.wf(),
                forall|r: int|
                    0 <= r < row - 1 ==> #[trigger] self@.cells[r] == old(self)@.cells[r + 1],
                forall|r: int|
                    row - 1 <= r < BUFFER_HEIGHT ==> #[trigger] self@.cells[r] == old(
                        self,
                    )@.cells[r],
            decreases BUFFER_HEIGHT - row,
        {
            let mut col: usize = 0;
            while col < BUFFER_WIDTH
                invariant
                    1 <= row < BUFFER_HEIGHT,
                    col <= BUFFER_WIDTH,
                    self.char_numbers == old(self).char_numbers,
                    self.color_code == old(self).color_code,
                    self@.wf(),
                    old(self)@.wf(),
                    forall|r: int|
                        0 <= r < row - 1 ==> #[trigger] self@.cells[r] == old(self)@.cells[r + 1],
                    forall|r: int|
                        row <= r < BUFFER_HEIGHT ==> #[trigger] self@.cells[r] == old(
                            self,
                        )@.cells[r],
                    forall|c: int|
                        0 <= c < col ==> #[trigger] self@.cells[row - 1][c] == old(
                            self,
                        )@.cells[row as int][c],
                    forall|c: int|
                        col <= c < BUFFER_WIDTH ==> #[trigger] self@.cells[row - 1][c] == old(
                            self,
                        )@.cells[row - 1][c],
                decreases BUFFER_WIDTH - col,
            {
                let character = read_cell(self.buffer, row, col);
                write_cell(self.buffer, row - 1, col, character);
                col += 1;
            }
            assert(self@.cells[row - 1] =~= old(self)@.cells[row as int]);
            row += 1;
        }
        self.clear_row(BUFFER_HEIGHT - 1);
        assert(self@.cells =~= old(self)@.scroll().cells);
    }

    /// Ends the line: the write position goes to the first column of the
    /// next row, and the grid scrolls where that row is its last row or
    /// lies below it.
    pub fn new_line(&mut self)
        ensures
            final(self)@ == old(self)@.new_line(),
            final(self)@.wf(),
    {
        proof {
            lemma_guard_keeps_position(self.char_numbers);
        }
        if self.char_numbers >= usize::MAX - PAGE_CELLS {
            self.char_numbers = self.char_numbers % PAGE_CELLS;
        }
        self.char_numbers = self.char_numbers - self.char_numbers % BUFFER_WIDTH + BUFFER_WIDTH;
        if self.char_numbers / BUFFER_WIDTH >= BUFFER_HEIGHT - 1 {
            self.scroll();
            self.char_numbers = LAST_ROW_START;
        }
    }

    /// Writes one byte. The byte that ends a line moves the write
    /// position to the next row. Any other byte is shown at the write
    /// position, which then moves on by one; where the position lay below
    /// the grid, the grid scrolls first and the byte goes to the last row.
    pub fn write_byte(&mut self, byte: u8)
        ensures
            final(self)@ == old(self)@.write_byte(byte),
            final(self)@.wf(),
    {
        if byte == NEWLINE {
            self.new_line();
        } else {
            let col: usize = self.char_numbers % BUFFER_WIDTH;
            if self.char_numbers / BUFFER_WIDTH >= BUFFER_HEIGHT {
                self.scroll();
                self.char_numbers = LAST_ROW_START + col;
            }
            let row: usize = self.char_numbers / BUFFER_WIDTH;
            let character = ScreenChar { ascii_character: byte, color_code: self.color_code };
            write_cell(self.buffer, row, col, character);
            self.char_numbers += 1;
        }
    }

    /// Writes the bytes of a string one by one. A byte that can neither
    /// be printed nor ends a line is written as the placeholder.
    pub fn write_string(&mut self, s: &str)
        ensures
            final(self)@ == old(self)@.write_string(s.spec_bytes()),
            final(self)@.wf(),
    {
        let bytes = s.as_bytes();
        let ghost shown = bytes@.map_values(|byte: u8| displayed(byte));
        let mut i: usize = 0;
        while i < bytes.len()
            invariant
                i <= bytes.len(),
                bytes@ == s.spec_bytes(),
                shown == bytes@.map_values(|byte: u8| displayed(byte)),
                self@ == old(self)@.write_bytes(shown.take(i as int)),
            decreases bytes.len() - i,
        {
            let byte: u8 = bytes[i];
            proof {
                assert(shown.take(i + 1).drop_last() =~= shown.take(i as int));
                assert(shown.take(i + 1).last() == displayed(byte));
            }
            if (0x20 <= byte && byte <= 0x7e) || byte == NEWLINE {
                self.write_byte(byte);
            } else {
                self.write_byte(PLACEHOLDER);
            }
            i += 1;
        }
        assert(shown.take(i as int) =~= shown);
    }
}

/// `core::fmt::Error`, the error of a formatting sink. The writer never
/// returns one.
#[verifier::external_type_specification]
#[verifier::external_body]
pub struct ExFmtError(core::fmt::Error);

impl<'a> core::fmt::Write for Writer<'a> {
    /// Writes the string as `write_string` does, and always succeeds.
    fn write_str(&mut self, s: &str) -> (result: core::fmt::Result)
        ensures
            result is Ok,
            final(self)@ == old(self)@.write_string(s.spec_bytes()),
    {
        self.write_string(s);
        Ok(())
    }
}

} // verus!
