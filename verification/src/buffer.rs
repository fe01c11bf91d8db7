//! The memory that the display shows: a grid of volatile 16-bit words,
//! one for each cell.

use vstd::prelude::*;
use volatile::Volatile;
use crate::cursor::{BUFFER_HEIGHT, BUFFER_WIDTH};
use crate::screen_char::ScreenChar;

verus! {

/// `volatile::Volatile`, a cell whose reads and writes the compiler
/// neither drops nor reorders. Nothing is known of what is inside it
/// but through `stored_word`.
#[verifier::external_type_specification]
#[verifier::external_body]
#[verifier::reject_recursive_types(T)]
pub struct ExVolatile<T: Copy>(Volatile<T>);

/// The word that a volatile cell holds.
pub uninterp spec fn stored_word(cell: Volatile<u16>) -> u16;

/// `Volatile::read`: a volatile read of the cell, which returns a copy
/// of the word the cell holds. Trusted: the cell is memory that only
/// the holder of its exclusive reference writes.
#[verifier::external_body]
pub(crate) fn read_word(cell: &Volatile<u16>) -> (word: u16)
    ensures
        word == stored_word(*cell),
{
    cell.read()
}

/// `Volatile::write`: a volatile write to the cell, after which the
/// cell holds the given word. Trusted.
#[verifier::external_body]
pub(crate) fn write_word(cell: &mut Volatile<u16>, word: u16)
    ensures
        stored_word(*final(cell)) == word,
{
    cell.write(word)
}

/// The grid in memory, row by row. Its layout is that of the text-mode
/// display: two bytes for each cell, the glyph first.
pub type Buffer = [[Volatile<u16>; BUFFER_WIDTH]; BUFFER_HEIGHT];

/// The cell shown at a place of the grid.
pub open spec fn cell_of(buffer: Buffer, row: int, col: int) -> ScreenChar {
    ScreenChar::of_word(stored_word(buffer[row][col]))
}

/// The cells that a grid shows, row by row.
pub open spec fn cells_of(buffer: Buffer) -> Seq<Seq<ScreenChar>> {
    Seq::new(
        BUFFER_HEIGHT as nat,
        |row: int| Seq::new(BUFFER_WIDTH as nat, |col: int| cell_of(buffer, row, col)),
    )
}

/// Reads the cell at a place of the grid.
pub fn read_cell(buffer: &Buffer, row: usize, col: usize) -> (cell: ScreenChar)
    requires
        row < BUFFER_HEIGHT,
        col < BUFFER_WIDTH,
    ensures
        cell == cells_of(*buffer)[row as int][col as int],
{
    ScreenChar::from_word(read_word(&buffer[row][col]))
}

/// Writes a cell at a place of the grid. No other cell changes.
pub fn write_cell(buffer: &mut Buffer, row: usize, col: usize, cell: ScreenChar)
    requires
        row < BUFFER_HEIGHT,
        col < BUFFER_WIDTH,
    ensures
        cells_of(*final(buffer)) == cells_of(*old(buffer)).update(
            row as int,
            cells_of(*old(buffer))[row as int].update(col as int, cell),
        ),
{
    write_word(&mut buffer[row][col], cell.to_word());
    assert(cells_of(*buffer) =~~= cells_of(*old(buffer)).update(
        row as int,
        cells_of(*old(buffer))[row as int].update(col as int, cell),
    ));
}

} // verus!
