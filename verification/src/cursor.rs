//! The size of the grid and the arithmetic of the write position.
//!
//! The write position is one counter. The row it stands in is the
//! counter divided by the width of the grid, the column is the
//! remainder.

use vstd::prelude::*;

verus! {

/// Cells in one row of the grid.
pub const BUFFER_WIDTH: usize = 80;

/// Rows in the grid.
pub const BUFFER_HEIGHT: usize = 25;

/// Cells in the whole grid: one page.
pub const PAGE_CELLS: usize = 2000;

/// The counter at the first column of the last row.
pub const LAST_ROW_START: usize = 1920;

/// The byte that ends a line.
pub const NEWLINE: u8 = 0x0a;

/// The row that a counter stands in. It may lie below the grid.
pub open spec fn row_of(cursor: int) -> int {
    cursor / (BUFFER_WIDTH as int)
}

/// The column that a counter stands in.
pub open spec fn column_of(cursor: int) -> int {
    cursor % (BUFFER_WIDTH as int)
}

/// The first column of the row after the one that a counter stands in,
/// over the unbounded integers.
pub open spec fn next_row_start(cursor: int) -> int {
    cursor - column_of(cursor) + BUFFER_WIDTH
}

/// Whether a counter stands within one page of the largest value that the
/// machine can hold.
pub open spec fn near_overflow(cursor: usize) -> bool {
    cursor >= usize::MAX - PAGE_CELLS
}

/// The counter that the machine goes on with: a counter within one page
/// of the largest value is brought down to its remainder by the page.
pub open spec fn guarded(cursor: usize) -> usize {
    if near_overflow(cursor) {
        (cursor % PAGE_CELLS) as usize
    } else {
        cursor
    }
}

/// The page is the grid, and its last row starts one row before its end.
pub proof fn lemma_page_geometry()
    ensures
        PAGE_CELLS == BUFFER_WIDTH * BUFFER_HEIGHT,
        LAST_ROW_START == BUFFER_WIDTH * (BUFFER_HEIGHT - 1),
        row_of(LAST_ROW_START as int) == BUFFER_HEIGHT - 1,
        column_of(LAST_ROW_START as int) == 0,
{
}

/// A counter inside the page names a cell of the grid, each cell of the
/// grid is named by a counter inside the page, and two counters that
/// differ never name the same cell.
pub proof fn lemma_cursor_names_cell(cursor: int, other: int, row: int, col: int)
    requires
        0 <= cursor < PAGE_CELLS,
        0 <= other,
        other != cursor,
        0 <= row < BUFFER_HEIGHT,
        0 <= col < BUFFER_WIDTH,
    ensures
        0 <= row_of(cursor) < BUFFER_HEIGHT,
        0 <= column_of(cursor) < BUFFER_WIDTH,
        row_of(cursor) * BUFFER_WIDTH + column_of(cursor) == cursor,
        0 <= row * BUFFER_WIDTH + col < PAGE_CELLS,
        row_of(row * BUFFER_WIDTH + col) == row,
        column_of(row * BUFFER_WIDTH + col) == col,
        row_of(other) != row_of(cursor) || column_of(other) != column_of(cursor),
{
}

/// The remainder by the page stands in the same column as the counter
/// itself, and the two rows differ by a whole number of grids.
pub proof fn lemma_page_remainder(cursor: int)
    requires
        0 <= cursor,
    ensures
        column_of(cursor % (PAGE_CELLS as int)) == column_of(cursor),
        row_of(cursor % (PAGE_CELLS as int)) == row_of(cursor) % (BUFFER_HEIGHT as int),
        row_of(cursor) == row_of(cursor % (PAGE_CELLS as int)) + BUFFER_HEIGHT * (cursor / (
            PAGE_CELLS as int
        )),
{
    let pages: int = cursor / 2000;
    let rest: int = cursor % 2000;
    assert(cursor == 2000 * pages + rest);
    assert(rest == 80 * (rest / 80) + rest % 80);
    assert(cursor == 80 * (25 * pages + rest / 80) + rest % 80);
    assert(cursor / 80 == 25 * pages + rest / 80 && cursor % 80 == rest % 80);
    assert(0 <= rest / 80 < 25);
    assert((25 * pages + rest / 80) % 25 == rest / 80);
}

/// Going to the next row never overflows once the guard has been
/// applied, and the guard changes nothing that the position depends on:
/// the machine's result and the result over the unbounded integers leave
/// the same remainder by the page, so they stand in the same column and,
/// counted round the grid, in the same row.
pub proof fn lemma_guard_keeps_position(cursor: usize)
    ensures
        BUFFER_WIDTH <= next_row_start(guarded(cursor) as int) <= usize::MAX,
        near_overflow(cursor) ==> next_row_start(guarded(cursor) as int) <= PAGE_CELLS,
        !near_overflow(cursor) ==> next_row_start(guarded(cursor) as int) == next_row_start(
            cursor as int,
        ),
        next_row_start(guarded(cursor) as int) % (PAGE_CELLS as int) == next_row_start(
            cursor as int,
        ) % (PAGE_CELLS as int),
        column_of(next_row_start(guarded(cursor) as int)) == 0,
        column_of(next_row_start(cursor as int)) == 0,
        row_of(next_row_start(guarded(cursor) as int)) % (BUFFER_HEIGHT as int) == row_of(
            next_row_start(cursor as int),
        ) % (BUFFER_HEIGHT as int),
{
    let machine: int = next_row_start(guarded(cursor) as int);
    let unbounded: int = next_row_start(cursor as int);
    assert(unbounded == 80 * (cursor as int / 80 + 1));
    assert(machine == 80 * (guarded(cursor) as int / 80 + 1));
    if near_overflow(cursor) {
        lemma_page_remainder(cursor as int);
        let pages: int = cursor as int / 2000;
        assert(unbounded == machine + 2000 * pages);
        assert(unbounded / 80 == machine / 80 + 25 * pages);
    }
}

} // verus!
