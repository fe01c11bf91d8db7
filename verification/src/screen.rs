//! What the screen shows, as a mathematical value, and how each
//! operation of the writer changes it.

use vstd::prelude::*;
use crate::color::ColorCode;
use crate::cursor::{
    column_of, guarded, lemma_guard_keeps_position, near_overflow, next_row_start, row_of,
    BUFFER_HEIGHT, BUFFER_WIDTH, LAST_ROW_START, NEWLINE, PAGE_CELLS,
};
use crate::screen_char::ScreenChar;

verus! {

/// The glyph shown in place of a byte that cannot be printed.
pub const PLACEHOLDER: u8 = 0xfe;

/// Whether a byte is a printable ASCII character.
pub open spec fn is_printable(byte: u8) -> bool {
    0x20 <= byte <= 0x7e
}

/// The byte that is written for a byte of a string: the byte itself where
/// it can be printed or ends a line, the placeholder otherwise.
pub open spec fn displayed(byte: u8) -> u8 {
    if is_printable(byte) || byte == NEWLINE {
        byte
    } else {
        PLACEHOLDER
    }
}

/// The state of the writer: the cells of the grid row by row, the
/// counter of the write position and the colours in use.
pub struct Screen {
    pub cells: Seq<Seq<ScreenChar>>,
    pub cursor: usize,
    pub color_code: ColorCode,
}

impl Screen {
    /// The grid has its full height, and each row its full width.
    pub open spec fn wf(self) -> bool {
        &&& self.cells.len() == BUFFER_HEIGHT
        &&& forall|row: int|
            0 <= row < BUFFER_HEIGHT ==> (#[trigger] self.cells[row]).len() == BUFFER_WIDTH
    }

    /// A row of empty cells.
    pub open spec fn blank_row(color_code: ColorCode) -> Seq<ScreenChar> {
        Seq::new(BUFFER_WIDTH as nat, |col: int| ScreenChar::blank(color_code))
    }

    /// The empty screen, with the write position at its top left.
    pub open spec fn empty(color_code: ColorCode) -> Screen {
        Screen {
            cells: Seq::new(BUFFER_HEIGHT as nat, |row: int| Self::blank_row(color_code)),
            cursor: 0,
            color_code,
        }
    }

    /// The cell that a counter inside the page names.
    pub open spec fn cell(self, place: int) -> ScreenChar {
        self.cells[row_of(place)][column_of(place)]
    }

    /// The cell that a byte is shown as in the colours in use.
    pub open spec fn glyph(self, byte: u8) -> ScreenChar {
        ScreenChar { ascii_character: byte, color_code: self.color_code }
    }

    /// The screen with one cell replaced.
    pub open spec fn with_cell(self, row: int, col: int, cell: ScreenChar) -> Screen {
        Screen { cells: self.cells.update(row, self.cells[row].update(col, cell)), ..self }
    }

    /// The screen with the write position moved.
    pub open spec fn with_cursor(self, cursor: usize) -> Screen {
        Screen { cursor, ..self }
    }

    /// The screen with one row emptied.
    pub open spec fn clear_row(self, row: int) -> Screen {
        Screen { cells: self.cells.update(row, Self::blank_row(self.color_code)), ..self }
    }

    /// The screen moved up by one row: the top row is lost, each other row
    /// stands one higher, and the last row is empty.
    pub open spec fn scroll(self) -> Screen {
        Screen {
            cells: Seq::new(
                BUFFER_HEIGHT as nat,
                |row: int|
                    if row + 1 < BUFFER_HEIGHT {
                        self.cells[row + 1]
                    } else {
                        Self::blank_row(self.color_code)
                    },
            ),
            ..self
        }
    }

    /// The screen made ready for a cell write: where the write position
    /// lies below the grid, the screen scrolls and the position moves into
    /// the last row, keeping its column.
    pub open spec fn anchored(self) -> Screen {
        if row_of(self.cursor as int) >= BUFFER_HEIGHT {
            self.scroll().with_cursor((LAST_ROW_START + column_of(self.cursor as int)) as usize)
        } else {
            self
        }
    }

    /// The screen after the end of a line. The write position goes to the
    /// first column of the next row. Where that row is the last row of the
    /// grid or lies below it, the screen scrolls and the position is the
    /// first column of the last row.
    pub open spec fn new_line(self) -> Screen {
        let start = next_row_start(guarded(self.cursor) as int);
        if row_of(start) >= BUFFER_HEIGHT - 1 {
            self.scroll().with_cursor(LAST_ROW_START)
        } else {
            self.with_cursor(start as usize)
        }
    }

    /// The screen after a byte other than the end of a line: the byte is
    /// shown at the write position, which then moves on by one.
    pub open spec fn put(self, byte: u8) -> Screen {
        let ready = self.anchored();
        let row = row_of(ready.cursor as int);
        let col = column_of(ready.cursor as int);
        ready.with_cell(row, col, self.glyph(byte)).with_cursor((ready.cursor + 1) as usize)
    }

    /// The screen after one byte.
    pub open spec fn write_byte(self, byte: u8) -> Screen {
        if byte == NEWLINE {
            self.new_line()
        } else {
            self.put(byte)
        }
    }

    /// The screen after a sequence of bytes, written one by one.
    pub open spec fn write_bytes(self, bytes: Seq<u8>) -> Screen
        decreases bytes.len(),
    {
        if bytes.len() == 0 {
            self
        } else {
            self.write_bytes(bytes.drop_last()).write_byte(bytes.last())
        }
    }

    /// The screen after the bytes of a string: each byte that can neither
    /// be printed nor ends a line is written as the placeholder.
    pub open spec fn write_string(self, bytes: Seq<u8>) -> Screen {
        self.write_bytes(bytes.map_values(|byte: u8| displayed(byte)))
    }
}

/// Emptying a row a second time changes nothing.
pub proof fn lemma_clear_row_idempotent(screen: Screen, row: int)
    requires
        screen.wf(),
        0 <= row < BUFFER_HEIGHT,
    ensures
        screen.clear_row(row).wf(),
        screen.clear_row(row).clear_row(row) == screen.clear_row(row),
{
    assert(screen.clear_row(row).clear_row(row).cells =~= screen.clear_row(row).cells);
}

/// Emptying a row leaves an empty cell in each of its columns and keeps
/// every other row, the write position and the colours.
pub proof fn lemma_clear_row_empties_one_row(screen: Screen, row: int)
    requires
        screen.wf(),
        0 <= row < BUFFER_HEIGHT,
    ensures
        screen.clear_row(row).wf(),
        screen.clear_row(row).cursor == screen.cursor,
        screen.clear_row(row).color_code == screen.color_code,
        forall|col: int|
            0 <= col < BUFFER_WIDTH ==> #[trigger] screen.clear_row(row).cells[row][col]
                == ScreenChar::blank(screen.color_code),
        forall|other: int|
            0 <= other < BUFFER_HEIGHT && other != row ==> #[trigger] screen.clear_row(
                row,
            ).cells[other] == screen.cells[other],
{
}

/// After a scroll each row but the last shows what the row below it
/// showed before, in the same order, and the last row is empty. The
/// write position and the colours stay.
pub proof fn lemma_scroll_moves_rows_up(screen: Screen)
    requires
        screen.wf(),
    ensures
        screen.scroll().wf(),
        screen.scroll().cursor == screen.cursor,
        screen.scroll().color_code == screen.color_code,
        forall|row: int|
            0 <= row < BUFFER_HEIGHT - 1 ==> #[trigger] screen.scroll().cells[row]
                == screen.cells[row + 1],
        screen.scroll().cells[BUFFER_HEIGHT - 1] == Screen::blank_row(screen.color_code),
        forall|col: int|
            0 <= col < BUFFER_WIDTH ==> #[trigger] screen.scroll().cells[BUFFER_HEIGHT - 1][col]
                == ScreenChar::blank(screen.color_code),
{
}

/// The end of a line leaves the write position at the first column of a
/// row of the grid, and scrolls the grid once or not at all: it scrolls
/// where the position stood in the row before the last or further down,
/// and then the position is in the last row; above that the grid stays
/// and the position is in the next row.
pub proof fn lemma_new_line_lands_on_row_start(screen: Screen)
    requires
        screen.wf(),
    ensures
        screen.new_line().wf(),
        screen.new_line().color_code == screen.color_code,
        column_of(screen.new_line().cursor as int) == 0,
        0 < row_of(screen.new_line().cursor as int) < BUFFER_HEIGHT,
        row_of(guarded(screen.cursor) as int) < BUFFER_HEIGHT - 2 ==> screen.new_line()
            == screen.with_cursor(
            (BUFFER_WIDTH * (row_of(guarded(screen.cursor) as int) + 1)) as usize,
        ),
        row_of(guarded(screen.cursor) as int) >= BUFFER_HEIGHT - 2 ==> screen.new_line()
            == screen.scroll().with_cursor(LAST_ROW_START),
{
    lemma_guard_keeps_position(screen.cursor);
}

/// A counter within one page of the largest value, then the end of a
/// line: the write position ends where the unbounded integers put it,
/// taken modulo the page. Where that is the start of the last row, or
/// the start of the page after a full turn, the grid scrolls and the
/// position is the start of the last row.
pub proof fn lemma_new_line_near_overflow(screen: Screen)
    requires
        screen.wf(),
        near_overflow(screen.cursor),
    ensures
        ({
            let unbounded = next_row_start(screen.cursor as int) % (PAGE_CELLS as int);
            &&& column_of(screen.new_line().cursor as int) == column_of(unbounded)
            &&& (unbounded != 0 && unbounded != LAST_ROW_START) ==> screen.new_line()
                == screen.with_cursor(unbounded as usize)
            &&& (unbounded == 0 || unbounded == LAST_ROW_START) ==> screen.new_line()
                == screen.scroll().with_cursor(LAST_ROW_START)
        }),
{
    lemma_guard_keeps_position(screen.cursor);
}

/// One byte keeps the grid whole and the colours, and leaves the write
/// position inside the page or at its end.
pub proof fn lemma_write_byte_keeps_shape(screen: Screen, byte: u8)
    requires
        screen.wf(),
    ensures
        screen.write_byte(byte).wf(),
        screen.write_byte(byte).color_code == screen.color_code,
        0 < screen.write_byte(byte).cursor <= PAGE_CELLS,
{
    lemma_guard_keeps_position(screen.cursor);
}

/// A byte other than the end of a line, written while the write position
/// is inside the page, changes the one cell that the position names and
/// nothing else, and the position moves on by one.
pub proof fn lemma_put_changes_one_cell(screen: Screen, byte: u8)
    requires
        screen.wf(),
        screen.cursor < PAGE_CELLS,
        byte != NEWLINE,
    ensures
        screen.write_byte(byte).cursor == screen.cursor + 1,
        screen.write_byte(byte).cell(screen.cursor as int) == screen.glyph(byte),
        forall|place: int|
            0 <= place < PAGE_CELLS && place != screen.cursor ==> #[trigger] screen.write_byte(
                byte,
            ).cell(place) == screen.cell(place),
{
}

/// A byte other than the end of a line, written while the write position
/// lies below the grid: the grid scrolls once, the byte is shown in the
/// last row at the column of the position, and the position goes on from
/// there.
pub proof fn lemma_put_below_grid_scrolls_once(screen: Screen, byte: u8)
    requires
        screen.wf(),
        screen.cursor >= PAGE_CELLS,
        byte != NEWLINE,
    ensures
        screen.write_byte(byte).cursor == LAST_ROW_START + column_of(screen.cursor as int) + 1,
        forall|row: int|
            0 <= row < BUFFER_HEIGHT - 1 ==> #[trigger] screen.write_byte(byte).cells[row]
                == screen.cells[row + 1],
        screen.write_byte(byte).cells[BUFFER_HEIGHT - 1] == Screen::blank_row(
            screen.color_code,
        ).update(column_of(screen.cursor as int), screen.glyph(byte)),
{
}

/// Bytes written one after the other, none of them the end of a line,
/// while the page has room for them: nothing scrolls, and each byte is
/// shown in a cell of its own, the one whose row and column are the
/// quotient and the remainder of its place in the order of writing by the
/// width of the grid. Every other cell stays as it was.
pub proof fn lemma_writes_fill_consecutive_cells(screen: Screen, bytes: Seq<u8>)
    requires
        screen.wf(),
        screen.cursor + bytes.len() <= PAGE_CELLS,
        forall|k: int| 0 <= k < bytes.len() ==> bytes[k] != NEWLINE,
    ensures
        screen.write_bytes(bytes).wf(),
        screen.write_bytes(bytes).color_code == screen.color_code,
        screen.write_bytes(bytes).cursor == screen.cursor + bytes.len(),
        forall|k: int|
            0 <= k < bytes.len() ==> #[trigger] screen.write_bytes(bytes).cell(screen.cursor + k)
                == screen.glyph(bytes[k]),
        forall|place: int|
            0 <= place < PAGE_CELLS && !(screen.cursor <= place < screen.cursor + bytes.len())
                ==> #[trigger] screen.write_bytes(bytes).cell(place) == screen.cell(place),
        forall|j: int, k: int|
            #![trigger row_of(screen.cursor + j), row_of(screen.cursor + k)]
            0 <= j < k < bytes.len() ==> row_of(screen.cursor + j) != row_of(screen.cursor + k)
                || column_of(screen.cursor + j) != column_of(screen.cursor + k),
    decreases bytes.len(),
{
    if bytes.len() > 0 {
        let front = bytes.drop_last();
        let before = screen.write_bytes(front);
        lemma_writes_fill_consecutive_cells(screen, front);
        lemma_put_changes_one_cell(before, bytes.last());
        assert forall|k: int| 0 <= k < bytes.len() implies #[trigger] screen.write_bytes(
            bytes,
        ).cell(screen.cursor + k) == screen.glyph(bytes[k]) by {
            if k < front.len() {
                assert(before.cell(screen.cursor + k) == screen.glyph(front[k]));
            }
        }
    }
}

/// A string without the end of a line, written while the page has room
/// for it: each of its bytes that can be printed is shown as itself, and
/// each other byte as the placeholder, in the cells that follow the write
/// position.
pub proof fn lemma_string_shows_placeholders(screen: Screen, bytes: Seq<u8>)
    requires
        screen.wf(),
        screen.cursor + bytes.len() <= PAGE_CELLS,
        forall|k: int| 0 <= k < bytes.len() ==> bytes[k] != NEWLINE,
    ensures
        screen.write_string(bytes).cursor == screen.cursor + bytes.len(),
        forall|k: int|
            0 <= k < bytes.len() ==> #[trigger] screen.write_string(bytes).cell(
                screen.cursor + k,
            ) == screen.glyph(
                if is_printable(bytes[k]) {
                    bytes[k]
                } else {
                    PLACEHOLDER
                },
            ),
{
    let shown = bytes.map_values(|byte: u8| displayed(byte));
    lemma_writes_fill_consecutive_cells(screen, shown);
}

/// A string with one more byte at its end is written as the string and
/// then the byte, the byte itself where it can be printed or ends a
/// line and the placeholder otherwise. So every byte of a string,
/// wherever it stands in it, is written in this way.
pub proof fn lemma_write_string_byte_by_byte(screen: Screen, bytes: Seq<u8>, byte: u8)
    ensures
        screen.write_string(Seq::<u8>::empty()) == screen,
        screen.write_string(bytes.push(byte)) == screen.write_string(bytes).write_byte(
            displayed(byte),
        ),
        displayed(byte) == if is_printable(byte) || byte == NEWLINE {
            byte
        } else {
            PLACEHOLDER
        },
{
    let shown = bytes.push(byte).map_values(|byte: u8| displayed(byte));
    assert(shown.drop_last() =~= bytes.map_values(|byte: u8| displayed(byte)));
    assert(shown.last() == displayed(byte));
    assert(Seq::<u8>::empty().map_values(|byte: u8| displayed(byte)) =~= Seq::<u8>::empty());
}

/// A byte that can neither be printed nor ends a line is written by
/// `write_string` as the placeholder is written by `write_byte`, wherever
/// the write position stands.
pub proof fn lemma_unprintable_byte_is_replaced(screen: Screen, byte: u8)
    requires
        !is_printable(byte),
        byte != NEWLINE,
    ensures
        screen.write_string(seq![byte]) == screen.write_byte(PLACEHOLDER),
        screen.wf() ==> screen.write_string(seq![byte]).cell(
            screen.write_string(seq![byte]).cursor - 1,
        ).ascii_character == PLACEHOLDER,
{
    let shown = seq![byte].map_values(|byte: u8| displayed(byte));
    assert(shown =~= seq![PLACEHOLDER]);
    assert(shown.drop_last() =~= Seq::<u8>::empty());
    assert(screen.write_bytes(shown.drop_last()) == screen);
    assert(shown.last() == PLACEHOLDER);
}

} // verus!
