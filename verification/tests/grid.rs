use vga_buffer::buffer::{read_cell, write_cell};
use vga_buffer::{Buffer, Color, ColorCode, ScreenChar, Writer, BUFFER_HEIGHT, BUFFER_WIDTH};
use volatile::Volatile;

fn empty_buffer() -> Buffer {
    core::array::from_fn(|_| core::array::from_fn(|_| Volatile::new(0u16)))
}

fn white_on_red() -> ColorCode {
    ColorCode::new(Color::White, Color::Red)
}

fn shown(byte: u8) -> Option<ScreenChar> {
    Some(ScreenChar { ascii_character: byte, color_code: white_on_red() })
}

fn grid(writer: &Writer) -> Vec<Option<ScreenChar>> {
    let mut cells = Vec::new();
    for row in 0..BUFFER_HEIGHT {
        for col in 0..BUFFER_WIDTH {
            cells.push(writer.cell(row, col));
        }
    }
    cells
}

/// Where the unbounded integers put the write position after the end of
/// a line, taken modulo the page.
fn unbounded_row_start(cursor: usize) -> usize {
    let cursor = cursor as u128;
    let start = cursor - cursor % 80 + 80;
    (start % 2000) as usize
}

#[test]
fn writes_fill_cells_in_order() {
    let mut buffer = empty_buffer();
    let mut writer = Writer::new(&mut buffer, white_on_red());
    for place in 0..200usize {
        writer.write_byte(0x21 + (place % 90) as u8);
    }
    assert_eq!(writer.char_numbers(), 200);
    for place in 0..200usize {
        assert_eq!(
            writer.cell(place / BUFFER_WIDTH, place % BUFFER_WIDTH),
            shown(0x21 + (place % 90) as u8)
        );
    }
    for place in 200..2000usize {
        assert_eq!(writer.cell(place / BUFFER_WIDTH, place % BUFFER_WIDTH), shown(b' '));
    }
}

#[test]
fn one_write_changes_one_cell() {
    let mut buffer = empty_buffer();
    let mut writer = Writer::new(&mut buffer, white_on_red());
    writer.write_string("some text\nand more");
    let before = grid(&writer);
    let place = writer.char_numbers();
    assert_eq!(place, 88);
    writer.write_byte(b'Z');
    let after = grid(&writer);
    for index in 0..2000usize {
        if index == place {
            assert_eq!(after[index], shown(b'Z'));
        } else {
            assert_eq!(after[index], before[index]);
        }
    }
    assert_eq!(writer.char_numbers(), 89);
}

#[test]
fn scroll_moves_each_row_up() {
    let mut buffer = empty_buffer();
    let mut writer = Writer::new(&mut buffer, white_on_red());
    for place in 0..2000usize {
        writer.write_byte(0x21 + ((place * 7 + place / 80) % 94) as u8);
    }
    let before = grid(&writer);
    writer.write_byte(b'\n');
    let after = grid(&writer);
    for row in 0..BUFFER_HEIGHT - 1 {
        for col in 0..BUFFER_WIDTH {
            assert_eq!(after[row * 80 + col], before[(row + 1) * 80 + col]);
        }
    }
    for col in 0..BUFFER_WIDTH {
        assert_eq!(after[24 * 80 + col], shown(b' '));
    }
}

#[test]
fn newline_near_the_largest_counter_keeps_the_position() {
    for back in [0usize, 5, 79, 80, 1000, 1999, 2000] {
        let start = usize::MAX - back;
        let mut buffer = empty_buffer();
        let mut writer = Writer::new(&mut buffer, white_on_red());
        writer.write_string("top");
        drop(writer);
        let mut writer = Writer::attach(&mut buffer, white_on_red(), start);
        writer.write_byte(b'\n');
        let expected = unbounded_row_start(start);
        if expected == 0 || expected == 1920 {
            assert_eq!(writer.char_numbers(), 1920);
            assert_eq!(writer.cell(0, 0), shown(b' '));
        } else {
            assert_eq!(writer.char_numbers(), expected);
            assert_eq!(writer.cell(0, 0), shown(b't'));
        }
        assert_eq!(writer.char_numbers() % BUFFER_WIDTH, 0);
    }
}

#[test]
fn newline_near_the_largest_counter_on_a_64_bit_machine() {
    if usize::BITS == 64 {
        let mut buffer = empty_buffer();
        let mut writer = Writer::attach(&mut buffer, white_on_red(), usize::MAX - 5);
        writer.write_byte(b'\n');
        assert_eq!(writer.char_numbers(), 1680);

        let mut writer = Writer::attach(&mut buffer, white_on_red(), usize::MAX);
        writer.write_byte(b'\n');
        assert_eq!(writer.char_numbers(), 1680);

        let mut writer = Writer::new(&mut buffer, white_on_red());
        writer.write_string("gone");
        drop(writer);
        let mut writer = Writer::attach(&mut buffer, white_on_red(), usize::MAX - 1715);
        writer.write_byte(b'\n');
        assert_eq!(writer.char_numbers(), 1920);
        assert_eq!(writer.cell(0, 0), shown(b' '));

        let mut writer = Writer::attach(&mut buffer, white_on_red(), usize::MAX - 1616);
        writer.write_byte(b'\n');
        assert_eq!(writer.char_numbers(), 1920);
    }
}

#[test]
fn newline_on_a_large_counter_below_the_guard_scrolls() {
    let mut buffer = empty_buffer();
    let mut writer = Writer::new(&mut buffer, white_on_red());
    writer.write_string("gone\nkept");
    drop(writer);
    let mut writer = Writer::attach(&mut buffer, white_on_red(), usize::MAX - 2001);
    writer.write_byte(b'\n');
    assert_eq!(writer.char_numbers(), 1920);
    assert_eq!(writer.cell(0, 0), shown(b'k'));
}

#[test]
fn byte_near_the_largest_counter_goes_to_the_last_row() {
    let mut buffer = empty_buffer();
    let start = usize::MAX;
    let mut writer = Writer::attach(&mut buffer, white_on_red(), start);
    writer.write_byte(b'm');
    let col = start % BUFFER_WIDTH;
    assert_eq!(writer.cell(24, col), shown(b'm'));
    assert_eq!(writer.char_numbers(), 1920 + col + 1);
}

#[test]
fn unprintable_bytes_show_the_placeholder() {
    let mut buffer = empty_buffer();
    let mut writer = Writer::new(&mut buffer, white_on_red());
    writer.write_string("a\t\u{7f}\u{1f}\u{0}~ ");
    assert_eq!(writer.cell(0, 0), shown(b'a'));
    assert_eq!(writer.cell(0, 1), shown(0xfe));
    assert_eq!(writer.cell(0, 2), shown(0xfe));
    assert_eq!(writer.cell(0, 3), shown(0xfe));
    assert_eq!(writer.cell(0, 4), shown(0xfe));
    assert_eq!(writer.cell(0, 5), shown(b'~'));
    assert_eq!(writer.cell(0, 6), shown(b' '));
    assert_eq!(writer.char_numbers(), 7);
}

#[test]
fn each_byte_of_a_wide_character_shows_the_placeholder() {
    let mut buffer = empty_buffer();
    let mut writer = Writer::new(&mut buffer, white_on_red());
    writer.write_string("\u{e9}\u{65e5}!");
    for col in 0..5 {
        assert_eq!(writer.cell(0, col), shown(0xfe));
    }
    assert_eq!(writer.cell(0, 5), shown(b'!'));
    assert_eq!(writer.char_numbers(), 6);
}

#[test]
fn write_byte_shows_the_byte_it_is_given() {
    let mut buffer = empty_buffer();
    let mut writer = Writer::new(&mut buffer, white_on_red());
    writer.write_byte(0x09);
    writer.write_byte(0xfe);
    writer.write_byte(0xff);
    assert_eq!(writer.cell(0, 0), shown(0x09));
    assert_eq!(writer.cell(0, 1), shown(0xfe));
    assert_eq!(writer.cell(0, 2), shown(0xff));
}

#[test]
fn clearing_a_row_twice_is_clearing_it_once() {
    let mut buffer = empty_buffer();
    let mut writer = Writer::new(&mut buffer, white_on_red());
    for place in 0..400usize {
        writer.write_byte(b'a' + (place % 26) as u8);
    }
    let before = grid(&writer);
    writer.clear_row(2);
    let once = grid(&writer);
    writer.clear_row(2);
    let twice = grid(&writer);
    assert_eq!(once, twice);
    for index in 0..2000usize {
        if index / 80 == 2 {
            assert_eq!(once[index], shown(b' '));
        } else {
            assert_eq!(once[index], before[index]);
        }
    }
    assert_eq!(writer.char_numbers(), 400);
}

#[test]
fn color_code_packs_background_above_foreground() {
    assert_eq!(ColorCode::new(Color::Green, Color::Black), ColorCode(0x02));
    assert_eq!(ColorCode::new(Color::Yellow, Color::Blue), ColorCode(0x1e));
    assert_eq!(ColorCode::new(Color::White, Color::Red), ColorCode(0x4f));
    assert_eq!(ColorCode::new(Color::Black, Color::White), ColorCode(0xf0));
    assert_eq!(ColorCode::new(Color::White, Color::White), ColorCode(0xff));
}

#[test]
fn colors_count_from_black_to_white() {
    let palette = [
        Color::Black,
        Color::Blue,
        Color::Green,
        Color::Cyan,
        Color::Red,
        Color::Magenta,
        Color::Brown,
        Color::LightGray,
        Color::DarkGray,
        Color::LightBlue,
        Color::LightGreen,
        Color::LightCyan,
        Color::LightRed,
        Color::Pink,
        Color::Yellow,
        Color::White,
    ];
    for (index, color) in palette.iter().enumerate() {
        assert_eq!(color.to_index(), index as u8);
    }
}

#[test]
fn cell_and_word_stand_one_for_one() {
    let cell = ScreenChar { ascii_character: b'H', color_code: ColorCode(0x02) };
    assert_eq!(cell.to_word(), 0x0248);
    assert_eq!(ScreenChar::from_word(0x0248), cell);
    assert_eq!(
        ScreenChar::from_word(0x1e41),
        ScreenChar { ascii_character: 0x41, color_code: ColorCode(0x1e) }
    );
    assert_eq!(ScreenChar::from_word(0xfffe).to_word(), 0xfffe);
    assert_eq!(ScreenChar::from_word(0).to_word(), 0);
}

#[test]
fn grid_cells_are_read_as_written() {
    let mut buffer = empty_buffer();
    let cell = ScreenChar { ascii_character: b'w', color_code: ColorCode(0x4f) };
    write_cell(&mut buffer, 3, 4, cell);
    assert_eq!(read_cell(&buffer, 3, 4), cell);
    assert_eq!(buffer[3][4].read(), 0x4f77);
    assert_eq!(read_cell(&buffer, 3, 5), ScreenChar::from_word(0));
    assert_eq!(read_cell(&buffer, 4, 4), ScreenChar::from_word(0));
}

#[test]
fn released_grid_holds_what_was_shown() {
    let mut buffer = empty_buffer();
    let mut writer = Writer::new(&mut buffer, white_on_red());
    writer.write_string("ok");
    let released = writer.into_buffer();
    assert_eq!(read_cell(released, 0, 0), shown(b'o').unwrap());
    assert_eq!(read_cell(released, 0, 1), shown(b'k').unwrap());
    assert_eq!(released[0][2].read(), 0x4f20);
    write_cell(released, 0, 2, shown(b'!').unwrap());
    assert_eq!(buffer[0][2].read(), 0x4f21);
}
