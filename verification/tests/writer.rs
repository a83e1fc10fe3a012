use spin::Mutex;
use vga_buffer::{
    Buffer, Cells, Color, ColorCode, ScreenChar, Writer, _print, BUFFER_HEIGHT, BUFFER_WIDTH,
    LINE_FEED, PLACEHOLDER,
};
use volatile::Volatile;

const LAST: usize = BUFFER_HEIGHT - 1;

fn memory(character: u8, attribute: u8) -> &'static mut Cells {
    let cells: Cells =
        std::array::from_fn(|_| std::array::from_fn(|_| Volatile::new([character, attribute])));
    Box::leak(Box::new(cells))
}

fn numbered_memory() -> &'static mut Cells {
    let cells: Cells = std::array::from_fn(|row| {
        std::array::from_fn(|col| Volatile::new([row as u8 + 0x30, col as u8]))
    });
    Box::leak(Box::new(cells))
}

fn writer() -> Writer {
    Writer::new(Buffer::new(memory(0, 0)))
}

fn default_color() -> ColorCode {
    ColorCode::new(Color::Yellow, Color::Black)
}

fn shown(writer: &Writer, row: usize, col: usize) -> ScreenChar {
    writer.char_at(row, col).unwrap()
}

fn row_text(writer: &Writer, row: usize, len: usize) -> Vec<u8> {
    (0..len).map(|col| shown(writer, row, col).ascii_character).collect()
}

fn glyph(character: u8) -> ScreenChar {
    ScreenChar { ascii_character: character, color_code: default_color() }
}

#[test]
fn dimensions_are_80_by_25() {
    assert_eq!(BUFFER_WIDTH, 80);
    assert_eq!(BUFFER_HEIGHT, 25);
    assert_eq!(LINE_FEED, b'\n');
    assert_eq!(PLACEHOLDER, 0xfe);
}

#[test]
fn buffer_reads_what_memory_holds() {
    let buffer = Buffer::new(numbered_memory());
    for row in 0..BUFFER_HEIGHT {
        for col in 0..BUFFER_WIDTH {
            let cell = buffer.read(row, col);
            assert_eq!(cell.ascii_character, row as u8 + 0x30);
            assert_eq!(cell.color_code.value(), col as u8);
        }
    }
}

#[test]
fn buffer_write_changes_one_cell() {
    let mut buffer = Buffer::new(numbered_memory());
    let cell = ScreenChar { ascii_character: b'Z', color_code: ColorCode::from_byte(0x4f) };
    buffer.write(3, 7, cell);
    for row in 0..BUFFER_HEIGHT {
        for col in 0..BUFFER_WIDTH {
            let read = buffer.read(row, col);
            if row == 3 && col == 7 {
                assert_eq!(read, cell);
            } else {
                assert_eq!(read.ascii_character, row as u8 + 0x30);
                assert_eq!(read.color_code.value(), col as u8);
            }
        }
    }
}

#[test]
fn buffer_write_then_read_at_the_corners() {
    let mut buffer = Buffer::new(memory(0, 0));
    let corners = [(0, 0), (0, BUFFER_WIDTH - 1), (LAST, 0), (LAST, BUFFER_WIDTH - 1)];
    for (index, (row, col)) in corners.iter().enumerate() {
        buffer.write(*row, *col, glyph(b'a' + index as u8));
    }
    for (index, (row, col)) in corners.iter().enumerate() {
        assert_eq!(buffer.read(*row, *col), glyph(b'a' + index as u8));
    }
    assert_eq!(buffer.read(1, 1), ScreenChar::from_bytes([0, 0]));
}

#[test]
fn new_writer_starts_at_column_zero_in_yellow_on_black() {
    let writer = Writer::new(Buffer::new(numbered_memory()));
    assert_eq!(writer.column_position(), 0);
    assert_eq!(writer.color_code().value(), 0x0E);
    assert_eq!(shown(&writer, 2, 5), ScreenChar::from_bytes([0x32, 5]));
    assert_eq!(shown(&writer, LAST, 79), ScreenChar::from_bytes([0x30 + 24, 79]));
}

#[test]
fn char_at_is_none_outside_the_display() {
    let writer = writer();
    assert!(writer.char_at(0, 0).is_some());
    assert!(writer.char_at(LAST, BUFFER_WIDTH - 1).is_some());
    assert_eq!(writer.char_at(BUFFER_HEIGHT, 0), None);
    assert_eq!(writer.char_at(0, BUFFER_WIDTH), None);
    assert_eq!(writer.char_at(usize::MAX, usize::MAX), None);
}

#[test]
fn write_byte_places_the_byte_under_the_cursor() {
    let mut writer = writer();
    writer.write_byte(b'A');
    assert_eq!(writer.column_position(), 1);
    assert_eq!(shown(&writer, LAST, 0), glyph(b'A'));
    writer.write_byte(b'B');
    assert_eq!(writer.column_position(), 2);
    assert_eq!(shown(&writer, LAST, 0), glyph(b'A'));
    assert_eq!(shown(&writer, LAST, 1), glyph(b'B'));
    assert_eq!(shown(&writer, LAST, 2), ScreenChar::from_bytes([0, 0]));
    assert_eq!(shown(&writer, LAST - 1, 0), ScreenChar::from_bytes([0, 0]));
}

#[test]
fn write_byte_does_not_substitute() {
    let mut writer = writer();
    writer.write_byte(0x01);
    writer.write_byte(0xff);
    assert_eq!(shown(&writer, LAST, 0).ascii_character, 0x01);
    assert_eq!(shown(&writer, LAST, 1).ascii_character, 0xff);
    assert_eq!(writer.column_position(), 2);
}

#[test]
fn short_line_is_placed_in_order_from_column_zero() {
    let mut writer = writer();
    let text = "The quick brown fox jumps over the lazy dog 0123456789 ~!";
    writer.write_string(text);
    assert_eq!(writer.column_position(), text.len());
    for (col, byte) in text.bytes().enumerate() {
        assert_eq!(shown(&writer, LAST, col), glyph(byte));
    }
    assert_eq!(shown(&writer, LAST, text.len()), ScreenChar::from_bytes([0, 0]));
    assert_eq!(shown(&writer, LAST - 1, 0), ScreenChar::from_bytes([0, 0]));
}

#[test]
fn every_printable_byte_is_placed_unchanged() {
    let mut writer = writer();
    let text: String = (0x20u8..=0x6e).map(|byte| byte as char).collect();
    assert_eq!(text.len(), 79);
    writer.write_string(&text);
    assert_eq!(writer.column_position(), 79);
    for col in 0..79 {
        assert_eq!(shown(&writer, LAST, col), glyph(0x20 + col as u8));
    }
    let mut writer = self::writer();
    let text: String = (0x6fu8..=0x7e).map(|byte| byte as char).collect();
    writer.write_string(&text);
    assert_eq!(writer.column_position(), 16);
    for col in 0..16 {
        assert_eq!(shown(&writer, LAST, col), glyph(0x6f + col as u8));
    }
}

#[test]
fn empty_string_changes_nothing() {
    let mut writer = Writer::new(Buffer::new(numbered_memory()));
    writer.write_string("");
    assert_eq!(writer.column_position(), 0);
    assert_eq!(shown(&writer, LAST, 0), ScreenChar::from_bytes([0x30 + 24, 0]));
    assert_eq!(shown(&writer, 0, 0), ScreenChar::from_bytes([0x30, 0]));
}

#[test]
fn unprintable_bytes_are_stored_as_the_placeholder() {
    let mut writer = writer();
    writer.write_string("\t\r\u{0}\u{1f}\u{7f}");
    assert_eq!(writer.column_position(), 5);
    for col in 0..5 {
        assert_eq!(shown(&writer, LAST, col), glyph(0xfe));
    }
}

#[test]
fn each_byte_of_a_wide_character_becomes_a_placeholder() {
    let mut writer = writer();
    writer.write_string("a\u{e9}b\u{20ac}c");
    assert_eq!(row_text(&writer, LAST, 8), vec![b'a', 0xfe, 0xfe, b'b', 0xfe, 0xfe, 0xfe, b'c']);
    assert_eq!(writer.column_position(), 8);
}

#[test]
fn edges_of_the_printable_range() {
    let mut writer = writer();
    writer.write_string("\u{1f}\u{20}\u{7e}\u{7f}");
    assert_eq!(row_text(&writer, LAST, 4), vec![0xfe, 0x20, 0x7e, 0xfe]);
}

#[test]
fn full_row_does_not_scroll_until_the_next_byte() {
    let mut writer = writer();
    let row = "x".repeat(BUFFER_WIDTH);
    writer.write_string(&row);
    assert_eq!(writer.column_position(), BUFFER_WIDTH);
    assert_eq!(row_text(&writer, LAST, BUFFER_WIDTH), vec![b'x'; BUFFER_WIDTH]);
    assert_eq!(shown(&writer, LAST - 1, 0), ScreenChar::from_bytes([0, 0]));
}

#[test]
fn one_byte_past_a_full_row_scrolls_once() {
    let mut writer = Writer::new(Buffer::new(numbered_memory()));
    let row: String = (0..BUFFER_WIDTH).map(|col| (b'a' + (col % 26) as u8) as char).collect();
    writer.write_string(&row);
    writer.write_string("Z");
    assert_eq!(writer.column_position(), 1);
    assert_eq!(shown(&writer, LAST, 0), glyph(b'Z'));
    for col in 1..BUFFER_WIDTH {
        assert_eq!(shown(&writer, LAST, col), glyph(b' '));
    }
    for col in 0..BUFFER_WIDTH {
        assert_eq!(shown(&writer, LAST - 1, col), glyph(b'a' + (col % 26) as u8));
    }
    for r in 0..LAST - 1 {
        for col in 0..BUFFER_WIDTH {
            assert_eq!(shown(&writer, r, col), ScreenChar::from_bytes([r as u8 + 0x31, col as u8]));
        }
    }
}

#[test]
fn line_feed_resets_the_column_from_anywhere() {
    for start in [0usize, 1, 40, 79, 80] {
        let mut writer = writer();
        writer.write_string(&"q".repeat(start));
        assert_eq!(writer.column_position(), start);
        writer.write_byte(b'\n');
        assert_eq!(writer.column_position(), 0);
        assert_eq!(row_text(&writer, LAST - 1, start), vec![b'q'; start]);
        for col in 0..BUFFER_WIDTH {
            assert_eq!(shown(&writer, LAST, col), glyph(b' '));
        }
    }
}

#[test]
fn line_feed_after_a_full_row_scrolls_once() {
    let mut writer = writer();
    writer.write_string(&"w".repeat(BUFFER_WIDTH));
    writer.write_string("\n");
    assert_eq!(row_text(&writer, LAST - 1, BUFFER_WIDTH), vec![b'w'; BUFFER_WIDTH]);
    assert_eq!(shown(&writer, LAST - 2, 0), ScreenChar::from_bytes([0, 0]));
    assert_eq!(writer.column_position(), 0);
}

#[test]
fn scroll_moves_rows_up_and_blanks_the_last() {
    let mut writer = Writer::new(Buffer::new(numbered_memory()));
    writer.new_line();
    assert_eq!(writer.column_position(), 0);
    for row in 0..LAST {
        for col in 0..BUFFER_WIDTH {
            assert_eq!(
                shown(&writer, row, col),
                ScreenChar::from_bytes([row as u8 + 0x31, col as u8])
            );
        }
    }
    for col in 0..BUFFER_WIDTH {
        assert_eq!(shown(&writer, LAST, col), ScreenChar::from_bytes([0x20, 0x0E]));
    }
}

#[test]
fn scrolling_twice_loses_the_two_top_rows() {
    let mut writer = Writer::new(Buffer::new(numbered_memory()));
    writer.new_line();
    writer.new_line();
    for row in 0..LAST - 1 {
        assert_eq!(shown(&writer, row, 3), ScreenChar::from_bytes([row as u8 + 0x32, 3]));
    }
    assert_eq!(shown(&writer, LAST - 1, 3), glyph(b' '));
    assert_eq!(shown(&writer, LAST, 3), glyph(b' '));
}

#[test]
fn clear_row_blanks_only_that_row() {
    let mut writer = Writer::new(Buffer::new(numbered_memory()));
    writer.write_string("abc");
    writer.clear_row(4);
    assert_eq!(writer.column_position(), 3);
    for col in 0..BUFFER_WIDTH {
        assert_eq!(shown(&writer, 4, col), glyph(b' '));
        assert_eq!(shown(&writer, 3, col), ScreenChar::from_bytes([0x33, col as u8]));
        assert_eq!(shown(&writer, 5, col), ScreenChar::from_bytes([0x35, col as u8]));
    }
    assert_eq!(row_text(&writer, LAST, 3), b"abc".to_vec());
}

#[test]
fn hello_then_world() {
    let mut writer = writer();
    writer.write_string("HELLO\n");
    writer.write_string("WORLD");
    assert_eq!(row_text(&writer, LAST, 5), b"WORLD".to_vec());
    assert_eq!(row_text(&writer, LAST - 1, 5), b"HELLO".to_vec());
    for col in 0..5 {
        assert_eq!(shown(&writer, LAST, col).color_code.value(), 0x0E);
        assert_eq!(shown(&writer, LAST - 1, col).color_code.value(), 0x0E);
    }
    for col in 5..BUFFER_WIDTH {
        assert_eq!(shown(&writer, LAST, col), glyph(b' '));
    }
    assert_eq!(writer.column_position(), 5);
}

#[test]
fn color_change_applies_to_later_bytes_and_blanks() {
    let mut writer = writer();
    writer.write_byte(b'a');
    let white_on_blue = ColorCode::new(Color::White, Color::Blue);
    writer.set_color_code(white_on_blue);
    assert_eq!(writer.color_code(), white_on_blue);
    assert_eq!(writer.column_position(), 1);
    writer.write_byte(b'b');
    assert_eq!(shown(&writer, LAST, 0), glyph(b'a'));
    assert_eq!(shown(&writer, LAST, 1), ScreenChar::from_bytes([b'b', 0x1F]));
    writer.write_byte(b'\n');
    assert_eq!(shown(&writer, LAST - 1, 0), glyph(b'a'));
    assert_eq!(shown(&writer, LAST - 1, 1), ScreenChar::from_bytes([b'b', 0x1F]));
    for col in 0..BUFFER_WIDTH {
        assert_eq!(shown(&writer, LAST, col), ScreenChar::from_bytes([0x20, 0x1F]));
    }
}

#[test]
fn long_text_wraps_row_by_row() {
    let mut writer = writer();
    let text: String = (0..200).map(|i| (b'0' + (i % 10) as u8) as char).collect();
    writer.write_string(&text);
    assert_eq!(writer.column_position(), 40);
    for col in 0..40 {
        assert_eq!(shown(&writer, LAST, col), glyph(b'0' + ((160 + col) % 10) as u8));
    }
    for col in 0..BUFFER_WIDTH {
        assert_eq!(shown(&writer, LAST - 1, col), glyph(b'0' + ((80 + col) % 10) as u8));
        assert_eq!(shown(&writer, LAST - 2, col), glyph(b'0' + (col % 10) as u8));
    }
    assert_eq!(shown(&writer, LAST - 3, 0), ScreenChar::from_bytes([0, 0]));
}

#[test]
fn many_lines_keep_the_last_twenty_four() {
    let mut writer = writer();
    for line in 0..200u32 {
        writer.write_string(&format!("line {}\n", line));
    }
    assert_eq!(writer.column_position(), 0);
    for row in 0..LAST {
        let expected = format!("line {}", 200 - LAST + row);
        assert_eq!(row_text(&writer, row, expected.len()), expected.into_bytes());
    }
    for col in 0..BUFFER_WIDTH {
        assert_eq!(shown(&writer, LAST, col), glyph(b' '));
    }
}

#[test]
fn write_str_writes_and_succeeds() {
    let mut writer = writer();
    assert!(writer.write_str("ok\u{80}").is_ok());
    assert_eq!(row_text(&writer, LAST, 4), vec![b'o', b'k', 0xfe, 0xfe]);
    assert_eq!(writer.column_position(), 4);
}

#[test]
fn print_writes_through_the_lock() {
    let shared = Mutex::new(writer());
    _print(&shared, "Some test string that fits on a single line");
    _print(&shared, "\n");
    _print(&shared, "next");
    let writer = shared.lock();
    let text = "Some test string that fits on a single line";
    assert_eq!(row_text(&writer, LAST - 1, text.len()), text.as_bytes().to_vec());
    assert_eq!(row_text(&writer, LAST, 4), b"next".to_vec());
    assert_eq!(writer.column_position(), 4);
}

#[test]
fn print_releases_the_lock() {
    let shared = Mutex::new(writer());
    _print(&shared, "a");
    assert!(shared.try_lock().is_some());
    _print(&shared, "b");
    let writer = shared.into_inner();
    assert_eq!(row_text(&writer, LAST, 2), b"ab".to_vec());
}
