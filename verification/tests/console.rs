use vga_console::Color;
use vga_console::ColorCode;
use vga_console::Writer;
use vga_console::BUFFER_HEIGHT;
use vga_console::BUFFER_WIDTH;

const COLORS: [Color; 16] = [
    Color::Black,
    Color::Blue,
    Color::Green,
    Color::Cyan,
    Color::Red,
    Color::Magenta,
    Color::Brown,
    Color::LightGray,
    Color::DarkGray,
    Color::LightBlue,
    Color::LightGreen,
    Color::LightCyan,
    Color::LightRed,
    Color::Pink,
    Color::Yellow,
    Color::White,
];

fn char_at(w: &Writer, row: usize, col: usize) -> u8 {
    w.buffer.read(row, col).ascii_character
}

fn attr_at(w: &Writer, row: usize, col: usize) -> u8 {
    w.buffer.read(row, col).color_code.0
}

fn fresh() -> Writer {
    Writer::new(Color::Yellow, Color::Black)
}

#[test]
fn color_codes_run_zero_to_fifteen() {
    for (i, c) in COLORS.iter().enumerate() {
        assert_eq!(c.code(), i as u8);
    }
}

#[test]
fn encoding_decodes_to_both_nibbles() {
    for fg in COLORS.iter() {
        for bg in COLORS.iter() {
            let packed = ColorCode::new(*fg, *bg).0;
            assert_eq!(packed >> 4, bg.code());
            assert_eq!(packed & 0x0F, fg.code());
        }
    }
}

#[test]
fn encoding_exact_values() {
    assert_eq!(ColorCode::new(Color::Yellow, Color::Black).0, 0x0E);
    assert_eq!(ColorCode::new(Color::White, Color::Blue).0, 0x1F);
    assert_eq!(ColorCode::new(Color::Black, Color::White).0, 0xF0);
    assert_eq!(ColorCode::new(Color::LightGray, Color::Red).0, 0x47);
}

#[test]
fn fresh_writer_is_blank() {
    let w = fresh();
    assert_eq!(w.column_position, 0);
    assert_eq!(w.color_code.0, 0x0E);
    for row in 0..BUFFER_HEIGHT {
        for col in 0..BUFFER_WIDTH {
            assert_eq!(char_at(&w, row, col), b' ');
            assert_eq!(attr_at(&w, row, col), 0x0E);
        }
    }
}

#[test]
fn printable_bytes_pass_through() {
    for byte in 0x20u8..=0x7E {
        let mut w = fresh();
        w.write_byte(byte);
        assert_eq!(char_at(&w, BUFFER_HEIGHT - 1, 0), byte);
        assert_eq!(attr_at(&w, BUFFER_HEIGHT - 1, 0), 0x0E);
        assert_eq!(w.column_position, 1);
    }
}

#[test]
fn printable_bytes_pass_through_strings() {
    for byte in 0x20u8..=0x7E {
        let mut w = fresh();
        let s = String::from_utf8(vec![byte]).unwrap();
        w.write_string(&s);
        assert_eq!(char_at(&w, BUFFER_HEIGHT - 1, 0), byte);
    }
}

#[test]
fn control_bytes_become_placeholder() {
    for byte in 0x00u8..0x20 {
        if byte == b'\n' {
            continue;
        }
        let mut w = fresh();
        let s = String::from_utf8(vec![byte]).unwrap();
        w.write_string(&s);
        assert_eq!(char_at(&w, BUFFER_HEIGHT - 1, 0), 0xFE);
    }
    let mut w = fresh();
    w.write_string("\x7F");
    assert_eq!(char_at(&w, BUFFER_HEIGHT - 1, 0), 0xFE);
}

#[test]
fn multi_byte_characters_become_placeholders() {
    // Every byte of a multi-byte encoded character lies outside 0x20..=0x7E,
    // so each one renders as the placeholder glyph.
    let mut w = fresh();
    w.write_string("ä");
    assert_eq!("ä".len(), 2);
    assert_eq!(char_at(&w, BUFFER_HEIGHT - 1, 0), 0xFE);
    assert_eq!(char_at(&w, BUFFER_HEIGHT - 1, 1), 0xFE);
    assert_eq!(w.column_position, 2);
}

#[test]
fn wrap_after_full_line() {
    let mut w = fresh();
    let line = "a".repeat(BUFFER_WIDTH);
    w.write_string(&line);
    assert_eq!(w.column_position, BUFFER_WIDTH);
    for col in 0..BUFFER_WIDTH {
        assert_eq!(char_at(&w, BUFFER_HEIGHT - 1, col), b'a');
    }
    w.write_byte(b'b');
    // The extra byte lands at column 0 of a fresh bottom row and the full
    // row has shifted up by one.
    assert_eq!(char_at(&w, BUFFER_HEIGHT - 1, 0), b'b');
    assert_eq!(w.column_position, 1);
    for col in 0..BUFFER_WIDTH {
        assert_eq!(char_at(&w, BUFFER_HEIGHT - 2, col), b'a');
    }
    for col in 1..BUFFER_WIDTH {
        assert_eq!(char_at(&w, BUFFER_HEIGHT - 1, col), b' ');
    }
}

#[test]
fn scroll_discards_top_and_shifts_rows() {
    let mut w = fresh();
    // Fill every row with its own distinct content.
    for i in 0..BUFFER_HEIGHT {
        w.write_string(&format!("row{:02}", i));
        if i + 1 < BUFFER_HEIGHT {
            w.write_byte(b'\n');
        }
    }
    for i in 0..BUFFER_HEIGHT {
        let expected = format!("row{:02}", i);
        for (j, b) in expected.bytes().enumerate() {
            assert_eq!(char_at(&w, i, j), b);
        }
    }
    // One more newline: row 0 is discarded, everything moves up one row,
    // and the new bottom row is blank.
    w.write_byte(b'\n');
    for i in 0..BUFFER_HEIGHT - 1 {
        let expected = format!("row{:02}", i + 1);
        for (j, b) in expected.bytes().enumerate() {
            assert_eq!(char_at(&w, i, j), b);
        }
    }
    for col in 0..BUFFER_WIDTH {
        assert_eq!(char_at(&w, BUFFER_HEIGHT - 1, col), b' ');
    }
    assert_eq!(w.column_position, 0);
}

#[test]
fn hello_world_scenario() {
    let mut w = fresh();
    w.write_string("Hello");
    w.write_string(" World!");
    let expected = b"Hello World!";
    for (col, b) in expected.iter().enumerate() {
        assert_eq!(char_at(&w, BUFFER_HEIGHT - 1, col), *b);
        assert_eq!(attr_at(&w, BUFFER_HEIGHT - 1, col), 0x0E);
    }
    for col in expected.len()..BUFFER_WIDTH {
        assert_eq!(char_at(&w, BUFFER_HEIGHT - 1, col), b' ');
        assert_eq!(attr_at(&w, BUFFER_HEIGHT - 1, col), 0x0E);
    }
    assert_eq!(w.column_position, 12);
}

#[test]
fn consecutive_requests_equal_one_concatenated_request() {
    let mut split = fresh();
    split.write_string("first block\n");
    split.write_string("second block");
    let mut joined = fresh();
    joined.write_string("first block\nsecond block");
    assert_eq!(split.column_position, joined.column_position);
    for row in 0..BUFFER_HEIGHT {
        for col in 0..BUFFER_WIDTH {
            assert_eq!(split.buffer.read(row, col), joined.buffer.read(row, col));
        }
    }
}

#[test]
fn clear_row_blanks_exactly_one_row() {
    let mut w = fresh();
    for _ in 0..3 {
        w.write_string(&"x".repeat(BUFFER_WIDTH));
    }
    w.clear_row(BUFFER_HEIGHT - 2);
    for col in 0..BUFFER_WIDTH {
        assert_eq!(char_at(&w, BUFFER_HEIGHT - 2, col), b' ');
        assert_eq!(char_at(&w, BUFFER_HEIGHT - 3, col), b'x');
        assert_eq!(char_at(&w, BUFFER_HEIGHT - 1, col), b'x');
    }
}

#[test]
fn new_line_resets_column() {
    let mut w = fresh();
    w.write_string("abc");
    assert_eq!(w.column_position, 3);
    w.new_line();
    assert_eq!(w.column_position, 0);
    assert_eq!(char_at(&w, BUFFER_HEIGHT - 2, 0), b'a');
    assert_eq!(char_at(&w, BUFFER_HEIGHT - 2, 1), b'b');
    assert_eq!(char_at(&w, BUFFER_HEIGHT - 2, 2), b'c');
}

#[test]
fn many_lines_keep_writer_sane() {
    let mut w = fresh();
    for _ in 0..200 {
        w.write_string("many lines output\n");
    }
    assert_eq!(w.column_position, 0);
    let expected = b"many lines output";
    for (col, b) in expected.iter().enumerate() {
        assert_eq!(char_at(&w, BUFFER_HEIGHT - 2, col), *b);
    }
    for col in 0..BUFFER_WIDTH {
        assert_eq!(char_at(&w, BUFFER_HEIGHT - 1, col), b' ');
    }
}

#[test]
fn print_entry_point_renders_text() {
    let mut w = fresh();
    vga_console::_print(&mut w, "Some test string that fits on a single line\n");
    let expected = b"Some test string that fits on a single line";
    for (col, b) in expected.iter().enumerate() {
        assert_eq!(char_at(&w, BUFFER_HEIGHT - 2, col), *b);
    }
    assert_eq!(w.column_position, 0);
}
