use mythic_os::vga_buffer::{Color, ColorCode, Writer, BUFFER_HEIGHT, BUFFER_WIDTH, CURSOR_GLYPH};

fn cell_char(w: &Writer, row: usize, col: usize) -> u8 {
    w.buffer[row * BUFFER_WIDTH + col].ascii_char
}

fn row_text(w: &Writer, row: usize, len: usize) -> Vec<u8> {
    let mut out = Vec::new();
    for col in 0..len {
        out.push(cell_char(w, row, col));
    }
    out
}

#[test]
fn fresh_writer_is_blank() {
    let w = Writer::new();
    assert_eq!(w.column_position, 0);
    assert_eq!(w.selected_pos, 0);
    assert_eq!(w.line_interval, 0);
    assert!(!w.line);
    assert_eq!(w.color_code.0, 2);
    assert_eq!(w.buffer.len(), BUFFER_HEIGHT * BUFFER_WIDTH);
    for i in 0..BUFFER_HEIGHT * BUFFER_WIDTH {
        assert_eq!(w.buffer[i].ascii_char, 0);
    }
}

#[test]
fn color_codes_pack_background_over_foreground() {
    assert_eq!(Color::White.code(), 15);
    assert_eq!(Color::Black.code(), 0);
    assert_eq!(ColorCode::new(Color::Green, Color::Black).0, 0x02);
    assert_eq!(ColorCode::new(Color::White, Color::Blue).0, 0x1f);
    assert_eq!(ColorCode::new(Color::Yellow, Color::Red).0, 0x4e);
}

#[test]
fn write_byte_places_byte_and_cursor() {
    let mut w = Writer::new();
    w.write_byte(b'a');
    assert_eq!(cell_char(&w, 24, 0), b'a');
    assert_eq!(w.column_position, 1);
    assert_eq!(w.selected_pos, 1);
    assert_eq!(cell_char(&w, 24, 1), CURSOR_GLYPH);
    assert_eq!(w.line_interval, 3);
}

#[test]
fn write_string_substitutes_unprintable_bytes() {
    let mut w = Writer::new();
    w.write_string(&[b'a', 0x01, 0x9c, b'b']);
    assert_eq!(cell_char(&w, 24, 0), b'a');
    assert_eq!(cell_char(&w, 24, 1), 0xfe);
    assert_eq!(cell_char(&w, 24, 2), 0xfe);
    assert_eq!(cell_char(&w, 24, 3), b'b');
    assert_eq!(w.column_position, 4);
}

#[test]
fn newline_shifts_rows_up() {
    let mut w = Writer::new();
    w.write_string(b"abc\n");
    assert_eq!(row_text(&w, 23, 3), b"abc".to_vec());
    assert_eq!(w.column_position, 0);
    assert_eq!(cell_char(&w, 24, 0), CURSOR_GLYPH);
    // The old bottom row is cleared apart from the redrawn cursor glyph.
    for col in 1..BUFFER_WIDTH {
        assert_eq!(cell_char(&w, 24, col), 0);
    }
}

#[test]
fn write_at_width_shifts_exactly_once() {
    let mut w = Writer::new();
    for _ in 0..BUFFER_WIDTH {
        w.write_byte(b'a');
    }
    assert_eq!(w.column_position, BUFFER_WIDTH);
    w.write_byte(b'b');
    // One shift: the row of eighty 'a's moved up, 'b' sits at column 0.
    assert_eq!(row_text(&w, 23, 80), vec![b'a'; 80]);
    assert_eq!(cell_char(&w, 24, 0), b'b');
    assert_eq!(w.column_position, 1);
    assert_eq!(cell_char(&w, 24, 1), CURSOR_GLYPH);
    // Row 22 is still blank: no second shift happened.
    assert_eq!(row_text(&w, 22, 80), vec![0u8; 80]);
}

#[test]
fn glyph_never_persists_at_a_stale_column() {
    let mut w = Writer::new();
    // The first newline draws the glyph at column 0 of the bottom row; the
    // second must erase it there before shifting, so no glyph byte ever
    // survives into the scrolled-up rows.
    w.write_byte(b'\n');
    assert_eq!(cell_char(&w, 24, 0), CURSOR_GLYPH);
    w.write_byte(b'\n');
    assert_eq!(cell_char(&w, 23, 0), 0);
    assert_eq!(cell_char(&w, 24, 0), CURSOR_GLYPH);
    // Likewise a write over column 0 erases before placing the byte.
    w.write_byte(b'x');
    assert_eq!(cell_char(&w, 24, 0), b'x');
    assert_eq!(cell_char(&w, 24, 1), CURSOR_GLYPH);
}

#[test]
fn newline_at_full_column_shifts_once_only() {
    let mut w = Writer::new();
    for _ in 0..BUFFER_WIDTH {
        w.write_byte(b'a');
    }
    w.write_byte(b'\n');
    assert_eq!(row_text(&w, 23, 80), vec![b'a'; 80]);
    assert_eq!(row_text(&w, 22, 80), vec![0u8; 80]);
    assert_eq!(w.column_position, 0);
}

#[test]
fn written_cells_carry_the_writer_attribute() {
    let mut w = Writer::new();
    w.write_byte(b'a');
    // Green on black.
    assert_eq!(w.buffer[24 * BUFFER_WIDTH].color.0, 0x02);
}

#[test]
fn delete_last_char_erases_and_backs_up() {
    let mut w = Writer::new();
    w.write_string(b"> abc");
    assert_eq!(w.column_position, 5);
    w.delete_last_char();
    assert_eq!(w.column_position, 4);
    assert_eq!(cell_char(&w, 24, 4), CURSOR_GLYPH);
    assert_eq!(cell_char(&w, 24, 3), b'b');
}

#[test]
fn delete_last_char_never_goes_below_floor() {
    let mut w = Writer::new();
    w.write_string(b"> abc");
    for _ in 0..50 {
        w.delete_last_char();
        assert!(w.column_position >= 2);
    }
    assert_eq!(w.column_position, 2);
}

#[test]
fn delete_last_char_pins_column_at_floor_from_below() {
    let mut w = Writer::new();
    assert_eq!(w.column_position, 0);
    w.delete_last_char();
    assert_eq!(w.column_position, 2);
}

#[test]
fn blink_toggles_every_ten_ticks_and_never_twice_per_call() {
    let mut w = Writer::new();
    assert!(!w.line);
    for tick in 1..=10 {
        w.update_line();
        assert!(!w.line, "toggled early at tick {}", tick);
        assert_eq!(w.line_interval, tick);
    }
    w.update_line();
    assert!(w.line);
    assert_eq!(w.line_interval, 0);
    assert_eq!(cell_char(&w, 24, 0), CURSOR_GLYPH);
    for tick in 1..=10 {
        w.update_line();
        assert!(w.line, "toggled early at tick {}", tick);
    }
    w.update_line();
    assert!(!w.line);
    assert_eq!(w.line_interval, 0);
    assert_eq!(cell_char(&w, 24, 0), 0);
}

#[test]
fn get_last_line_copies_bottom_row_prefix() {
    let mut w = Writer::new();
    w.write_string(b"> hi");
    let mut buf = vec![7u8; 80];
    w.get_last_line(&mut buf);
    assert_eq!(&buf[0..4], b"> hi");
    // Bytes past the column are left as the caller provided them.
    assert_eq!(buf[4], 7);
    assert_eq!(buf[79], 7);
}
