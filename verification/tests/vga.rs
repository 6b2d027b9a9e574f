use frame_os::vga_buffer::{color, Color, ColorCode, FullBuffer, ScreenChar, VertDir};
use frame_os::vga_textmode::Writer;

const WHITE_ON_BLACK: u8 = 0x0f;

#[test]
fn color_packing_formula() {
    assert_eq!(color(Color::White, Color::Black), 0x0f);
    assert_eq!(color(Color::LightRed, Color::Blue), 0x1c);
    assert_eq!(color(Color::Black, Color::White), 0xf0);
    assert_eq!(ColorCode::new(Color::Yellow, Color::Green), ColorCode(0x2e));
}

#[test]
fn screen_char_holds_its_fields() {
    let sc = ScreenChar::new(b'Q', ColorCode(0x1c));
    assert_eq!(sc.ascii_character, b'Q');
    assert_eq!(sc.color_code, ColorCode(0x1c));
}

#[test]
fn write_byte_then_newline() {
    let mut w = Writer::new();
    w.write_byte(b'A');
    let cell = w.char_at(0, 0);
    assert_eq!(cell.ascii_character, b'A');
    assert_eq!(cell.color_code.0, WHITE_ON_BLACK);
    assert_eq!(w.cursor_row(), 0);
    assert_eq!(w.cursor_col(), 1);
    w.write_byte(b'\n');
    assert_eq!(w.cursor_row(), 1);
    assert_eq!(w.cursor_col(), 0);
    // the cell written before the newline is still there
    assert_eq!(w.char_at(0, 0).ascii_character, b'A');
}

#[test]
fn carriage_return_only_resets_column() {
    let mut w = Writer::new();
    w.write_byte(b'A');
    w.write_byte(b'B');
    w.write_byte(b'\r');
    assert_eq!(w.cursor_row(), 0);
    assert_eq!(w.cursor_col(), 0);
    assert_eq!(w.char_at(0, 1).ascii_character, b'B');
}

#[test]
fn non_printable_byte_becomes_placeholder() {
    let mut w = Writer::new();
    w.write_byte(0x01);
    assert_eq!(w.char_at(0, 0).ascii_character, 0xfe);
    w.write_byte(0x7f);
    assert_eq!(w.char_at(0, 1).ascii_character, 0xfe);
}

#[test]
fn markup_sets_foreground() {
    let mut w = Writer::new();
    w.write_string("&cX");
    let cell = w.char_at(0, 0);
    assert_eq!(cell.ascii_character, b'X');
    // foreground index 12 (LightRed), background unchanged (Black)
    assert_eq!(cell.color_code.0, 0x0c);
    let (fg, bg) = w.colors();
    assert_eq!(fg, Color::LightRed);
    assert_eq!(bg, Color::Black);
    // the marker and the digit produced no visible cell
    assert_eq!(w.cursor_col(), 1);
    assert_eq!(w.char_at(0, 1).ascii_character, b' ');
}

#[test]
fn markup_sets_background() {
    let mut w = Writer::new();
    w.write_string("%4X");
    let cell = w.char_at(0, 0);
    assert_eq!(cell.ascii_character, b'X');
    assert_eq!(cell.color_code.0, 0x4f);
    let (fg, bg) = w.colors();
    assert_eq!(fg, Color::White);
    assert_eq!(bg, Color::Red);
}

#[test]
fn markup_invalid_digit_falls_back_to_literal() {
    let mut w = Writer::new();
    w.write_string("&zX");
    assert_eq!(w.char_at(0, 0).ascii_character, b'&');
    assert_eq!(w.char_at(0, 1).ascii_character, b'z');
    assert_eq!(w.char_at(0, 2).ascii_character, b'X');
    let (fg, bg) = w.colors();
    assert_eq!(fg, Color::White);
    assert_eq!(bg, Color::Black);
    assert_eq!(w.char_at(0, 0).color_code.0, WHITE_ON_BLACK);
}

#[test]
fn markup_marker_after_failed_marker_is_a_marker() {
    let mut w = Writer::new();
    // the first marker fails on '&', which is itself a marker and then
    // takes 'c' as its digit
    w.write_string("&&cX");
    assert_eq!(w.char_at(0, 0).ascii_character, b'&');
    assert_eq!(w.char_at(0, 1).ascii_character, b'X');
    assert_eq!(w.char_at(0, 1).color_code.0, 0x0c);
}

#[test]
fn markup_trailing_marker_is_swallowed() {
    let mut w = Writer::new();
    w.write_string("A&");
    assert_eq!(w.char_at(0, 0).ascii_character, b'A');
    assert_eq!(w.cursor_col(), 1);
    let (fg, _) = w.colors();
    assert_eq!(fg, Color::White);
}

#[test]
fn auto_wrap_at_end_of_row() {
    let mut w = Writer::new();
    for _ in 0..80 {
        w.write_byte(b'x');
    }
    assert_eq!(w.cursor_row(), 1);
    assert_eq!(w.cursor_col(), 0);
    assert_eq!(w.char_at(0, 79).ascii_character, b'x');
}

#[test]
fn scroll_within_capacity_keeps_cells() {
    let mut w = Writer::new();
    w.write_byte(b'A');
    for _ in 0..30 {
        w.write_byte(b'\n');
    }
    // more rows than the visible 25, fewer than the capacity 124:
    // only the cursor and the window moved
    assert_eq!(w.cursor_row(), 30);
    assert_eq!(w.window_offset(), 6);
    // every previously written cell is still retrievable
    assert_eq!(w.char_at(0, 0).ascii_character, b'A');
}

#[test]
fn eviction_past_capacity_discards_oldest_row() {
    let mut w = Writer::new();
    w.write_string("AB");
    for _ in 0..123 {
        w.write_byte(b'\n');
    }
    // at the last row of the store now
    assert_eq!(w.cursor_row(), 123);
    assert_eq!(w.window_offset(), 99);
    assert_eq!(w.char_at(0, 0).ascii_character, b'A');
    // one more newline exceeds the capacity: the oldest row is gone
    w.write_byte(b'\n');
    assert_eq!(w.cursor_row(), 123);
    assert_eq!(w.window_offset(), 99);
    assert_eq!(w.char_at(0, 0).ascii_character, b' ');
    // the store still holds exactly its 124 rows: the last one is blank
    assert_eq!(w.char_at(123, 0).ascii_character, b' ');
}

#[test]
fn cursor_left_wraps_to_previous_row() {
    let mut w = Writer::new();
    w.write_byte(b'\n');
    assert_eq!(w.cursor_row(), 1);
    assert_eq!(w.cursor_col(), 0);
    w.move_cursor_left(true);
    assert_eq!(w.cursor_row(), 0);
    assert_eq!(w.cursor_col(), 79);
}

#[test]
fn cursor_left_without_wrap_clamps() {
    let mut w = Writer::new();
    w.write_byte(b'\n');
    w.move_cursor_left(false);
    assert_eq!(w.cursor_row(), 1);
    assert_eq!(w.cursor_col(), 0);
}

#[test]
fn cursor_right_wraps_past_end_of_row() {
    let mut w = Writer::new();
    // the cursor may stand one past the end of the row
    for _ in 0..80 {
        w.move_cursor_right(false);
    }
    assert_eq!(w.cursor_col(), 80);
    // going further without wrap clamps onto the row
    w.move_cursor_right(false);
    assert_eq!(w.cursor_col(), 79);
    // going past the end with wrap starts the next logical row
    w.move_cursor_right(true);
    assert_eq!(w.cursor_col(), 80);
    w.move_cursor_right(true);
    assert_eq!(w.cursor_row(), 1);
    assert_eq!(w.cursor_col(), 0);
}

#[test]
fn backspace_erases_previous_character() {
    let mut w = Writer::new();
    w.write_string("AB");
    w.write_byte(8);
    assert_eq!(w.char_at(0, 1).ascii_character, b' ');
    assert_eq!(w.char_at(0, 0).ascii_character, b'A');
    assert_eq!(w.cursor_row(), 0);
    assert_eq!(w.cursor_col(), 1);
}

#[test]
fn backspace_at_origin_is_a_no_op() {
    let mut w = Writer::new();
    w.write_byte(8);
    assert_eq!(w.cursor_row(), 0);
    assert_eq!(w.cursor_col(), 0);
    assert_eq!(w.char_at(0, 0).ascii_character, b' ');
}

#[test]
fn clear_resets_everything() {
    let mut w = Writer::new();
    w.write_string("&c&1hello\nworld");
    w.clear();
    assert_eq!(w.cursor_row(), 0);
    assert_eq!(w.cursor_col(), 0);
    assert_eq!(w.window_offset(), 0);
    let (fg, bg) = w.colors();
    assert_eq!(fg, Color::White);
    assert_eq!(bg, Color::Black);
    assert_eq!(w.char_at(0, 0).ascii_character, b' ');
    assert_eq!(w.char_at(0, 0).color_code.0, WHITE_ON_BLACK);
}

#[test]
fn draw_shows_the_visible_window() {
    let mut w = Writer::new();
    w.write_string("Hi");
    let f = w.draw().unwrap();
    assert_eq!(f.rows.len(), 25);
    assert_eq!(f.rows[0].len(), 80);
    assert_eq!(f.rows[0][0].ascii_character, b'H');
    assert_eq!(f.rows[0][1].ascii_character, b'i');
    assert_eq!(f.cursor, 2);
    assert_eq!(f.cursor_low(), 2);
    assert_eq!(f.cursor_high(), 0);
}

#[test]
fn draw_follows_the_window() {
    let mut w = Writer::new();
    w.write_byte(b'A');
    for _ in 0..30 {
        w.write_byte(b'\n');
    }
    let f = w.draw().unwrap();
    // the window starts at row 6; the 'A' on row 0 is off screen
    assert_eq!(f.rows[0][0].ascii_character, b' ');
    // the cursor sits on the last visible row
    assert_eq!(f.cursor, 24 * 80);
}

#[test]
fn draw_twice_is_identical() {
    let mut w = Writer::new();
    w.write_string("&3some te&zxt\nmore");
    let f1 = w.draw().unwrap();
    let f2 = w.draw().unwrap();
    assert!(f1.rows == f2.rows);
    assert_eq!(f1.cursor, f2.cursor);
}

#[test]
fn draw_honors_the_lock() {
    let mut w = Writer::new();
    w.write_byte(b'A');
    w.lock_drawing();
    assert!(w.draw().is_none());
    // the store kept the write
    assert_eq!(w.char_at(0, 0).ascii_character, b'A');
    w.unlock_drawing();
    assert!(w.draw().is_some());
}

#[test]
fn full_buffer_window_clamps_at_both_ends() {
    let mut fb = FullBuffer::new(0);
    fb.move_screen(VertDir::Up);
    assert_eq!(fb.start_at(), 0);
    fb.move_screen(VertDir::Down);
    assert_eq!(fb.start_at(), 1);
    let mut fb2 = FullBuffer::new(99);
    fb2.move_screen(VertDir::Down);
    assert_eq!(fb2.start_at(), 99);
    fb2.move_screen(VertDir::Up);
    assert_eq!(fb2.start_at(), 98);
}

#[test]
fn full_buffer_cells_and_eviction() {
    let mut fb = FullBuffer::new(0);
    fb.set_cell(0, 0, ScreenChar::new(b'Z', ColorCode(0x0f)));
    fb.set_cell(1, 3, ScreenChar::new(b'Y', ColorCode(0x0f)));
    assert_eq!(fb.cell_at(0, 0).ascii_character, b'Z');
    fb.evict_oldest(ColorCode(0x0f));
    // the rows moved one index toward the start
    assert_eq!(fb.cell_at(0, 3).ascii_character, b'Y');
    assert_eq!(fb.cell_at(0, 0).ascii_character, b' ');
}
