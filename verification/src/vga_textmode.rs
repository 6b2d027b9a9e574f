use vstd::prelude::*;
use vstd::string::StringSliceAdditionalSpecFns;

use crate::vga_buffer::{
    blank_line, default_attr, evicted_rows, spec_attr, Color, ColorCode, FullBuffer, ScreenChar,
    DATA_BUFFER_SIZE, SCREEN_HEIGHT, SCREEN_WIDTH,
};

verus! {

/// The abstract state of the display writer: the scrollback rows, the cursor
/// (absolute row within the store, and column), the first visible row, the
/// active colors with their packed attribute, and the drawing switch.
#[verifier::ext_equal]
pub ghost struct ScreenState {
    pub rows: Seq<Seq<ScreenChar>>,
    pub cursor_row: int,
    pub cursor_col: int,
    pub window: int,
    pub fg: Color,
    pub bg: Color,
    pub attr: ColorCode,
    pub drawing: bool,
}

/// What always holds of a writer's state: the store has exactly
/// `DATA_BUFFER_SIZE` rows of `SCREEN_WIDTH` cells, the column stays within
/// the row (one past the end at most), the window fits the store, the cursor
/// stays inside the visible window, and the packed attribute matches the
/// active colors.
pub open spec fn st_inv(s: ScreenState) -> bool {
    &&& s.rows.len() == DATA_BUFFER_SIZE
    &&& forall|i: int| 0 <= i < DATA_BUFFER_SIZE ==> (#[trigger] s.rows[i]).len() == SCREEN_WIDTH
    &&& 0 <= s.cursor_col <= SCREEN_WIDTH
    &&& 0 <= s.window <= DATA_BUFFER_SIZE - SCREEN_HEIGHT
    &&& s.window <= s.cursor_row < s.window + SCREEN_HEIGHT
    &&& s.attr == ColorCode(spec_attr(s.fg, s.bg))
}

/// The state every writer starts from: a blank store, the cursor and the
/// window at the origin, white on black, drawing allowed.
pub open spec fn st_initial() -> ScreenState {
    ScreenState {
        rows: Seq::new(DATA_BUFFER_SIZE as nat, |i: int| blank_line(default_attr())),
        cursor_row: 0,
        cursor_col: 0,
        window: 0,
        fg: Color::White,
        bg: Color::Black,
        attr: default_attr(),
        drawing: true,
    }
}

/// The scroll/evict rule, applied when the writer needs the next logical row.
/// At the last row of the store the oldest row is discarded and everything
/// shifts; inside the visible window only the cursor advances; at the bottom
/// of the window the window slides down together with the cursor.
pub open spec fn st_scroll_down(s: ScreenState) -> ScreenState {
    if s.cursor_row >= DATA_BUFFER_SIZE - 1 {
        ScreenState { rows: evicted_rows(s.rows, s.attr), ..s }
    } else if s.cursor_row < s.window + SCREEN_HEIGHT - 1 {
        ScreenState { cursor_row: s.cursor_row + 1, ..s }
    } else {
        ScreenState { cursor_row: s.cursor_row + 1, window: s.window + 1, ..s }
    }
}

/// Moving the cursor up one row: possible whenever it is not on the first
/// row; the window follows only when the cursor would leave it.
pub open spec fn st_scroll_up(s: ScreenState) -> (ScreenState, bool) {
    if s.cursor_row >= 1 {
        let r = s.cursor_row - 1;
        let w = if s.window > r {
            s.window - 1
        } else {
            s.window
        };
        (ScreenState { cursor_row: r, window: w, ..s }, true)
    } else {
        (s, false)
    }
}

/// A carriage return: back to the start of the current row.
pub open spec fn st_carriage(s: ScreenState) -> ScreenState {
    ScreenState { cursor_col: 0, ..s }
}

/// A newline: the scroll/evict rule, then the start of the new row.
pub open spec fn st_newline(s: ScreenState) -> ScreenState {
    st_carriage(st_scroll_down(s))
}

/// Moving the cursor one cell to the left. At column 0 with `wrap` the
/// cursor goes up one row (when there is one) and to the last column of that
/// row; without `wrap` it stays at column 0.
pub open spec fn st_move_left(s: ScreenState, wrap: bool) -> ScreenState {
    if s.cursor_col >= 1 {
        ScreenState { cursor_col: s.cursor_col - 1, ..s }
    } else if !wrap {
        s
    } else {
        let (s1, _moved) = st_scroll_up(s);
        ScreenState { cursor_col: SCREEN_WIDTH - 1, ..s1 }
    }
}

/// Moving the cursor one cell to the right. Past the end of the row it
/// either wraps to the start of the next logical row or stays on the last
/// column.
pub open spec fn st_move_right(s: ScreenState, wrap: bool) -> ScreenState {
    if s.cursor_col + 1 > SCREEN_WIDTH {
        if wrap {
            st_newline(s)
        } else {
            ScreenState { cursor_col: SCREEN_WIDTH - 1, ..s }
        }
    } else {
        ScreenState { cursor_col: s.cursor_col + 1, ..s }
    }
}

/// Storing one (already filtered) byte under attribute `attr` at the cursor,
/// advancing the cursor and wrapping to the next row when the row is full.
pub open spec fn st_put(s: ScreenState, b: u8, attr: ColorCode) -> ScreenState {
    let s1 = if s.cursor_col >= SCREEN_WIDTH {
        st_newline(s)
    } else {
        s
    };
    let cell = ScreenChar { ascii_character: b, color_code: attr };
    let s2 = ScreenState {
        rows: s1.rows.update(s1.cursor_row, s1.rows[s1.cursor_row].update(s1.cursor_col, cell)),
        cursor_col: s1.cursor_col + 1,
        ..s1
    };
    if s2.cursor_col == SCREEN_WIDTH {
        st_newline(s2)
    } else {
        s2
    }
}

/// A backspace: a no-op at the absolute origin; elsewhere the cursor moves
/// back one cell (wrapping to the previous row), a space under the current
/// attribute overwrites that cell, and the cursor comes to rest on it.
pub open spec fn st_backspace(s: ScreenState) -> ScreenState {
    if s.cursor_row == 0 && s.cursor_col == 0 {
        s
    } else {
        let s1 = st_move_left(s, true);
        let s2 = st_put(s1, 32, s1.attr);
        st_move_left(s2, true)
    }
}

/// Whether a byte may stand in a cell as it is: printable ASCII.
pub open spec fn st_printable(b: u8) -> bool {
    0x20 <= b <= 0x7e
}

/// Writing one byte under attribute `attr`: the three control bytes keep
/// their meaning, a printable byte is stored as it is, and anything else is
/// stored as the placeholder glyph.
pub open spec fn st_write_byte(s: ScreenState, b: u8, attr: ColorCode) -> ScreenState {
    if b == 10 {
        st_newline(s)
    } else if b == 13 {
        st_carriage(s)
    } else if b == 8 {
        st_backspace(s)
    } else if st_printable(b) {
        st_put(s, b, attr)
    } else {
        st_put(s, 0xfe, attr)
    }
}

/// The writer's state after the store is wiped: everything as at the start,
/// except that the drawing switch keeps its position.
pub open spec fn st_clear(s: ScreenState) -> ScreenState {
    ScreenState { drawing: s.drawing, ..st_initial() }
}

/// The palette color a markup digit selects, if the byte is one of the
/// sixteen hex digits `0`-`9`, `a`-`f`.
pub open spec fn st_digit_color(b: u8) -> Option<Color> {
    if b == 48 {
        Some(Color::Black)
    } else if b == 49 {
        Some(Color::Blue)
    } else if b == 50 {
        Some(Color::Green)
    } else if b == 51 {
        Some(Color::Cyan)
    } else if b == 52 {
        Some(Color::Red)
    } else if b == 53 {
        Some(Color::Magenta)
    } else if b == 54 {
        Some(Color::Brown)
    } else if b == 55 {
        Some(Color::LightGray)
    } else if b == 56 {
        Some(Color::Gray)
    } else if b == 57 {
        Some(Color::LightBlue)
    } else if b == 97 {
        Some(Color::LightGreen)
    } else if b == 98 {
        Some(Color::LightCyan)
    } else if b == 99 {
        Some(Color::LightRed)
    } else if b == 100 {
        Some(Color::Pink)
    } else if b == 101 {
        Some(Color::Yellow)
    } else if b == 102 {
        Some(Color::White)
    } else {
        None
    }
}

/// The state after the foreground color changes: the packed attribute
/// follows.
pub open spec fn st_set_fg(s: ScreenState, c: Color) -> ScreenState {
    ScreenState { fg: c, attr: ColorCode(spec_attr(c, s.bg)), ..s }
}

/// The state after the background color changes: the packed attribute
/// follows.
pub open spec fn st_set_bg(s: ScreenState, c: Color) -> ScreenState {
    ScreenState { bg: c, attr: ColorCode(spec_attr(s.fg, c)), ..s }
}

/// The one byte of lookahead the markup parser keeps: whether the byte just
/// seen was a foreground or a background marker whose digit is still owed.
#[derive(Debug, Clone, Copy, PartialEq, Eq, Structural)]
pub enum MarkState {
    Plain,
    FgPending,
    BgPending,
}

/// One parser step outside any pending marker: a marker byte (`&` for the
/// foreground, `%` for the background) is swallowed and leaves a digit
/// pending; every other byte is written.
pub open spec fn st_plain_step(s: ScreenState, b: u8) -> (ScreenState, MarkState) {
    if b == 38 {
        (s, MarkState::FgPending)
    } else if b == 37 {
        (s, MarkState::BgPending)
    } else {
        (st_write_byte(s, b, s.attr), MarkState::Plain)
    }
}

/// One parser step. With a marker pending, a hex digit selects the color and
/// the pending state clears; any other byte makes the swallowed marker come
/// out literally, after which the byte is processed as if fresh.
pub open spec fn st_step(s: ScreenState, m: MarkState, b: u8) -> (ScreenState, MarkState) {
    match m {
        MarkState::Plain => st_plain_step(s, b),
        MarkState::FgPending => match st_digit_color(b) {
            Some(c) => (st_set_fg(s, c), MarkState::Plain),
            None => st_plain_step(st_write_byte(s, 38, s.attr), b),
        },
        MarkState::BgPending => match st_digit_color(b) {
            Some(c) => (st_set_bg(s, c), MarkState::Plain),
            None => st_plain_step(st_write_byte(s, 37, s.attr), b),
        },
    }
}

/// The parser run over a whole byte sequence, left to right.
pub open spec fn st_write(s: ScreenState, m: MarkState, bytes: Seq<u8>) -> (ScreenState, MarkState)
    decreases bytes.len(),
{
    if bytes.len() <= 0 {
        (s, m)
    } else {
        let prev = st_write(s, m, bytes.drop_last());
        st_step(prev.0, prev.1, bytes.last())
    }
}

/// The rows the display shows: the window of `SCREEN_HEIGHT` rows starting
/// at the window offset.
pub open spec fn frame_rows(s: ScreenState) -> Seq<Seq<ScreenChar>> {
    s.rows.subrange(s.window, s.window + SCREEN_HEIGHT)
}

/// The linear position the hardware cursor is programmed with: the cursor's
/// row relative to the window, clamped onto the screen, times the width,
/// plus the column.
pub open spec fn frame_cursor(s: ScreenState) -> int {
    let rel0 = s.cursor_row - s.window;
    let rel = if rel0 < 0 {
        0
    } else if rel0 > SCREEN_HEIGHT - 1 {
        SCREEN_HEIGHT - 1
    } else {
        rel0
    };
    rel * SCREEN_WIDTH + s.cursor_col
}

/// One snapshot of what the hardware should show: the visible cells, row by
/// row, and the linear cursor position.
pub struct Frame {
    pub rows: Vec<Vec<ScreenChar>>,
    pub cursor: u16,
}

impl Frame {
    /// The byte written to the cursor data port after index `0x0F`.
    pub fn cursor_low(&self) -> (b: u8)
        ensures
            b == self.cursor % 256,
    {
        (self.cursor % 256) as u8
    }

    /// The byte written to the cursor data port after index `0x0E`.
    pub fn cursor_high(&self) -> (b: u8)
        ensures
            b == self.cursor / 256,
    {
        (self.cursor / 256) as u8
    }
}

/// The display writer: owns the scrollback store, the cursor, the active
/// colors and the drawing switch, and is the one place console state is
/// mutated.
pub struct Writer {
    col_pos: usize,
    row_pos: usize,
    current_fg: Color,
    current_bg: Color,
    def_attr: ColorCode,
    drawing: bool,
    buffer: FullBuffer,
}

impl View for Writer {
    type V = ScreenState;

    closed spec fn view(&self) -> ScreenState {
        ScreenState {
            rows: self.buffer.rows(),
            cursor_row: self.row_pos as int,
            cursor_col: self.col_pos as int,
            window: self.buffer.start(),
            fg: self.current_fg,
            bg: self.current_bg,
            attr: self.def_attr,
            drawing: self.drawing,
        }
    }
}

impl Writer {
    /// A writer's concrete state always realizes a state the invariant
    /// admits.
    pub open spec fn wf(&self) -> bool {
        st_inv(self@)
    }

    /// A fresh writer over a blank store.
    pub fn new() -> (w: Writer)
        ensures
            w.wf(),
            w@ == st_initial(),
    {
        let w = Writer {
            col_pos: 0,
            row_pos: 0,
            current_fg: Color::White,
            current_bg: Color::Black,
            def_attr: ColorCode::new(Color::White, Color::Black),
            drawing: true,
            buffer: FullBuffer::new(0),
        };
        proof {
            assert(w@ =~~= st_initial());
        }
        w
    }

    /// Forbids `draw` from touching the screen until it is unlocked; the
    /// store keeps accepting writes.
    pub fn lock_drawing(&mut self)
        requires
            old(self).wf(),
        ensures
            final(self).wf(),
            final(self)@ == (ScreenState { drawing: false, ..old(self)@ }),
    {
        self.drawing = false;
    }

    /// Allows `draw` to touch the screen again.
    pub fn unlock_drawing(&mut self)
        requires
            old(self).wf(),
        ensures
            final(self).wf(),
            final(self)@ == (ScreenState { drawing: true, ..old(self)@ }),
    {
        self.drawing = true;
    }

    /// Moves the cursor up one row, sliding the window along when needed;
    /// reports whether a move happened.
    pub fn move_screen_up(&mut self) -> (moved: bool)
        requires
            old(self).wf(),
        ensures
            final(self).wf(),
            final(self)@ == st_scroll_up(old(self)@).0,
            moved == st_scroll_up(old(self)@).1,
    {
        if self.row_pos >= 1 {
            self.row_pos -= 1;
            if self.buffer.start_at() > 0 && self.buffer.start_at() > self.row_pos {
                self.buffer.move_screen(crate::vga_buffer::VertDir::Up);
            }
            proof {
                assert(self@ =~~= st_scroll_up(old(self)@).0);
            }
            return true;
        }
        proof {
            assert(self@ =~~= st_scroll_up(old(self)@).0);
        }
        false
    }

    /// Advances to the next logical row by the scroll/evict rule.
    pub fn move_screen_down(&mut self)
        requires
            old(self).wf(),
        ensures
            final(self).wf(),
            final(self)@ == st_scroll_down(old(self)@),
    {
        if self.row_pos >= DATA_BUFFER_SIZE - 1 {
            self.buffer.evict_oldest(self.def_attr);
            proof {
                assert(self@ =~~= st_scroll_down(old(self)@));
            }
            return;
        }
        if self.row_pos < self.buffer.start_at() + (SCREEN_HEIGHT - 1) {
            self.row_pos += 1;
            proof {
                assert(self@ =~~= st_scroll_down(old(self)@));
            }
            return;
        }
        self.buffer.move_screen(crate::vga_buffer::VertDir::Down);
        self.row_pos += 1;
        proof {
            assert(self@ =~~= st_scroll_down(old(self)@));
        }
    }

    /// Returns the cursor to the start of the current row.
    pub fn carriage_ret(&mut self)
        requires
            old(self).wf(),
        ensures
            final(self).wf(),
            final(self)@ == st_carriage(old(self)@),
    {
        self.col_pos = 0;
    }

    /// Advances to the start of the next logical row.
    pub fn newline(&mut self)
        requires
            old(self).wf(),
        ensures
            final(self).wf(),
            final(self)@ == st_newline(old(self)@),
    {
        self.move_screen_down();
        self.carriage_ret();
    }

    /// Moves the cursor one cell to the left, wrapping to the end of the
    /// previous row when `wrap` allows it.
    pub fn move_cursor_left(&mut self, wrap: bool)
        requires
            old(self).wf(),
        ensures
            final(self).wf(),
            final(self)@ == st_move_left(old(self)@, wrap),
    {
        if self.col_pos >= 1 {
            self.col_pos -= 1;
            return;
        }
        if !wrap {
            return;
        }
        let _ = self.move_screen_up();
        self.col_pos = SCREEN_WIDTH - 1;
    }

    /// Moves the cursor one cell to the right, wrapping to the start of the
    /// next logical row when `wrap` allows it.
    pub fn move_cursor_right(&mut self, wrap: bool)
        requires
            old(self).wf(),
        ensures
            final(self).wf(),
            final(self)@ == st_move_right(old(self)@, wrap),
    {
        if self.col_pos + 1 > SCREEN_WIDTH {
            if wrap {
                self.newline();
            } else {
                self.col_pos = SCREEN_WIDTH - 1;
            }
        } else {
            self.col_pos += 1;
        }
    }

    /// Stores one already-filtered byte at the cursor under `attr` and
    /// advances the cursor, wrapping when the row fills up.
    fn put_byte(&mut self, byte: u8, attr: ColorCode)
        requires
            old(self).wf(),
        ensures
            final(self).wf(),
            final(self)@ == st_put(old(self)@, byte, attr),
    {
        if self.col_pos >= SCREEN_WIDTH {
            self.newline();
        }
        let ghost s1 = self@;
        self.buffer.set_cell(self.row_pos, self.col_pos, ScreenChar::new(byte, attr));
        self.col_pos += 1;
        proof {
            assert(self@ =~~= (ScreenState {
                rows: s1.rows.update(s1.cursor_row, s1.rows[s1.cursor_row].update(s1.cursor_col,
                    ScreenChar { ascii_character: byte, color_code: attr })),
                cursor_col: s1.cursor_col + 1,
                ..s1
            }));
        }
        if self.col_pos == SCREEN_WIDTH {
            self.newline();
        }
    }

    /// Erases the cell before the cursor and leaves the cursor on it; a
    /// no-op at the absolute origin.
    pub fn backspace(&mut self)
        requires
            old(self).wf(),
        ensures
            final(self).wf(),
            final(self)@ == st_backspace(old(self)@),
    {
        if self.row_pos == 0 && self.col_pos == 0 {
            return;
        }
        self.move_cursor_left(true);
        let attr = self.def_attr;
        self.put_byte(32, attr);
        self.move_cursor_left(true);
    }

    /// Writes one byte under the given attribute: `\n`, `\r` and backspace
    /// keep their control meaning, printable ASCII is stored as it is, and
    /// any other byte is stored as the placeholder glyph.
    pub fn write_byte_colored(&mut self, byte: u8, color: ColorCode)
        requires
            old(self).wf(),
        ensures
            final(self).wf(),
            final(self)@ == st_write_byte(old(self)@, byte, color),
    {
        if byte == 10 {
            self.newline();
        } else if byte == 13 {
            self.carriage_ret();
        } else if byte == 8 {
            self.backspace();
        } else if 0x20 <= byte && byte <= 0x7e {
            self.put_byte(byte, color);
        } else {
            self.put_byte(0xfe, color);
        }
    }

    /// Writes one byte under the writer's current attribute.
    pub fn write_byte(&mut self, byte: u8)
        requires
            old(self).wf(),
        ensures
            final(self).wf(),
            final(self)@ == st_write_byte(old(self)@, byte, old(self)@.attr),
    {
        let attr = self.def_attr;
        self.write_byte_colored(byte, attr);
    }

    /// Wipes the store, returns the cursor and the window to the origin and
    /// the colors to their defaults; the drawing switch is left alone.
    pub fn clear(&mut self)
        requires
            old(self).wf(),
        ensures
            final(self).wf(),
            final(self)@ == st_clear(old(self)@),
    {
        self.buffer = FullBuffer::new(0);
        self.col_pos = 0;
        self.row_pos = 0;
        self.current_fg = Color::White;
        self.current_bg = Color::Black;
        self.def_attr = ColorCode::new(Color::White, Color::Black);
        proof {
            assert(self@ =~~= st_clear(old(self)@));
        }
    }

    /// Sets the foreground color named by a markup digit; reports whether
    /// the byte was one.
    pub fn set_fg_color(&mut self, cbyte: u8) -> (changed: bool)
        requires
            old(self).wf(),
        ensures
            final(self).wf(),
            changed == (st_digit_color(cbyte) is Some),
            final(self)@ == match st_digit_color(cbyte) {
                Some(c) => st_set_fg(old(self)@, c),
                None => old(self)@,
            },
    {
        match digit_color(cbyte) {
            Some(c) => {
                self.current_fg = c;
                self.def_attr = ColorCode::new(c, self.current_bg);
                true
            },
            None => false,
        }
    }

    /// Sets the background color named by a markup digit; reports whether
    /// the byte was one.
    pub fn set_bg_color(&mut self, cbyte: u8) -> (changed: bool)
        requires
            old(self).wf(),
        ensures
            final(self).wf(),
            changed == (st_digit_color(cbyte) is Some),
            final(self)@ == match st_digit_color(cbyte) {
                Some(c) => st_set_bg(old(self)@, c),
                None => old(self)@,
            },
    {
        match digit_color(cbyte) {
            Some(c) => {
                self.current_bg = c;
                self.def_attr = ColorCode::new(self.current_fg, c);
                true
            },
            None => false,
        }
    }

    /// Writes a whole string, applying the inline color markup: `&` followed
    /// by a hex digit changes the foreground, `%` the background; a marker
    /// not followed by a digit comes out literally. Everything else goes
    /// byte by byte through `write_byte`.
    pub fn write_string(&mut self, s: &str)
        requires
            old(self).wf(),
        ensures
            final(self).wf(),
            final(self)@ == st_write(old(self)@, MarkState::Plain, s.spec_bytes()).0,
    {
        let bytes: &[u8] = s.as_bytes();
        let n: usize = bytes.len();
        let mut mark = MarkState::Plain;
        let mut i: usize = 0;
        while i < n
            invariant
                self.wf(),
                i <= n,
                n == bytes@.len(),
                bytes@ == s.spec_bytes(),
                (self@, mark) == st_write(old(self)@, MarkState::Plain, bytes@.take(i as int)),
            decreases n - i,
        {
            let b = bytes[i];
            proof {
                assert(bytes@.take(i + 1).drop_last() =~= bytes@.take(i as int));
                assert(bytes@.take(i + 1).last() == b);
            }
            match mark {
                MarkState::Plain => {
                    if b == 38 {
                        mark = MarkState::FgPending;
                    } else if b == 37 {
                        mark = MarkState::BgPending;
                    } else {
                        self.write_byte(b);
                    }
                },
                MarkState::FgPending => {
                    if self.set_fg_color(b) {
                        mark = MarkState::Plain;
                    } else {
                        self.write_byte(38);
                        if b == 38 {
                            mark = MarkState::FgPending;
                        } else if b == 37 {
                            mark = MarkState::BgPending;
                        } else {
                            self.write_byte(b);
                            mark = MarkState::Plain;
                        }
                    }
                },
                MarkState::BgPending => {
                    if self.set_bg_color(b) {
                        mark = MarkState::Plain;
                    } else {
                        self.write_byte(37);
                        if b == 38 {
                            mark = MarkState::FgPending;
                        } else if b == 37 {
                            mark = MarkState::BgPending;
                        } else {
                            self.write_byte(b);
                            mark = MarkState::Plain;
                        }
                    }
                },
            }
            i += 1;
        }
        proof {
            assert(bytes@.take(n as int) =~= bytes@);
        }
    }

    /// Takes the snapshot the hardware should show, or nothing while drawing
    /// is locked. The writer itself is left untouched, so two draws with no
    /// writes in between hand out the same snapshot.
    pub fn draw(&self) -> (f: Option<Frame>)
        requires
            self.wf(),
        ensures
            f is Some <==> self@.drawing,
            f matches Some(fr) ==> {
                &&& crate::vga_buffer::rows_view(fr.rows@) == frame_rows(self@)
                &&& fr.cursor == frame_cursor(self@)
            },
    {
        if !self.drawing {
            return None;
        }
        let start = self.buffer.start_at();
        let mut rows: Vec<Vec<ScreenChar>> = Vec::new();
        let mut r: usize = 0;
        while r < SCREEN_HEIGHT
            invariant
                self.wf(),
                r <= SCREEN_HEIGHT,
                start == self@.window,
                rows@.len() == r,
                forall|i: int| 0 <= i < r ==> (#[trigger] rows@[i])@ == frame_rows(self@)[i],
            decreases SCREEN_HEIGHT - r,
        {
            let mut row: Vec<ScreenChar> = Vec::new();
            let mut c: usize = 0;
            while c < SCREEN_WIDTH
                invariant
                    self.wf(),
                    r < SCREEN_HEIGHT,
                    c <= SCREEN_WIDTH,
                    start == self@.window,
                    row@.len() == c,
                    forall|j: int| 0 <= j < c ==> row@[j] == self@.rows[start + r][j],
                decreases SCREEN_WIDTH - c,
            {
                row.push(self.buffer.cell_at(start + r, c));
                c += 1;
            }
            proof {
                assert(row@ =~= frame_rows(self@)[r as int]);
            }
            rows.push(row);
            r += 1;
        }
        let rel0 = if self.row_pos >= start {
            self.row_pos - start
        } else {
            0
        };
        let rel = if rel0 > SCREEN_HEIGHT - 1 {
            SCREEN_HEIGHT - 1
        } else {
            rel0
        };
        proof {
            assert(rel < SCREEN_HEIGHT);
            assert(self@.cursor_col <= SCREEN_WIDTH);
            assert(rel * SCREEN_WIDTH + self.col_pos <= 2000) by (nonlinear_arith)
                requires
                    rel < 25,
                    self.col_pos <= 80,
            ;
        }
        let cursor: u16 = (rel as u16) * (SCREEN_WIDTH as u16) + (self.col_pos as u16);
        let f = Frame { rows, cursor };
        proof {
            assert(crate::vga_buffer::rows_view(f.rows@) =~~= frame_rows(self@));
        }
        Some(f)
    }

    /// The column the cursor stands on.
    pub fn cursor_col(&self) -> (c: usize)
        ensures
            c == self@.cursor_col,
    {
        self.col_pos
    }

    /// The absolute row of the store the cursor stands on.
    pub fn cursor_row(&self) -> (r: usize)
        ensures
            r == self@.cursor_row,
    {
        self.row_pos
    }

    /// The first row of the store the display shows.
    pub fn window_offset(&self) -> (w: usize)
        ensures
            w == self@.window,
    {
        self.buffer.start_at()
    }

    /// The active foreground and background colors.
    pub fn colors(&self) -> (c: (Color, Color))
        ensures
            c.0 == self@.fg,
            c.1 == self@.bg,
    {
        (self.current_fg, self.current_bg)
    }

    /// The cell stored at the given absolute row and column.
    pub fn char_at(&self, row: usize, col: usize) -> (sc: ScreenChar)
        requires
            self.wf(),
            row < DATA_BUFFER_SIZE,
            col < SCREEN_WIDTH,
        ensures
            sc == self@.rows[row as int][col as int],
    {
        self.buffer.cell_at(row, col)
    }
}

/// Looks a markup digit up in the palette.
fn digit_color(b: u8) -> (c: Option<Color>)
    ensures
        c == st_digit_color(b),
{
    match b {
        48 => Some(Color::Black),
        49 => Some(Color::Blue),
        50 => Some(Color::Green),
        51 => Some(Color::Cyan),
        52 => Some(Color::Red),
        53 => Some(Color::Magenta),
        54 => Some(Color::Brown),
        55 => Some(Color::LightGray),
        56 => Some(Color::Gray),
        57 => Some(Color::LightBlue),
        97 => Some(Color::LightGreen),
        98 => Some(Color::LightCyan),
        99 => Some(Color::LightRed),
        100 => Some(Color::Pink),
        101 => Some(Color::Yellow),
        102 => Some(Color::White),
        _ => None,
    }
}

/// The state after `k` newlines in a row.
pub open spec fn st_newlines(s: ScreenState, k: nat) -> ScreenState
    decreases k,
{
    if k == 0 {
        s
    } else {
        st_newline(st_newlines(s, (k - 1) as nat))
    }
}

/// Newlines that stay within the store's capacity touch no stored cell:
/// only the cursor row (and, behind it, the window) moves, and every row
/// written earlier can still be read back.
pub proof fn lemma_newlines_keep_rows(s: ScreenState, k: nat)
    requires
        st_inv(s),
        s.cursor_row + k < DATA_BUFFER_SIZE,
    ensures
        st_inv(st_newlines(s, k)),
        st_newlines(s, k).rows == s.rows,
        st_newlines(s, k).cursor_row == s.cursor_row + k,
        st_newlines(s, k).fg == s.fg,
        st_newlines(s, k).bg == s.bg,
        st_newlines(s, k).attr == s.attr,
        st_newlines(s, k).drawing == s.drawing,
    decreases k,
{
    if k > 0 {
        lemma_newlines_keep_rows(s, (k - 1) as nat);
    }
}

/// A newline on the last row of the store keeps exactly
/// `DATA_BUFFER_SIZE` rows, shifts every row one index toward the start —
/// making the oldest row's content unreachable — and blanks the last row;
/// the cursor and the window stay where they are.
pub proof fn lemma_evict_at_capacity(s: ScreenState)
    requires
        st_inv(s),
        s.cursor_row == DATA_BUFFER_SIZE - 1,
    ensures
        st_inv(st_scroll_down(s)),
        st_scroll_down(s).rows.len() == DATA_BUFFER_SIZE,
        forall|i: int|
            0 <= i < DATA_BUFFER_SIZE - 1 ==> #[trigger] st_scroll_down(s).rows[i] == s.rows[i
                + 1],
        st_scroll_down(s).rows[DATA_BUFFER_SIZE - 1] == blank_line(s.attr),
        st_scroll_down(s).cursor_row == s.cursor_row,
        st_scroll_down(s).window == s.window,
{
}

/// Moving left with wrap at column 0 of any row but the first lands on the
/// last column of the previous row, instead of clamping at column 0; no
/// stored cell changes.
pub proof fn lemma_left_wraps(s: ScreenState)
    requires
        st_inv(s),
        s.cursor_col == 0,
        s.cursor_row > 0,
    ensures
        st_move_left(s, true).cursor_col == SCREEN_WIDTH - 1,
        st_move_left(s, true).cursor_row == s.cursor_row - 1,
        st_move_left(s, true).rows == s.rows,
{
}

/// The snapshot `draw` hands out is a function of the writer's state alone,
/// and `draw` takes the writer by shared reference: two draws with no write
/// in between therefore show the hardware the same cells and the same
/// cursor position.
pub proof fn lemma_draw_deterministic(s1: ScreenState, s2: ScreenState)
    requires
        s1 == s2,
    ensures
        frame_rows(s1) == frame_rows(s2),
        frame_cursor(s1) == frame_cursor(s2),
{
}

} // verus!
