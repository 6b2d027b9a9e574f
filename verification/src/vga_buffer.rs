use vstd::prelude::*;

verus! {

/// Number of rows the hardware text display shows at once.
pub const SCREEN_HEIGHT: usize = 25;

/// Number of character cells in one display row.
pub const SCREEN_WIDTH: usize = 80;

/// Total number of rows kept in the scrollback store; always larger than
/// `SCREEN_HEIGHT` so that off-screen history can be scrolled back to.
pub const DATA_BUFFER_SIZE: usize = 124;

/// The sixteen-entry palette of the text-mode display, in hardware order:
/// the nibble of a color is its position in this list.
#[allow(dead_code)]
#[derive(Debug, Clone, Copy, PartialEq, Eq, Structural)]
pub enum Color {
    Black,
    Blue,
    Green,
    Cyan,
    Red,
    Magenta,
    Brown,
    LightGray,
    Gray,
    LightBlue,
    LightGreen,
    LightCyan,
    LightRed,
    Pink,
    Yellow,
    White,
}

impl Color {
    /// The 4-bit palette index of this color.
    pub open spec fn spec_nibble(self) -> u8 {
        match self {
            Color::Black => 0,
            Color::Blue => 1,
            Color::Green => 2,
            Color::Cyan => 3,
            Color::Red => 4,
            Color::Magenta => 5,
            Color::Brown => 6,
            Color::LightGray => 7,
            Color::Gray => 8,
            Color::LightBlue => 9,
            Color::LightGreen => 10,
            Color::LightCyan => 11,
            Color::LightRed => 12,
            Color::Pink => 13,
            Color::Yellow => 14,
            Color::White => 15,
        }
    }

    /// The 4-bit palette index of this color.
    pub fn nibble(self) -> (n: u8)
        ensures
            n == self.spec_nibble(),
            n < 16,
    {
        match self {
            Color::Black => 0,
            Color::Blue => 1,
            Color::Green => 2,
            Color::Cyan => 3,
            Color::Red => 4,
            Color::Magenta => 5,
            Color::Brown => 6,
            Color::LightGray => 7,
            Color::Gray => 8,
            Color::LightBlue => 9,
            Color::LightGreen => 10,
            Color::LightCyan => 11,
            Color::LightRed => 12,
            Color::Pink => 13,
            Color::Yellow => 14,
            Color::White => 15,
        }
    }
}

/// The packed attribute byte for a foreground/background pair: the background
/// nibble occupies the high half, the foreground nibble the low half.
pub open spec fn spec_attr(fg: Color, bg: Color) -> u8 {
    (bg.spec_nibble() * 16 + fg.spec_nibble()) as u8
}

/// Packs an attribute byte from two palette colors.
pub fn color(fg: Color, bg: Color) -> (attr: u8)
    ensures
        attr == spec_attr(fg, bg),
{
    bg.nibble() * 16 + fg.nibble()
}

/// A packed attribute byte, as the hardware stores it beside each character.
#[derive(Debug, Clone, Copy, PartialEq, Eq, Structural)]
pub struct ColorCode(pub u8);

impl ColorCode {
    /// Packs a foreground and a background color into one attribute byte.
    pub fn new(foreground: Color, background: Color) -> (cc: ColorCode)
        ensures
            cc == ColorCode(spec_attr(foreground, background)),
    {
        ColorCode(color(foreground, background))
    }
}

/// One display cell: a character byte together with its attribute byte.
#[derive(Debug, Clone, Copy, PartialEq, Eq, Structural)]
pub struct ScreenChar {
    pub ascii_character: u8,
    pub color_code: ColorCode,
}

impl ScreenChar {
    /// Builds a cell holding byte `c` shown with attribute `color`.
    pub fn new(c: u8, color: ColorCode) -> (sc: ScreenChar)
        ensures
            sc == (ScreenChar { ascii_character: c, color_code: color }),
    {
        ScreenChar { ascii_character: c, color_code: color }
    }
}

/// The cell a blank position holds: a space under the given attribute.
pub open spec fn blank_char(attr: ColorCode) -> ScreenChar {
    ScreenChar { ascii_character: 32, color_code: attr }
}

/// A full row of blank cells under the given attribute.
pub open spec fn blank_line(attr: ColorCode) -> Seq<ScreenChar> {
    Seq::new(SCREEN_WIDTH as nat, |i: int| blank_char(attr))
}

/// The attribute everything starts out with: white text on black.
pub open spec fn default_attr() -> ColorCode {
    ColorCode(spec_attr(Color::White, Color::Black))
}

/// The rows of the store as a sequence of sequences of cells.
pub open spec fn rows_view(lines: Seq<Vec<ScreenChar>>) -> Seq<Seq<ScreenChar>> {
    Seq::new(lines.len(), |i: int| lines[i]@)
}

/// The rows after the oldest one is discarded: every row moves one index
/// toward the start and a blank row under `attr` takes the last place.
pub open spec fn evicted_rows(rows: Seq<Seq<ScreenChar>>, attr: ColorCode) -> Seq<Seq<ScreenChar>> {
    Seq::new(
        rows.len(),
        |i: int| if i < rows.len() - 1 {
            rows[i + 1]
        } else {
            blank_line(attr)
        },
    )
}

/// Builds one row of `SCREEN_WIDTH` blank cells.
fn make_blank_line(attr: ColorCode) -> (row: Vec<ScreenChar>)
    ensures
        row@ == blank_line(attr),
{
    let mut row: Vec<ScreenChar> = Vec::new();
    let mut c: usize = 0;
    while c < SCREEN_WIDTH
        invariant
            c <= SCREEN_WIDTH,
            row@ =~= blank_line(attr).take(c as int),
        decreases SCREEN_WIDTH - c,
    {
        row.push(ScreenChar::new(32, attr));
        c += 1;
    }
    proof {
        assert(row@ =~= blank_line(attr));
    }
    row
}

/// Direction in which the visible window slides over the scrollback store.
#[derive(Debug, Clone, Copy, PartialEq, Eq, Structural)]
pub enum VertDir {
    Up,
    Down,
}

/// The scrollback store: every row ever written that has not yet been
/// evicted, together with the index of the first row the display shows.
pub struct FullBuffer {
    lines: Vec<Vec<ScreenChar>>,
    screen_start: usize,
}

impl FullBuffer {
    /// The rows of the store.
    pub closed spec fn rows(&self) -> Seq<Seq<ScreenChar>> {
        rows_view(self.lines@)
    }

    /// The index of the first visible row.
    pub closed spec fn start(&self) -> int {
        self.screen_start as int
    }

    /// The store always holds exactly `DATA_BUFFER_SIZE` rows of
    /// `SCREEN_WIDTH` cells, and the window never hangs past the last row.
    pub open spec fn wf(&self) -> bool {
        &&& self.rows().len() == DATA_BUFFER_SIZE
        &&& forall|i: int|
            0 <= i < DATA_BUFFER_SIZE ==> (#[trigger] self.rows()[i]).len() == SCREEN_WIDTH
        &&& 0 <= self.start() <= DATA_BUFFER_SIZE - SCREEN_HEIGHT
    }

    /// Builds `size` blank rows.
    pub fn populate_vector(size: u8) -> (lines: Vec<Vec<ScreenChar>>)
        ensures
            lines@.len() == size,
            forall|j: int| 0 <= j < size ==> (#[trigger] lines@[j])@ == blank_line(default_attr()),
    {
        let attr = ColorCode::new(Color::White, Color::Black);
        let mut lines: Vec<Vec<ScreenChar>> = Vec::new();
        let mut i: usize = 0;
        while i < size as usize
            invariant
                i <= size as usize,
                attr == default_attr(),
                lines@.len() == i,
                forall|j: int| 0 <= j < i ==> (#[trigger] lines@[j])@ == blank_line(default_attr()),
            decreases size as usize - i,
        {
            lines.push(make_blank_line(attr));
            i += 1;
        }
        lines
    }

    /// A fresh store of blank rows whose window starts at `display_location`.
    pub fn new(display_location: u8) -> (fb: FullBuffer)
        requires
            display_location as int <= DATA_BUFFER_SIZE - SCREEN_HEIGHT,
        ensures
            fb.wf(),
            fb.rows() =~~= Seq::new(
                DATA_BUFFER_SIZE as nat,
                |i: int| blank_line(default_attr()),
            ),
            fb.start() == display_location,
    {
        let fb = FullBuffer {
            lines: FullBuffer::populate_vector(DATA_BUFFER_SIZE as u8),
            screen_start: display_location as usize,
        };
        proof {
            assert(fb.rows() =~~= Seq::new(
                DATA_BUFFER_SIZE as nat,
                |i: int| blank_line(default_attr()),
            ));
        }
        fb
    }

    /// Slides the visible window one row toward the start or the end of the
    /// store, stopping at either boundary; the rows themselves do not move.
    pub fn move_screen(&mut self, dir: VertDir)
        requires
            old(self).wf(),
        ensures
            final(self).wf(),
            final(self).rows() == old(self).rows(),
            final(self).start() == match dir {
                VertDir::Up => if old(self).start() > 0 {
                    old(self).start() - 1
                } else {
                    old(self).start()
                },
                VertDir::Down => if old(self).start() < DATA_BUFFER_SIZE - SCREEN_HEIGHT {
                    old(self).start() + 1
                } else {
                    old(self).start()
                },
            },
    {
        match dir {
            VertDir::Up => {
                if self.screen_start > 0 {
                    self.screen_start -= 1;
                }
            },
            VertDir::Down => {
                if self.screen_start < DATA_BUFFER_SIZE - SCREEN_HEIGHT {
                    self.screen_start += 1;
                }
            },
        }
    }

    /// The index of the first visible row, as a machine integer.
    pub fn start_at(&self) -> (s: usize)
        ensures
            s == self.start(),
    {
        self.screen_start
    }

    /// The cell stored at the given row and column.
    pub fn cell_at(&self, row: usize, col: usize) -> (sc: ScreenChar)
        requires
            self.wf(),
            row < DATA_BUFFER_SIZE,
            col < SCREEN_WIDTH,
        ensures
            sc == self.rows()[row as int][col as int],
    {
        proof {
            assert(self.rows()[row as int] == self.lines@[row as int]@);
        }
        self.lines[row][col]
    }

    /// Stores `sc` at the given row and column, leaving every other cell and
    /// the window position unchanged.
    pub fn set_cell(&mut self, row: usize, col: usize, sc: ScreenChar)
        requires
            old(self).wf(),
            row < DATA_BUFFER_SIZE,
            col < SCREEN_WIDTH,
        ensures
            final(self).wf(),
            final(self).rows() =~~= old(self).rows().update(
                row as int,
                old(self).rows()[row as int].update(col as int, sc),
            ),
            final(self).start() == old(self).start(),
    {
        proof {
            assert(self.rows()[row as int] == self.lines@[row as int]@);
        }
        self.lines[row][col] = sc;
        proof {
            assert forall|i: int| 0 <= i < DATA_BUFFER_SIZE implies (#[trigger] self.rows()[i]).len()
                == SCREEN_WIDTH by {
                assert(old(self).rows()[i].len() == SCREEN_WIDTH);
            }
            assert(self.rows() =~~= old(self).rows().update(
                row as int,
                old(self).rows()[row as int].update(col as int, sc),
            ));
        }
    }

    /// Discards the oldest row: every row moves one index toward the start
    /// and a blank row under `attr` is appended at the end.
    pub fn evict_oldest(&mut self, attr: ColorCode)
        requires
            old(self).wf(),
        ensures
            final(self).wf(),
            final(self).rows() =~~= evicted_rows(old(self).rows(), attr),
            final(self).start() == old(self).start(),
    {
        let _ = self.lines.remove(0);
        self.lines.push(make_blank_line(attr));
        proof {
            assert forall|i: int| 0 <= i < DATA_BUFFER_SIZE implies #[trigger] self.rows()[i]
                == evicted_rows(old(self).rows(), attr)[i] by {
                if i < DATA_BUFFER_SIZE - 1 {
                    assert(self.lines@[i] == old(self).lines@[i + 1]);
                    assert(old(self).rows()[i + 1] == old(self).lines@[i + 1]@);
                }
            }
            assert(self.rows() =~~= evicted_rows(old(self).rows(), attr));
            assert forall|i: int| 0 <= i < DATA_BUFFER_SIZE implies (#[trigger] self.rows()[i]).len()
                == SCREEN_WIDTH by {
                if i < DATA_BUFFER_SIZE - 1 {
                    assert(old(self).rows()[i + 1].len() == SCREEN_WIDTH);
                }
            }
        }
    }
}

} // verus!
