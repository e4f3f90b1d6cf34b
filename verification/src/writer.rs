//! The console writer: a cursor that always sits on the bottom row, a
//! current color attribute, and the grid it renders into. Bytes are written
//! at the cursor, lines wrap at the right edge, and the whole grid scrolls
//! up by one row when the bottom row fills or a newline is written.
//!
//! The behaviour of every operation is stated against a functional model:
//! [`ConsoleState`] is the mathematical snapshot of a writer, and the
//! `after_*` spec functions say what each operation does to it.

use vstd::prelude::*;
use vstd::string::StringSliceAdditionalSpecFns;

use crate::buffer::filled_grid;
use crate::buffer::with_cell;
use crate::buffer::Buffer;
use crate::buffer::ScreenChar;
use crate::buffer::BUFFER_HEIGHT;
use crate::buffer::BUFFER_WIDTH;
use crate::color::Color;
use crate::color::ColorCode;

verus! {

/// Mathematical snapshot of a console writer: the grid contents, the cursor
/// column on the bottom row, and the current color attribute.
#[verifier::ext_equal]
pub struct ConsoleState {
    pub grid: Seq<Seq<ScreenChar>>,
    pub column: int,
    pub color: ColorCode,
}

impl ConsoleState {
    /// The grid has its fixed dimensions and the cursor is at or before the
    /// right edge.
    pub open spec fn wf(self) -> bool {
        &&& self.grid.len() == BUFFER_HEIGHT
        &&& forall|r: int| 0 <= r < BUFFER_HEIGHT ==> (#[trigger] self.grid[r]).len() == BUFFER_WIDTH
        &&& 0 <= self.column <= BUFFER_WIDTH
    }
}

/// A cell holding a space in the given color: the blank the writer clears
/// rows with.
pub open spec fn blank_cell(color: ColorCode) -> ScreenChar {
    ScreenChar { ascii_character: 0x20, color_code: color }
}

/// A full row of blanks in the given color.
pub open spec fn blank_row(color: ColorCode) -> Seq<ScreenChar> {
    Seq::new(BUFFER_WIDTH as nat, |c: int| blank_cell(color))
}

/// `grid` with one row overwritten by blanks in the given color.
pub open spec fn cleared(grid: Seq<Seq<ScreenChar>>, row: int, color: ColorCode) -> Seq<
    Seq<ScreenChar>,
> {
    grid.update(row, blank_row(color))
}

/// `grid` scrolled up by one row: row 0 is discarded, every other row moves
/// up one place, and the bottom row becomes blank in the given color.
pub open spec fn scrolled(grid: Seq<Seq<ScreenChar>>, color: ColorCode) -> Seq<Seq<ScreenChar>> {
    Seq::new(
        BUFFER_HEIGHT as nat,
        |r: int|
            if r < BUFFER_HEIGHT as int - 1 {
                grid[r + 1]
            } else {
                blank_row(color)
            },
    )
}

/// The bottom row of a grid: the row the cursor writes into.
pub open spec fn bottom_row(grid: Seq<Seq<ScreenChar>>) -> Seq<ScreenChar> {
    grid[BUFFER_HEIGHT as int - 1]
}

/// The state after a newline: the grid scrolls and the cursor returns to
/// column 0. The color is kept.
pub open spec fn after_new_line(s: ConsoleState) -> ConsoleState {
    ConsoleState { grid: scrolled(s.grid, s.color), column: 0, color: s.color }
}

/// The state after writing one byte. A newline scrolls; any other byte is
/// placed at the cursor on the bottom row — after scrolling first if the
/// cursor already sits at the right edge — and the cursor advances.
pub open spec fn after_byte(s: ConsoleState, byte: u8) -> ConsoleState {
    if byte == 0x0A {
        after_new_line(s)
    } else {
        let t = if s.column >= BUFFER_WIDTH as int {
            after_new_line(s)
        } else {
            s
        };
        ConsoleState {
            grid: with_cell(
                t.grid,
                BUFFER_HEIGHT as int - 1,
                t.column,
                ScreenChar { ascii_character: byte, color_code: t.color },
            ),
            column: t.column + 1,
            color: t.color,
        }
    }
}

/// The bytes the device has a glyph for: printable ASCII, space through
/// tilde.
pub open spec fn printable(byte: u8) -> bool {
    0x20 <= byte <= 0x7E
}

/// The byte actually written for an input byte: printable bytes and the
/// newline pass through, everything else becomes the placeholder glyph 0xFE.
pub open spec fn substituted(byte: u8) -> u8 {
    if printable(byte) || byte == 0x0A {
        byte
    } else {
        0xFE
    }
}

/// The state after writing a whole byte sequence, each byte substituted and
/// then written in order.
pub open spec fn after_bytes(s: ConsoleState, bytes: Seq<u8>) -> ConsoleState
    decreases bytes.len(),
{
    if bytes.len() == 0 {
        s
    } else {
        after_byte(after_bytes(s, bytes.drop_last()), substituted(bytes.last()))
    }
}

/// The console writer. The cursor row is always the bottom row; only the
/// column moves.
pub struct Writer {
    pub column_position: usize,
    pub color_code: ColorCode,
    pub buffer: Buffer,
}

impl View for Writer {
    type V = ConsoleState;

    open spec fn view(&self) -> ConsoleState {
        ConsoleState {
            grid: self.buffer.grid(),
            column: self.column_position as int,
            color: self.color_code,
        }
    }
}

impl Writer {
    /// The backing grid is complete and the cursor is at or before the right
    /// edge.
    pub open spec fn wf(&self) -> bool {
        &&& self.buffer.wf()
        &&& self.column_position <= BUFFER_WIDTH
    }

    /// A fresh writer in the given colors: cursor at column 0 and every cell
    /// blank in that color.
    pub fn new(foreground: Color, background: Color) -> (w: Writer)
        ensures
            w.wf(),
            w@.column == 0,
            w@.color == ColorCode::spec_new(foreground, background),
            w@.grid == filled_grid(blank_cell(w@.color)),
    {
        let color_code = ColorCode::new(foreground, background);
        let blank = ScreenChar { ascii_character: 0x20, color_code };
        Writer { column_position: 0, color_code, buffer: Buffer::filled(blank) }
    }

    /// Writes one byte at the cursor. A newline scrolls; at the right edge
    /// the line wraps by scrolling first; otherwise the byte lands at the
    /// cursor with the current color and the cursor advances.
    pub fn write_byte(&mut self, byte: u8)
        requires
            old(self).wf(),
        ensures
            final(self).wf(),
            final(self)@ == after_byte(old(self)@, byte),
    {
        match byte {
            0x0A => self.new_line(),
            byte => {
                if self.column_position >= BUFFER_WIDTH {
                    self.new_line();
                }
                let row = BUFFER_HEIGHT - 1;
                let col = self.column_position;
                let color_code = self.color_code;
                self.buffer.write(row, col, ScreenChar { ascii_character: byte, color_code });
                self.column_position = self.column_position + 1;
                proof {
                    assert(self@ =~~= after_byte(old(self)@, byte));
                }
            },
        }
    }

    /// Writes a string byte by byte — raw bytes, not decoded code points.
    /// Printable ASCII and newlines pass to [`Writer::write_byte`] unchanged;
    /// every other byte is substituted by the placeholder glyph 0xFE, since
    /// the device's glyph table defines nothing for it.
    pub fn write_string(&mut self, s: &str)
        requires
            old(self).wf(),
        ensures
            final(self).wf(),
            final(self)@ == after_bytes(old(self)@, s.spec_bytes()),
    {
        let ghost w0: Writer = *old(self);
        let bytes: &[u8] = s.as_bytes();
        let n: usize = bytes.len();
        let mut i: usize = 0;
        while i < n
            invariant
                i <= n,
                n == bytes@.len(),
                bytes@ == s.spec_bytes(),
                self.wf(),
                self@ == after_bytes(w0@, bytes@.subrange(0, i as int)),
            decreases n - i,
        {
            let ghost prev: ConsoleState = self@;
            let byte = bytes[i];
            match byte {
                0x20..=0x7e | 0x0A => self.write_byte(byte),
                _ => self.write_byte(0xfe),
            }
            proof {
                let taken = bytes@.subrange(0, i + 1);
                assert(taken.drop_last() =~= bytes@.subrange(0, i as int));
                assert(taken.last() == bytes@[i as int]);
                assert(self@ == after_byte(prev, substituted(bytes@[i as int])));
                assert(self@ == after_bytes(w0@, taken));
            }
            i = i + 1;
        }
        proof {
            assert(bytes@.subrange(0, n as int) =~= bytes@);
        }
    }

    /// Scrolls: every row from 1 to the bottom is copied one row up — row 0's
    /// prior content is discarded for good — the bottom row is cleared, and
    /// the cursor returns to column 0.
    pub fn new_line(&mut self)
        requires
            old(self).wf(),
        ensures
            final(self).wf(),
            final(self)@ == after_new_line(old(self)@),
    {
        let ghost w0: Writer = *old(self);
        let mut row: usize = 1;
        while row < BUFFER_HEIGHT
            invariant
                1 <= row <= BUFFER_HEIGHT,
                self.wf(),
                self.column_position == w0.column_position,
                self.color_code == w0.color_code,
                forall|r: int|
                    0 <= r < row - 1 ==> #[trigger] self.buffer.grid()[r] == w0.buffer.grid()[r
                        + 1],
                forall|r: int|
                    row - 1 <= r < BUFFER_HEIGHT ==> #[trigger] self.buffer.grid()[r]
                        == w0.buffer.grid()[r],
            decreases BUFFER_HEIGHT - row,
        {
            let mut col: usize = 0;
            while col < BUFFER_WIDTH
                invariant
                    1 <= row < BUFFER_HEIGHT,
                    col <= BUFFER_WIDTH,
                    self.wf(),
                    self.column_position == w0.column_position,
                    self.color_code == w0.color_code,
                    forall|r: int|
                        0 <= r < row - 1 ==> #[trigger] self.buffer.grid()[r] == w0.buffer.grid()[r
                            + 1],
                    forall|c: int|
                        0 <= c < col ==> #[trigger] self.buffer.grid()[row - 1][c]
                            == w0.buffer.grid()[row as int][c],
                    forall|c: int|
                        col <= c < BUFFER_WIDTH ==> #[trigger] self.buffer.grid()[row - 1][c]
                            == w0.buffer.grid()[row - 1][c],
                    forall|r: int|
                        row <= r < BUFFER_HEIGHT ==> #[trigger] self.buffer.grid()[r]
                            == w0.buffer.grid()[r],
                decreases BUFFER_WIDTH - col,
            {
                let character = self.buffer.read(row, col);
                self.buffer.write(row - 1, col, character);
                col = col + 1;
            }
            proof {
                assert(self.buffer.grid()[row - 1] =~= w0.buffer.grid()[row as int]);
            }
            row = row + 1;
        }
        self.clear_row(BUFFER_HEIGHT - 1);
        self.column_position = 0;
        proof {
            assert(self@ =~~= after_new_line(w0@));
        }
    }

    /// Overwrites every cell of the given row with a blank in the current
    /// color. Used when scrolling and to give the bottom row a clean start.
    pub fn clear_row(&mut self, row: usize)
        requires
            old(self).wf(),
            row < BUFFER_HEIGHT,
        ensures
            final(self).wf(),
            final(self)@.grid == cleared(old(self)@.grid, row as int, old(self)@.color),
            final(self)@.column == old(self)@.column,
            final(self)@.color == old(self)@.color,
    {
        let ghost w0: Writer = *old(self);
        let blank = ScreenChar { ascii_character: 0x20, color_code: self.color_code };
        let mut col: usize = 0;
        while col < BUFFER_WIDTH
            invariant
                col <= BUFFER_WIDTH,
                row < BUFFER_HEIGHT,
                self.wf(),
                self.column_position == w0.column_position,
                self.color_code == w0.color_code,
                blank == blank_cell(w0@.color),
                forall|c: int|
                    0 <= c < col ==> #[trigger] self.buffer.grid()[row as int][c] == blank_cell(
                        w0@.color,
                    ),
                forall|c: int|
                    col <= c < BUFFER_WIDTH ==> #[trigger] self.buffer.grid()[row as int][c]
                        == w0.buffer.grid()[row as int][c],
                forall|r: int|
                    0 <= r < BUFFER_HEIGHT && r != row ==> #[trigger] self.buffer.grid()[r]
                        == w0.buffer.grid()[r],
            decreases BUFFER_WIDTH - col,
        {
            self.buffer.write(row, col, blank);
            col = col + 1;
        }
        proof {
            assert(self@.grid =~~= cleared(w0@.grid, row as int, w0@.color));
        }
    }
}

/// Renders already-formatted text through a writer: the string-level entry
/// point the formatted-output adapter hands its rendered text to.
pub fn _print(writer: &mut Writer, s: &str)
    requires
        old(writer).wf(),
    ensures
        final(writer).wf(),
        final(writer)@ == after_bytes(old(writer)@, s.spec_bytes()),
{
    writer.write_string(s);
}

} // verus!
