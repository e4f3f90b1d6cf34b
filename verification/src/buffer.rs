//! The character grid: a fixed 25-row by 80-column array of display cells,
//! each a pair of one ASCII byte and one color attribute byte.
//!
//! The device reads the cells row-major as raw bytes, so the grid is stored
//! flat in row-major order; its specification view is the two-dimensional
//! sequence of rows that the rest of the library reasons about.

use vstd::prelude::*;

use crate::color::ColorCode;

verus! {

/// Number of rows the device grid has.
pub const BUFFER_HEIGHT: usize = 25;

/// Number of columns the device grid has.
pub const BUFFER_WIDTH: usize = 80;

/// One display cell: the character byte first, the attribute byte second,
/// matching the byte order the device expects.
#[derive(Debug, Clone, Copy, PartialEq, Eq, Structural)]
pub struct ScreenChar {
    pub ascii_character: u8,
    pub color_code: ColorCode,
}

/// The grid of display cells, stored row-major: the cell at `(row, col)`
/// sits at flat index `row * BUFFER_WIDTH + col`.
pub struct Buffer {
    pub chars: Vec<ScreenChar>,
}

impl Buffer {
    /// The backing storage holds exactly one cell per grid position.
    pub open spec fn wf(&self) -> bool {
        self.chars@.len() == BUFFER_HEIGHT * BUFFER_WIDTH
    }

    /// The grid as a sequence of `BUFFER_HEIGHT` rows of `BUFFER_WIDTH` cells.
    pub open spec fn grid(&self) -> Seq<Seq<ScreenChar>> {
        Seq::new(
            BUFFER_HEIGHT as nat,
            |r: int| Seq::new(BUFFER_WIDTH as nat, |c: int| self.chars@[r * BUFFER_WIDTH + c]),
        )
    }

    /// A grid filled with one repeated cell.
    pub fn filled(cell: ScreenChar) -> (b: Buffer)
        ensures
            b.wf(),
            b.grid() == filled_grid(cell),
    {
        let mut chars: Vec<ScreenChar> = Vec::new();
        let mut i: usize = 0;
        while i < BUFFER_HEIGHT * BUFFER_WIDTH
            invariant
                i <= BUFFER_HEIGHT * BUFFER_WIDTH,
                chars@.len() == i,
                forall|j: int| 0 <= j < i ==> chars@[j] == cell,
            decreases BUFFER_HEIGHT * BUFFER_WIDTH - i,
        {
            chars.push(cell);
            i = i + 1;
        }
        let b = Buffer { chars };
        proof {
            assert(b.grid() =~~= filled_grid(cell));
        }
        b
    }

    /// The cell at `(row, col)`.
    pub fn read(&self, row: usize, col: usize) -> (r: ScreenChar)
        requires
            self.wf(),
            row < BUFFER_HEIGHT,
            col < BUFFER_WIDTH,
        ensures
            r == self.grid()[row as int][col as int],
    {
        self.chars[row * BUFFER_WIDTH + col]
    }

    /// Replaces the cell at `(row, col)`, leaving every other cell as it was.
    pub fn write(&mut self, row: usize, col: usize, cell: ScreenChar)
        requires
            old(self).wf(),
            row < BUFFER_HEIGHT,
            col < BUFFER_WIDTH,
        ensures
            final(self).wf(),
            final(self).grid() == with_cell(old(self).grid(), row as int, col as int, cell),
    {
        self.chars[row * BUFFER_WIDTH + col] = cell;
        proof {
            assert(self.grid() =~~= with_cell(old(self).grid(), row as int, col as int, cell));
        }
    }
}

/// A grid whose every cell is `cell`.
pub open spec fn filled_grid(cell: ScreenChar) -> Seq<Seq<ScreenChar>> {
    Seq::new(
        BUFFER_HEIGHT as nat,
        |r: int| Seq::new(BUFFER_WIDTH as nat, |c: int| cell),
    )
}

/// `grid` with the one cell at `(row, col)` replaced by `cell`.
pub open spec fn with_cell(
    grid: Seq<Seq<ScreenChar>>,
    row: int,
    col: int,
    cell: ScreenChar,
) -> Seq<Seq<ScreenChar>> {
    grid.update(row, grid[row].update(col, cell))
}

} // verus!
