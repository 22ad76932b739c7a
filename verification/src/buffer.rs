//! The display region: a grid of volatile character cells, laid out as the
//! hardware reads it.

use crate::cell::{held, volatile_grid, volatile_read, volatile_write, ScreenChar};
use volatile::Volatile;
use vstd::prelude::*;

verus! {

/// Rows on the display.
pub const BUFFER_HEIGHT: usize = 25;

/// Columns on the display.
pub const BUFFER_WIDTH: usize = 80;

/// What a display shows: its rows from top to bottom, each a sequence of
/// cells from left to right.
pub type Grid = Seq<Seq<ScreenChar>>;

/// A grid has the display's shape.
pub open spec fn well_shaped(grid: Grid) -> bool {
    &&& grid.len() == BUFFER_HEIGHT
    &&& forall|row: int| 0 <= row < BUFFER_HEIGHT ==> (#[trigger] grid[row]).len() == BUFFER_WIDTH
}

/// The grid with one cell replaced.
pub open spec fn with_cell(grid: Grid, row: int, col: int, cell: ScreenChar) -> Grid {
    grid.update(row, grid[row].update(col, cell))
}

/// The grid whose cells are all `cell`.
pub open spec fn uniform(cell: ScreenChar) -> Grid {
    Seq::new(BUFFER_HEIGHT as nat, |row: int| Seq::new(BUFFER_WIDTH as nat, |col: int| cell))
}

/// The display region. Every access to a cell is a volatile access. That a
/// row and a column lie inside the region is proved where the access is
/// made.
pub struct Buffer {
    chars: [[Volatile<ScreenChar>; BUFFER_WIDTH]; BUFFER_HEIGHT],
}

impl Buffer {
    /// The cell at a row and column.
    pub closed spec fn cell(&self, row: int, col: int) -> ScreenChar {
        held(self.chars[row][col])
    }

    /// A region in ordinary memory whose cells all hold `cell`: a display
    /// to print on where there is no hardware.
    pub fn filled(cell: ScreenChar) -> (buffer: Buffer)
        ensures
            buffer@ == uniform(cell),
    {
        let mut buffer = Buffer { chars: volatile_grid(cell) };
        for row in 0..BUFFER_HEIGHT
            invariant
                forall|r: int, c: int|
                    0 <= r < row && 0 <= c < BUFFER_WIDTH ==> #[trigger] buffer@[r][c] == cell,
        {
            for col in 0..BUFFER_WIDTH
                invariant
                    row < BUFFER_HEIGHT,
                    forall|r: int, c: int|
                        0 <= r < row && 0 <= c < BUFFER_WIDTH ==> #[trigger] buffer@[r][c] == cell,
                    forall|c: int| 0 <= c < col ==> #[trigger] buffer@[row as int][c] == cell,
            {
                buffer.write(row, col, cell);
            }
        }
        assert(buffer@ =~~= uniform(cell));
        buffer
    }

    /// Reads the cell at a row and column.
    pub fn read(&self, row: usize, col: usize) -> (cell: ScreenChar)
        requires
            row < BUFFER_HEIGHT,
            col < BUFFER_WIDTH,
        ensures
            cell == self@[row as int][col as int],
    {
        volatile_read(&self.chars[row][col])
    }

    /// Writes the cell at a row and column; every other cell stays as it is.
    pub fn write(&mut self, row: usize, col: usize, cell: ScreenChar)
        requires
            row < BUFFER_HEIGHT,
            col < BUFFER_WIDTH,
        ensures
            final(self)@ == with_cell(old(self)@, row as int, col as int, cell),
        no_unwind
    {
        volatile_write(&mut self.chars[row][col], cell);
        assert(self@ =~~= with_cell(old(self)@, row as int, col as int, cell));
    }
}

impl View for Buffer {
    type V = Grid;

    /// The grid that the region shows.
    open spec fn view(&self) -> Grid {
        Seq::new(
            BUFFER_HEIGHT as nat,
            |row: int| Seq::new(BUFFER_WIDTH as nat, |col: int| self.cell(row, col)),
        )
    }
}

} // verus!
