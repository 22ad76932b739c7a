//! The writer: it prints bytes into the bottom row of a display region,
//! wraps at the end of the row and scrolls.

use crate::buffer::{well_shaped, Buffer, Grid, BUFFER_HEIGHT, BUFFER_WIDTH};
use crate::cell::ScreenChar;
use crate::color::ColorCode;
use crate::model::{
    blank_row, displayed, displayed_bytes, scrolled, WriterView, LINE_FEED, PLACEHOLDER,
};
use vstd::prelude::*;
use vstd::string::StringSliceAdditionalSpecFns;

pub mod shared;

verus! {

/// `core::fmt::Error`, the error of the formatting traits. It carries no
/// information.
#[verifier::external_type_specification]
#[verifier::external_body]
pub struct ExFmtError(core::fmt::Error);

/// A writer on a display region. It holds the region for as long as it
/// lives, so no one else prints on it meanwhile.
pub struct Writer<'a> {
    column_position: usize,
    color_code: ColorCode,
    buffer: &'a mut Buffer,
}

impl<'a> View for Writer<'a> {
    type V = WriterView;

    closed spec fn view(&self) -> WriterView {
        WriterView {
            column: self.column_position as nat,
            color_code: self.color_code,
            screen: self.buffer@,
        }
    }
}

impl<'a> Writer<'a> {
    #[verifier::type_invariant]
    spec fn column_in_row(self) -> bool {
        self.column_position <= BUFFER_WIDTH
    }

    /// A writer at the left of the bottom row of `buffer`, printing in
    /// `color_code`. The display is as it was.
    pub fn new(buffer: &'a mut Buffer, color_code: ColorCode) -> (writer: Self)
        ensures
            writer@ == (WriterView { column: 0, color_code, screen: old(buffer)@ }),
            writer@.wf(),
    {
        Writer { column_position: 0, color_code, buffer }
    }

    /// The column that the next byte goes to.
    pub fn column_position(&self) -> (column: usize)
        ensures
            column == self@.column,
            column <= BUFFER_WIDTH,
    {
        proof {
            use_type_invariant(&*self);
        }
        self.column_position
    }

    /// The colors of what is printed.
    pub fn color_code(&self) -> (color_code: ColorCode)
        ensures
            color_code == self@.color_code,
    {
        self.color_code
    }

    /// The cell that the display shows at a row and column.
    pub fn cell(&self, row: usize, col: usize) -> (cell: ScreenChar)
        requires
            row < BUFFER_HEIGHT,
            col < BUFFER_WIDTH,
        ensures
            cell == self@.screen[row as int][col as int],
    {
        self.buffer.read(row, col)
    }

    /// Prints one byte. A line feed scrolls the display and goes back to
    /// the left. Any other byte goes into the bottom row at the column,
    /// which moves one to the right; where the row is full, the display
    /// scrolls first.
    pub fn write_byte(&mut self, byte: u8)
        ensures
            final(self)@ == old(self)@.write_byte(byte),
            final(self)@.wf(),
    {
        if byte == LINE_FEED {
            self.new_line();
        } else {
            if self.column_position >= BUFFER_WIDTH {
                self.new_line();
            }
            let row = BUFFER_HEIGHT - 1;
            let col = self.column_position;

            let color_code = self.color_code;
            self.buffer.write(row, col, ScreenChar { ascii_character: byte, color_code });
            self.column_position += 1;
        }
    }

    /// Scrolls the display by one row: the top row is gone, every other row
    /// moves up by one, the bottom row is blank in the writer's colors, and
    /// printing goes on at the left.
    pub fn new_line(&mut self)
        ensures
            final(self)@ == old(self)@.scroll_and_reset(),
            final(self)@.wf(),
            forall|row: int|
                1 <= row < BUFFER_HEIGHT ==> final(self)@.screen[row - 1]
                    == #[trigger] old(self)@.screen[row],
            final(self)@.screen[BUFFER_HEIGHT - 1] == blank_row(old(self)@.color_code),
            final(self)@.column == 0,
            final(self)@.color_code == old(self)@.color_code,
    {
        proof {
            use_type_invariant(&*self);
        }
        let ghost before = self@;
        assert(before.screen =~~= shifted_to(before.screen, 1, 0));
        for row in 1..BUFFER_HEIGHT
            invariant
                self.column_position <= BUFFER_WIDTH,
                well_shaped(before.screen),
                self@ == (WriterView { screen: shifted_to(before.screen, row as int, 0), ..before }),
        {
            for col in 0..BUFFER_WIDTH
                invariant
                    1 <= row < BUFFER_HEIGHT,
                    self.column_position <= BUFFER_WIDTH,
                    well_shaped(before.screen),
                    self@ == (WriterView {
                        screen: shifted_to(before.screen, row as int, col as int),
                        ..before
                    }),
            {
                let character = self.buffer.read(row, col);
                self.buffer.write(row - 1, col, character);
                assert(self@.screen =~~= shifted_to(before.screen, row as int, col + 1));
            }
            assert(self@.screen =~~= shifted_to(before.screen, row + 1, 0));
        }
        self.clear_row(BUFFER_HEIGHT - 1);
        self.column_position = 0;
        assert(self@.screen =~~= scrolled(before.screen, before.color_code));
    }

    /// Prints a string byte by byte. A byte that is neither printable
    /// ASCII nor a line feed is printed as the placeholder.
    pub fn write_string(&mut self, s: &str)
        ensures
            final(self)@ == old(self)@.write_string(s.spec_bytes()),
            final(self)@.wf(),
    {
        proof {
            use_type_invariant(&*self);
        }
        let ghost before = self@;
        let bytes = s.as_bytes();
        for i in 0..bytes.len()
            invariant
                bytes@ == s.spec_bytes(),
                self@ == before.write_bytes(displayed_bytes(bytes@.take(i as int))),
                self@.wf(),
        {
            let byte = bytes[i];
            proof {
                let done = displayed_bytes(bytes@.take(i + 1));
                assert(done.drop_last() =~= displayed_bytes(bytes@.take(i as int)));
                assert(done.last() == displayed(byte));
            }
            if (0x20 <= byte && byte <= 0x7e) || byte == LINE_FEED {
                self.write_byte(byte);
            } else {
                self.write_byte(PLACEHOLDER);
            }
        }
        assert(bytes@.take(bytes@.len() as int) =~= bytes@);
    }

    /// Overwrites a row with spaces in the writer's colors. Nothing else
    /// changes.
    pub fn clear_row(&mut self, row: usize)
        requires
            row < BUFFER_HEIGHT,
        ensures
            final(self)@ == (WriterView {
                screen: old(self)@.screen.update(row as int, blank_row(old(self)@.color_code)),
                ..old(self)@
            }),
            final(self)@.wf(),
    {
        proof {
            use_type_invariant(&*self);
        }
        let ghost before = self@;
        let blank = ScreenChar::blank(self.color_code);
        assert(before.screen =~~= blanked_to(before.screen, row as int, 0, blank));
        for col in 0..BUFFER_WIDTH
            invariant
                row < BUFFER_HEIGHT,
                self.column_position <= BUFFER_WIDTH,
                well_shaped(before.screen),
                self@ == (WriterView {
                    screen: blanked_to(before.screen, row as int, col as int, blank),
                    ..before
                }),
        {
            self.buffer.write(row, col, blank);
            assert(self@.screen =~~= blanked_to(before.screen, row as int, col + 1, blank));
        }
        assert(self@.screen =~~= before.screen.update(row as int, blank_row(before.color_code)));
    }
}

impl<'a> core::fmt::Write for Writer<'a> {
    /// Prints a string as `write_string` does. It never fails.
    fn write_str(&mut self, s: &str) -> (result: core::fmt::Result)
        ensures
            result is Ok,
            final(self)@ == old(self)@.write_string(s.spec_bytes()),
            final(self)@.wf(),
    {
        self.write_string(s);
        Ok(())
    }
}

/// The grid on the way to being scrolled: the rows above `row - 1` already
/// hold what stood one row lower, and so do the cells of row `row - 1` left
/// of column `col`; every other cell is as it was.
spec fn shifted_to(screen: Grid, row: int, col: int) -> Grid {
    Seq::new(
        BUFFER_HEIGHT as nat,
        |r: int|
            if r < row - 1 {
                screen[r + 1]
            } else if r == row - 1 {
                Seq::new(
                    BUFFER_WIDTH as nat,
                    |c: int|
                        if c < col {
                            screen[row][c]
                        } else {
                            screen[r][c]
                        },
                )
            } else {
                screen[r]
            },
    )
}

/// The grid in which the cells of `row` left of column `upto` are `blank`.
spec fn blanked_to(screen: Grid, row: int, upto: int, blank: ScreenChar) -> Grid {
    screen.update(
        row,
        Seq::new(
            BUFFER_WIDTH as nat,
            |col: int|
                if col < upto {
                    blank
                } else {
                    screen[row][col]
                },
        ),
    )
}

} // verus!
