//! What printing does to a display, stated over plain values: the column of
//! the next byte, the colors in use, and the grid of cells.

use crate::buffer::{well_shaped, with_cell, Grid, BUFFER_HEIGHT, BUFFER_WIDTH};
use crate::cell::ScreenChar;
use crate::color::ColorCode;
use vstd::prelude::*;

verus! {

/// The byte that ends a line: the line feed. It is the only byte that is
/// not put on the display when it is printed.
pub const LINE_FEED: u8 = 0x0a;

/// The byte shown in place of one that the display cannot show.
pub const PLACEHOLDER: u8 = 0xfe;

/// A byte of printable ASCII.
pub open spec fn is_printable(byte: u8) -> bool {
    0x20 <= byte <= 0x7e
}

/// The byte that is printed for `byte`: itself if it is printable or ends a
/// line, the placeholder otherwise.
pub open spec fn displayed(byte: u8) -> u8 {
    if is_printable(byte) || byte == LINE_FEED {
        byte
    } else {
        PLACEHOLDER
    }
}

/// The bytes that are printed for `bytes`, place by place.
pub open spec fn displayed_bytes(bytes: Seq<u8>) -> Seq<u8> {
    Seq::new(bytes.len(), |i: int| displayed(bytes[i]))
}

/// A row of spaces in the given colors.
pub open spec fn blank_row(color_code: ColorCode) -> Seq<ScreenChar> {
    Seq::new(BUFFER_WIDTH as nat, |col: int| ScreenChar::blank(color_code))
}

/// The grid moved up by one row: the top row is gone, every other row
/// stands one place higher, and the bottom row is blank.
pub open spec fn scrolled(screen: Grid, color_code: ColorCode) -> Grid {
    Seq::new(
        BUFFER_HEIGHT as nat,
        |row: int|
            if row < BUFFER_HEIGHT - 1 {
                screen[row + 1]
            } else {
                blank_row(color_code)
            },
    )
}

/// A writer as its callers see it.
pub struct WriterView {
    /// The column of the bottom row that the next byte goes to.
    pub column: nat,
    /// The colors of what is printed.
    pub color_code: ColorCode,
    /// What the display shows.
    pub screen: Grid,
}

impl WriterView {
    /// The column is on the row or just past its end, and the grid has the
    /// display's shape.
    pub open spec fn wf(self) -> bool {
        &&& self.column <= BUFFER_WIDTH
        &&& well_shaped(self.screen)
    }

    /// The display scrolls by one row and printing goes on at the left.
    pub open spec fn scroll_and_reset(self) -> WriterView {
        WriterView { column: 0, screen: scrolled(self.screen, self.color_code), ..self }
    }

    /// `byte` is put into the bottom row at the column, which moves on by
    /// one.
    pub open spec fn put(self, byte: u8) -> WriterView {
        WriterView {
            column: self.column + 1,
            screen: with_cell(
                self.screen,
                BUFFER_HEIGHT - 1,
                self.column as int,
                ScreenChar { ascii_character: byte, color_code: self.color_code },
            ),
            ..self
        }
    }

    /// One byte is printed: a line feed scrolls; any other byte is put into
    /// the bottom row, after a scroll if the row is full.
    pub open spec fn write_byte(self, byte: u8) -> WriterView {
        if byte == LINE_FEED {
            self.scroll_and_reset()
        } else if self.column >= BUFFER_WIDTH {
            self.scroll_and_reset().put(byte)
        } else {
            self.put(byte)
        }
    }

    /// The bytes are printed one after the other.
    pub open spec fn write_bytes(self, bytes: Seq<u8>) -> WriterView
        decreases bytes.len(),
    {
        if bytes.len() == 0 {
            self
        } else {
            self.write_bytes(bytes.drop_last()).write_byte(bytes.last())
        }
    }

    /// The bytes of a string are printed, each as `displayed` gives it.
    pub open spec fn write_string(self, bytes: Seq<u8>) -> WriterView {
        self.write_bytes(displayed_bytes(bytes))
    }
}

} // verus!
