//! The sixteen colors of the text-mode palette and the attribute byte that
//! pairs a foreground with a background.

use vstd::prelude::*;

verus! {

/// One of the sixteen colors that the display hardware knows.
#[derive(Clone, Copy, Debug, PartialEq, Eq, Structural)]
pub enum Color {
    Black,
    Blue,
    Green,
    Cyan,
    Red,
    Magenta,
    Brown,
    LightGray,
    DarkGray,
    LightBlue,
    LightGreen,
    LightCyan,
    LightRed,
    Pink,
    Yellow,
    White,
}

impl Color {
    /// The number that the hardware gives this color.
    pub open spec fn spec_code(self) -> u8 {
        match self {
            Color::Black => 0,
            Color::Blue => 1,
            Color::Green => 2,
            Color::Cyan => 3,
            Color::Red => 4,
            Color::Magenta => 5,
            Color::Brown => 6,
            Color::LightGray => 7,
            Color::DarkGray => 8,
            Color::LightBlue => 9,
            Color::LightGreen => 10,
            Color::LightCyan => 11,
            Color::LightRed => 12,
            Color::Pink => 13,
            Color::Yellow => 14,
            Color::White => 15,
        }
    }

    /// The number that the hardware gives this color; it fits in four bits.
    #[verifier::when_used_as_spec(spec_code)]
    pub fn code(self) -> (code: u8)
        ensures
            code == self.spec_code(),
            code <= 15,
    {
        match self {
            Color::Black => 0,
            Color::Blue => 1,
            Color::Green => 2,
            Color::Cyan => 3,
            Color::Red => 4,
            Color::Magenta => 5,
            Color::Brown => 6,
            Color::LightGray => 7,
            Color::DarkGray => 8,
            Color::LightBlue => 9,
            Color::LightGreen => 10,
            Color::LightCyan => 11,
            Color::LightRed => 12,
            Color::Pink => 13,
            Color::Yellow => 14,
            Color::White => 15,
        }
    }
}

/// An attribute byte: the background color in the high four bits, the
/// foreground color in the low four.
#[derive(Clone, Copy, Debug, PartialEq, Eq, Structural)]
pub struct ColorCode(pub u8);

/// The attribute byte of two color numbers.
pub open spec fn packed(foreground: u8, background: u8) -> u8 {
    (background << 4) | foreground
}

/// For color numbers of four bits each, packing loses nothing: the two can
/// be read back from the byte, and the byte is sixteen times the background
/// plus the foreground.
pub proof fn lemma_packed_nibbles(foreground: u8, background: u8)
    requires
        foreground <= 15,
        background <= 15,
    ensures
        packed(foreground, background) & 0x0f == foreground,
        packed(foreground, background) >> 4 == background,
        packed(foreground, background) == 16 * background + foreground,
{
    assert(((background << 4) | foreground) & 0x0f == foreground) by (bit_vector)
        requires
            foreground <= 15,
            background <= 15,
    ;
    assert(((background << 4) | foreground) >> 4 == background) by (bit_vector)
        requires
            foreground <= 15,
            background <= 15,
    ;
    assert(((background << 4) | foreground) == 16 * background + foreground) by (bit_vector)
        requires
            foreground <= 15,
            background <= 15,
    ;
}

impl ColorCode {
    /// Packs a foreground and a background color into one attribute byte.
    pub fn new(foreground: Color, background: Color) -> (code: ColorCode)
        ensures
            code.0 == packed(foreground.code(), background.code()),
            code.0 == 16 * background.code() + foreground.code(),
    {
        proof {
            lemma_packed_nibbles(foreground.code(), background.code());
        }
        ColorCode((background.code() << 4) | foreground.code())
    }
}

} // verus!
