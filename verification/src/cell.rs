//! The character cell, and the volatile memory cell that holds one on the
//! display.
//!
//! The memory cell is `Volatile` of the `volatile` crate. The verifier does
//! not look into that crate: what this module says of it is taken on trust,
//! and each item says so.

use crate::color::ColorCode;
use volatile::Volatile;
use vstd::prelude::*;

verus! {

/// One character cell: the byte that picks the glyph, then the attribute
/// byte that colors it.
#[derive(Clone, Copy, Debug, PartialEq, Eq, Structural)]
pub struct ScreenChar {
    pub ascii_character: u8,
    pub color_code: ColorCode,
}

impl ScreenChar {
    /// A space in the given colors.
    pub open spec fn spec_blank(color_code: ColorCode) -> ScreenChar {
        ScreenChar { ascii_character: 0x20, color_code }
    }

    /// A space in the given colors.
    #[verifier::when_used_as_spec(spec_blank)]
    pub fn blank(color_code: ColorCode) -> (cell: ScreenChar)
        ensures
            cell == ScreenChar::spec_blank(color_code),
    {
        ScreenChar { ascii_character: 0x20, color_code }
    }
}

/// `volatile::Volatile<T>`: a value of type `T` in memory that is read and
/// written by volatile accesses only. The verifier sees nothing inside it.
#[verifier::external_type_specification]
#[verifier::external_body]
#[verifier::reject_recursive_types(T)]
pub struct ExVolatile<T: Copy>(Volatile<T>);

/// The value that a volatile memory cell contains: what `Volatile::read`
/// returns and what `Volatile::write` sets.
pub uninterp spec fn held(cell: Volatile<ScreenChar>) -> ScreenChar;

/// Calls `Volatile::read`.
///
/// Taken on trust: the call returns a copy of the value that the cell
/// contains.
#[verifier::external_body]
pub(crate) fn volatile_read(cell: &Volatile<ScreenChar>) -> (value: ScreenChar)
    ensures
        value == held(*cell),
{
    cell.read()
}

/// Calls `Volatile::write`.
///
/// Taken on trust: after the call the cell contains `value`, and the call
/// does not panic.
#[verifier::external_body]
pub(crate) fn volatile_write(cell: &mut Volatile<ScreenChar>, value: ScreenChar)
    ensures
        held(*final(cell)) == value,
    no_unwind
{
    cell.write(value)
}

/// Makes a grid of memory cells in ordinary memory, each by `Volatile::new`
/// on `value`. Nothing is claimed of what the cells contain.
#[verifier::external_body]
pub(crate) fn volatile_grid<const ROWS: usize, const COLS: usize>(
    value: ScreenChar,
) -> [[Volatile<ScreenChar>; COLS]; ROWS] {
    core::array::from_fn(|_| core::array::from_fn(|_| Volatile::new(value)))
}

} // verus!
