//! Units of the fixed-point world, and the one place where a wide value is
//! narrowed to a coordinate.
//!
//! Lengths are counted in thousandths of a world unit, angles in millionths
//! of a radian, time in millionths of a second.

use vstd::prelude::*;

verus! {

/// Thousandths in one world unit.
pub const MILLI: u32 = 1_000;

/// Half a turn, in microradians.
pub const HALF_TURN: i32 = 3_141_593;

/// A quarter of a turn, in microradians: the bound of a principal arctangent.
pub const QUARTER_TURN: i32 = 1_570_796;

/// `v` held to the range of an `i32`.
pub open spec fn clamp_i32(v: int) -> int {
    if v < i32::MIN {
        i32::MIN as int
    } else if v > i32::MAX {
        i32::MAX as int
    } else {
        v
    }
}

/// Narrows `v` to an `i32`; a value outside the range becomes the nearest bound.
pub fn saturate(v: i64) -> (r: i32)
    ensures
        r == clamp_i32(v as int),
{
    if v < i32::MIN as i64 {
        i32::MIN
    } else if v > i32::MAX as i64 {
        i32::MAX
    } else {
        v as i32
    }
}

} // verus!
