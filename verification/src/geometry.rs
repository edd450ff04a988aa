//! Fixed-point points and vectors.
//!
//! A coordinate counts thousandths of a world unit, so that the simulation
//! gives the same result on every machine.

use vstd::prelude::*;

verus! {

/// Thousandths in one whole unit: the scale of every fixed-point quantity.
pub const SCALE: i64 = 1000;

/// A point or a vector in the plane.
#[derive(Clone, Copy, Debug, PartialEq, Eq, Structural)]
pub struct Vec2 {
    pub x: i32,
    pub y: i32,
}

/// A point or a vector in space; the camera lives here.
#[derive(Clone, Copy, Debug, PartialEq, Eq, Structural)]
pub struct Vec3 {
    pub x: i32,
    pub y: i32,
    pub z: i32,
}

/// The nearest value to `v` that an `i32` can hold.
pub open spec fn clamp_i32(v: int) -> int {
    if v < i32::MIN {
        i32::MIN as int
    } else if v > i32::MAX {
        i32::MAX as int
    } else {
        v
    }
}

/// Brings a wide intermediate result back into the range of a coordinate.
pub fn saturate_i32(v: i128) -> (r: i32)
    ensures
        r == clamp_i32(v as int),
{
    if v < -2147483648 {
        i32::MIN
    } else if v > 2147483647 {
        i32::MAX
    } else {
        v as i32
    }
}

/// Half of a length, rounded towards zero: the half extent of a box of that
/// width or height.
pub open spec fn half(v: int) -> int {
    if v >= 0 {
        v / 2
    } else {
        -((-v) / 2)
    }
}

/// Half of a length, rounded towards zero.
pub fn half_of(v: i32) -> (r: i32)
    ensures
        r == half(v as int),
{
    v / 2
}

} // verus!
