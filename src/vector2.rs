use crate::rng::random_in;
use std::ops::Range;
use vstd::prelude::*;

verus! {

/// Sub-pixel units in one pixel: lengths and positions are fixed point.
pub const UNITS_PER_PIXEL: i64 = 1000;

/// A 2D vector whose components count thousandths of a pixel.
#[derive(Clone, Copy, Debug, PartialEq, Eq, Structural)]
pub struct Vector2 {
    pub x: i64,
    pub y: i64,
}

impl Vector2 {
    pub fn new(x: i64, y: i64) -> (r: Vector2)
        ensures
            r.x == x,
            r.y == y,
    {
        Vector2 { x, y }
    }

    /// Each component drawn independently and uniformly from `range`.
    pub fn new_rand(range: Range<i64>) -> (r: Vector2)
        requires
            range.start < range.end,
        ensures
            range.start <= r.x < range.end,
            range.start <= r.y < range.end,
    {
        let x = random_in(range.start, range.end);
        let y = random_in(range.start, range.end);
        Vector2 { x, y }
    }
}

/// Whole pixels in `u` units, rounded toward zero.
pub open spec fn pixels_toward_zero(u: int) -> int {
    if u >= 0 {
        u / (UNITS_PER_PIXEL as int)
    } else {
        -((-u) / (UNITS_PER_PIXEL as int))
    }
}

/// The screen coordinate of a position in units: whole pixels rounded toward
/// zero, saturated to the range of `i32`.
pub open spec fn screen_coord_of(u: int) -> int {
    let p = pixels_toward_zero(u);
    if p > i32::MAX as int {
        i32::MAX as int
    } else if p < i32::MIN as int {
        i32::MIN as int
    } else {
        p
    }
}

/// Converts a position in units to the pixel coordinate of a window.
pub fn screen_coord(u: i64) -> (r: i32)
    ensures
        r as int == screen_coord_of(u as int),
{
    let p: i64 = if u >= 0 {
        u / UNITS_PER_PIXEL
    } else {
        let n: i128 = -(u as i128);
        -((n / (UNITS_PER_PIXEL as i128)) as i64)
    };
    if p > i32::MAX as i64 {
        i32::MAX
    } else if p < i32::MIN as i64 {
        i32::MIN
    } else {
        p as i32
    }
}

} // verus!
