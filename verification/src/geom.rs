//! Buffer-space coordinates: points, rectangles, and the clamping primitive
//! every cursor movement routes through.

use vstd::prelude::*;

verus! {

/// A position in buffer space: `x` is the column, `y` is the row, both
/// zero-based and measured in characters (not bytes).
#[derive(Clone, Copy, PartialEq, Eq, Structural)]
pub struct Point {
    pub x: usize,
    pub y: usize,
}

/// An axis-aligned rectangle over buffer coordinates: `pos` is the origin
/// (top-left corner), `size` holds the width (`x`) and height (`y`) in cells.
#[derive(Clone, Copy, PartialEq, Eq, Structural)]
pub struct Rect {
    pub pos: Point,
    pub size: Point,
}

impl Rect {
    /// A degenerate rectangle at the origin; a real size arrives with the
    /// first resize event.
    pub fn new() -> (r: Rect)
        ensures
            r.pos.x == 0 && r.pos.y == 0 && r.size.x == 0 && r.size.y == 0,
    {
        Rect { pos: Point { x: 0, y: 0 }, size: Point { x: 0, y: 0 } }
    }
}

/// `v` clamped to `[lo, hi]`; when the interval is empty (`hi < lo`), the
/// lower bound wins, as `max(lo, min(hi, v))` has it.
pub open spec fn clamp_i(v: int, lo: int, hi: int) -> int {
    let m = if v < hi {
        v
    } else {
        hi
    };
    if m < lo {
        lo
    } else {
        m
    }
}

/// `v` clamped to `[lo, hi]`, the executable counterpart of `clamp_i`.
pub fn clamp(v: usize, lo: usize, hi: usize) -> (r: usize)
    ensures
        r == clamp_i(v as int, lo as int, hi as int),
{
    let m = if v < hi {
        v
    } else {
        hi
    };
    if m < lo {
        lo
    } else {
        m
    }
}

} // verus!
