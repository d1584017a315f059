//! Small numeric helpers shared by the widget's update and draw phases.

use vstd::prelude::*;

verus! {

/// Every coordinate, dimension, frame width and slider value handled by the
/// widget is kept within this magnitude so that the intermediate products of
/// the proportional-value computation fit comfortably in an `i64`.
pub const COORD_LIMIT: i64 = 1_000_000;

/// A quantity the widget's arithmetic may work on.
pub open spec fn bounded(n: int) -> bool {
    -COORD_LIMIT <= n <= COORD_LIMIT
}

/// `n` clamped to the closed interval [`lo`, `hi`].
pub open spec fn clamp_spec(n: int, lo: int, hi: int) -> int {
    if n < lo {
        lo
    } else if n > hi {
        hi
    } else {
        n
    }
}

/// Clamp `n` to [`lo`, `hi`].
pub fn clamp(n: i64, lo: i64, hi: i64) -> (r: i64)
    requires
        lo <= hi,
    ensures
        r == clamp_spec(n as int, lo as int, hi as int),
{
    if n < lo {
        lo
    } else if n > hi {
        hi
    } else {
        n
    }
}

/// Floor division of a non-negative quantity by a positive one.
pub fn div_nonneg(a: i64, b: i64) -> (r: i64)
    requires
        0 <= a,
        0 < b,
    ensures
        r == a as int / b as int,
{
    a / b
}

/// Distance between two coordinates.
pub open spec fn dist(a: int, b: int) -> int {
    if a >= b {
        a - b
    } else {
        b - a
    }
}

/// Whether the point (`px`, `py`) lies inside the rectangle centered on
/// (`cx`, `cy`) with dimensions `w` by `h` (bounds inclusive).
pub open spec fn is_over_rect_spec(cx: int, cy: int, px: int, py: int, w: int, h: int) -> bool {
    2 * dist(px, cx) <= w && 2 * dist(py, cy) <= h
}

/// Bounds containment test against a centered rectangle.
pub fn is_over_rect(cx: i64, cy: i64, px: i64, py: i64, w: i64, h: i64) -> (r: bool)
    requires
        bounded(cx as int),
        bounded(cy as int),
        bounded(px as int),
        bounded(py as int),
        0 <= w <= COORD_LIMIT,
        0 <= h <= COORD_LIMIT,
    ensures
        r == is_over_rect_spec(cx as int, cy as int, px as int, py as int, w as int, h as int),
{
    let dx: i64 = if px >= cx {
        px - cx
    } else {
        cx - px
    };
    let dy: i64 = if py >= cy {
        py - cy
    } else {
        cy - py
    };
    2 * dx <= w && 2 * dy <= h
}

} // verus!
