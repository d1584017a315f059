//! Position requests, alignment, and the local alignment offsets the draw
//! phase uses to place a label inside the widget.

use vstd::prelude::*;
use crate::utils::{bounded, div_nonneg, COORD_LIMIT};

verus! {

/// Rendering depth (z-order) of the widget.
pub type Depth = i64;

/// How the widget asks to be placed; the layout system resolves this to a
/// screen position.
#[derive(Clone, Copy, Debug, PartialEq, Eq, Structural)]
pub enum Position {
    /// An absolute screen position.
    Absolute(i64, i64),
    /// An offset from the previously placed widget.
    Relative(i64, i64),
}

impl Default for Position {
    /// The default request: the screen origin.
    fn default() -> (p: Position)
        ensures
            p == Position::Absolute(0, 0),
    {
        Position::Absolute(0, 0)
    }
}

/// Horizontal alignment of the widget within its placement.
#[derive(Clone, Copy, Debug, PartialEq, Eq, Structural)]
pub enum HorizontalAlign {
    Left,
    Middle,
    Right,
}

/// Vertical alignment of the widget within its placement.
#[derive(Clone, Copy, Debug, PartialEq, Eq, Structural)]
pub enum VerticalAlign {
    Top,
    Middle,
    Bottom,
}

/// Half of `n`, rounded toward zero.
pub open spec fn half_toward_zero(n: int) -> int {
    if n >= 0 {
        n / 2
    } else {
        -((-n) / 2)
    }
}

/// In centered local coordinates, the x offset that aligns a form of width
/// `width` with the left edge of a container of width `target`.
pub open spec fn align_left_of_spec(target: int, width: int) -> int {
    half_toward_zero(width - target)
}

/// Local x offset aligning a form of width `width` to the left edge of a
/// container of width `target`.
pub fn align_left_of(target: i64, width: i64) -> (x: i64)
    requires
        0 <= target <= COORD_LIMIT,
        0 <= width <= COORD_LIMIT,
    ensures
        x == align_left_of_spec(target as int, width as int),
        bounded(x as int),
{
    if width >= target {
        div_nonneg(width - target, 2)
    } else {
        -div_nonneg(target - width, 2)
    }
}

/// In centered local coordinates, the y offset that aligns a form of height
/// `height` with the bottom edge of a container of height `target`.
pub open spec fn align_bottom_of_spec(target: int, height: int) -> int {
    half_toward_zero(height - target)
}

/// Local y offset aligning a form of height `height` to the bottom edge of a
/// container of height `target`.
pub fn align_bottom_of(target: i64, height: i64) -> (y: i64)
    requires
        0 <= target <= COORD_LIMIT,
        0 <= height <= COORD_LIMIT,
    ensures
        y == align_bottom_of_spec(target as int, height as int),
        bounded(y as int),
{
    if height >= target {
        div_nonneg(height - target, 2)
    } else {
        -div_nonneg(target - height, 2)
    }
}

} // verus!
