//! The pointer snapshot the environment hands to the widget each frame.

use vstd::prelude::*;

verus! {

/// Whether the pointer's left button is pressed.
#[derive(Clone, Copy, Debug, PartialEq, Eq, Structural)]
pub enum ButtonState {
    Up,
    Down,
}

/// A pointer snapshot, with coordinates relative to the widget's center.
#[derive(Clone, Copy, Debug, PartialEq, Eq, Structural)]
pub struct Mouse {
    pub x: i64,
    pub y: i64,
    pub left: ButtonState,
}

impl Mouse {
    /// Construct a pointer snapshot.
    pub fn new(x: i64, y: i64, left: ButtonState) -> (m: Mouse)
        ensures
            m == (Mouse { x, y, left }),
    {
        Mouse { x, y, left }
    }
}

} // verus!
