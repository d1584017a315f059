//! The abstract visual description the draw phase emits: plain shapes in
//! screen coordinates, for a rendering backend to turn into pixels.

use vstd::prelude::*;
use crate::color::Color;

verus! {

/// A filled rectangle centered on (`x`, `y`).
#[derive(Clone, Copy, Debug, PartialEq, Eq, Structural)]
pub struct RectForm {
    pub x: i64,
    pub y: i64,
    pub w: i64,
    pub h: i64,
    pub color: Color,
}

/// A text label centered on (`x`, `y`).
#[derive(Clone, Debug, PartialEq)]
pub struct TextForm {
    pub x: i64,
    pub y: i64,
    pub text: String,
    pub color: Color,
    pub height: u32,
}

/// Everything the slider renders in one frame: the backdrop rectangle, the
/// proportional fill bar, and an optional label, all in screen coordinates.
#[derive(Clone, Debug, PartialEq)]
pub struct Element {
    pub w: i64,
    pub h: i64,
    pub backdrop: RectForm,
    pub pad: RectForm,
    pub maybe_label: Option<TextForm>,
}

} // verus!
