//! The theme: global visual defaults plus optional per-widget overrides.

use vstd::prelude::*;
use crate::color::Color;
use crate::position::{HorizontalAlign, VerticalAlign};
use crate::slider::Style;
use crate::utils::COORD_LIMIT;

verus! {

/// Visual defaults consulted whenever a widget instance leaves an attribute
/// unset. `maybe_slider` carries the theme's slider-specific overrides; each
/// of its attributes, when present, beats the global default here.
#[derive(Clone, Copy, Debug, PartialEq)]
pub struct Theme {
    pub shape_color: Color,
    pub frame_color: Color,
    pub frame_width: i64,
    pub label_color: Color,
    pub font_size_medium: u32,
    pub align_horizontal: HorizontalAlign,
    pub align_vertical: VerticalAlign,
    pub maybe_slider: Option<Style>,
}

impl Theme {
    /// A theme whose arithmetic the widget can rely on: the frame width and
    /// font size it hands out, at either level, are sane quantities.
    pub open spec fn wf(self) -> bool {
        &&& 0 <= self.frame_width <= COORD_LIMIT
        &&& self.font_size_medium as int <= COORD_LIMIT
        &&& match self.maybe_slider {
            Some(s) => s.wf(),
            None => true,
        }
    }

    /// A plain theme with mid-grey shapes and no per-widget overrides.
    pub fn new() -> (t: Theme)
        ensures
            t.wf(),
            t.maybe_slider is None,
            t.frame_width == 1,
            t.font_size_medium == 18,
            t.align_horizontal == HorizontalAlign::Middle,
            t.align_vertical == VerticalAlign::Middle,
    {
        Theme {
            shape_color: Color { r: 128, g: 128, b: 128, a: 255 },
            frame_color: Color { r: 0, g: 0, b: 0, a: 255 },
            frame_width: 1,
            label_color: Color { r: 0, g: 0, b: 0, a: 255 },
            font_size_medium: 18,
            align_horizontal: HorizontalAlign::Middle,
            align_vertical: VerticalAlign::Middle,
            maybe_slider: None,
        }
    }
}

} // verus!
