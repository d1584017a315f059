//! RGBA colors and the pure shade variants used to echo interaction.

use vstd::prelude::*;

verus! {

/// An RGBA color with 8-bit channels.
#[derive(Clone, Copy, Debug, PartialEq, Eq, Structural)]
pub struct Color {
    pub r: u8,
    pub g: u8,
    pub b: u8,
    pub a: u8,
}

/// One channel lightened a fifth of the way toward white.
pub open spec fn lightened(c: int) -> int {
    c + (255 - c) / 5
}

/// One channel darkened by a fifth of its intensity.
pub open spec fn darkened(c: int) -> int {
    c - c / 5
}

impl Color {
    /// Construct a color from its four channels.
    pub fn new(r: u8, g: u8, b: u8, a: u8) -> (c: Color)
        ensures
            c == (Color { r, g, b, a }),
    {
        Color { r, g, b, a }
    }

    /// The shade shown while the pointer hovers over the widget.
    pub open spec fn highlighted_spec(self) -> Color {
        Color {
            r: lightened(self.r as int) as u8,
            g: lightened(self.g as int) as u8,
            b: lightened(self.b as int) as u8,
            a: self.a,
        }
    }

    /// Lighten each channel a fifth of the way toward white; alpha is kept.
    pub fn highlighted(self) -> (c: Color)
        ensures
            c == self.highlighted_spec(),
    {
        Color {
            r: self.r + (255 - self.r) / 5,
            g: self.g + (255 - self.g) / 5,
            b: self.b + (255 - self.b) / 5,
            a: self.a,
        }
    }

    /// The shade shown while the widget is being clicked or dragged.
    pub open spec fn clicked_spec(self) -> Color {
        Color {
            r: darkened(self.r as int) as u8,
            g: darkened(self.g as int) as u8,
            b: darkened(self.b as int) as u8,
            a: self.a,
        }
    }

    /// Darken each channel by a fifth of its intensity; alpha is kept.
    pub fn clicked(self) -> (c: Color)
        ensures
            c == self.clicked_spec(),
    {
        Color {
            r: self.r - self.r / 5,
            g: self.g - self.g / 5,
            b: self.b - self.b / 5,
            a: self.a,
        }
    }
}

} // verus!
