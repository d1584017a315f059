//! A linear-value slider widget for an immediate-mode GUI toolkit.
//!
//! The widget recomputes everything each frame: given the previous
//! interaction state, the pointer position and the widget geometry it
//! decides the new interaction state, the new scalar value, whether the
//! caller's reaction must fire, whether the persisted state must be
//! replaced, and it emits an abstract visual description for a renderer.
//! All geometry and values are fixed-point integers; the unit is the
//! caller's choice.

pub mod color;
pub mod form;
pub mod laws;
pub mod mouse;
pub mod position;
pub mod slider;
pub mod theme;
pub mod utils;

pub use color::Color;
pub use form::{Element, RectForm, TextForm};
pub use mouse::{ButtonState, Mouse};
pub use position::{HorizontalAlign, Position, VerticalAlign};
pub use slider::{Interaction, Output, Slider, State, Style};
pub use theme::Theme;
