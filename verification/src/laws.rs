//! General laws of the widget, stated and proved once over the
//! specification functions that the executable functions' contracts use.

use vstd::prelude::*;
use crate::mouse::{ButtonState, Mouse};
use crate::slider::{
    classify_spec, drag_active_spec, fill_extent_spec, inner_len_spec, lemma_muldiv_range,
    Interaction, Slider, State, Style,
};
use crate::theme::Theme;
use crate::utils::{bounded, clamp_spec};

verus! {

/// The classifier settles on `Clicked` only while the button is held, and
/// only when the pointer is over the widget or the drag was already under
/// way.
pub proof fn lemma_clicked_needs_button_down(is_over: bool, prev: Interaction, left: ButtonState)
    ensures
        classify_spec(is_over, prev, left) == Interaction::Clicked ==> left == ButtonState::Down
            && (is_over || prev == Interaction::Clicked),
{
}

/// Whatever the frame brings, the newly computed value lies within
/// `[min, max]`: clamping happens through the percentage construction
/// itself, never by failing.
pub proof fn lemma_new_value_in_bounds<F>(
    slider: Slider<F>,
    prev: State,
    style: Style,
    theme: Theme,
    mouse: Mouse,
)
    requires
        slider.wf(),
        style.wf(),
        theme.wf(),
    ensures
        slider.min <= slider.spec_new_value(prev, style, theme, mouse) <= slider.max,
{
    let len = slider.spec_axis_len(style, theme);
    let ni = slider.spec_new_interaction(prev, mouse);
    if drag_active_spec(slider.spec_is_over(mouse), prev.interaction, ni) && len > 0 {
        lemma_muldiv_range(
            slider.spec_drag_extent(style, theme, mouse),
            slider.max - slider.min,
            len,
        );
    }
}

/// With no drag active, reconstructing the value from its own proportion of
/// `[min, max]` reproduces the input value exactly: in exact arithmetic the
/// percentage and its reconstruction cancel, leaving a clamp, and the clamp
/// is the identity on a value already inside its bounds.
pub proof fn lemma_no_drag_round_trip<F>(
    slider: Slider<F>,
    prev: State,
    style: Style,
    theme: Theme,
    mouse: Mouse,
)
    requires
        slider.min <= slider.value <= slider.max,
        !drag_active_spec(
            slider.spec_is_over(mouse),
            prev.interaction,
            slider.spec_new_interaction(prev, mouse),
        ),
    ensures
        slider.spec_new_value(prev, style, theme, mouse) == slider.value,
{
}

/// Disabling the widget forces the interaction to `Normal` regardless of the
/// pointer, and the value never changes from pointer input: any two pointer
/// snapshots settle on the same value, the configured one clamped to its
/// bounds.
pub proof fn lemma_disabled_ignores_pointer<F>(
    slider: Slider<F>,
    prev: State,
    style: Style,
    theme: Theme,
    m1: Mouse,
    m2: Mouse,
)
    requires
        !slider.enabled,
    ensures
        slider.spec_new_interaction(prev, m1) == Interaction::Normal,
        slider.spec_new_value(prev, style, theme, m1) == clamp_spec(
            slider.value as int,
            slider.min as int,
            slider.max as int,
        ),
        slider.spec_new_value(prev, style, theme, m1) == slider.spec_new_value(
            prev,
            style,
            theme,
            m2,
        ),
{
}

/// Only the pointer coordinate along the driving axis—chosen from the
/// dimensions alone, every frame—can influence the drag extent.
pub proof fn lemma_axis_drives_extent<F>(
    slider: Slider<F>,
    style: Style,
    theme: Theme,
    m1: Mouse,
    m2: Mouse,
)
    requires
        slider.spec_is_horizontal() ==> m1.x == m2.x,
        !slider.spec_is_horizontal() ==> m1.y == m2.y,
    ensures
        slider.spec_drag_extent(style, theme, m1) == slider.spec_drag_extent(style, theme, m2),
{
}

/// Swapping a previously horizontal widget's width and height immediately
/// switches which pointer coordinate drives the value: on transposed pointer
/// coordinates, the swapped widget reads exactly what the original read. No
/// orientation is ever persisted.
pub proof fn lemma_orientation_swap<F>(
    s: Slider<F>,
    t: Slider<F>,
    style: Style,
    theme: Theme,
    m: Mouse,
    mt: Mouse,
)
    requires
        t.dim_w == s.dim_h,
        t.dim_h == s.dim_w,
        s.dim_w > s.dim_h,
        mt.x == m.y,
        mt.y == m.x,
    ensures
        s.spec_is_horizontal(),
        !t.spec_is_horizontal(),
        t.spec_axis_len(style, theme) == s.spec_axis_len(style, theme),
        t.spec_drag_extent(style, theme, mt) == s.spec_drag_extent(style, theme, m),
        t.spec_is_over(mt) == s.spec_is_over(m),
{
}

/// The proportional fill never leaves `[0, len]`, and a zero-length interior
/// yields a zero-length fill rather than an undefined proportion.
pub proof fn lemma_fill_extent_bounds(value: int, min: int, max: int, len: int)
    requires
        min <= max,
        bounded(min),
        bounded(max),
        0 <= len <= 2_000_000,
    ensures
        0 <= fill_extent_spec(value, min, max, len) <= len,
        len == 0 ==> fill_extent_spec(value, min, max, len) == 0,
{
    if max - min > 0 && len > 0 {
        lemma_muldiv_range(clamp_spec(value - min, 0, max - min), len, max - min);
    }
}

/// Once the frame thickness reaches half the dimension, the interior
/// collapses to zero length.
pub proof fn lemma_thick_frame_zero_interior(d: int, frame: int)
    requires
        2 * frame >= d,
    ensures
        inner_len_spec(d, frame) == 0,
{
}

} // verus!
