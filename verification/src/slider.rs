//! The slider widget: interaction classification, per-frame value and state
//! reconciliation, style resolution and the draw-form builder.

use vstd::prelude::*;
use vstd::arithmetic::div_mod::{lemma_div_is_ordered, lemma_div_multiples_vanish, lemma_div_pos_is_pos};
use crate::color::Color;
use crate::form::{Element, RectForm, TextForm};
use crate::mouse::{ButtonState, Mouse};
use crate::position::{
    align_bottom_of, align_bottom_of_spec, align_left_of, align_left_of_spec, Depth,
    HorizontalAlign, Position, VerticalAlign,
};
use crate::theme::Theme;
use crate::utils::{
    bounded, clamp, clamp_spec, div_nonneg, is_over_rect, is_over_rect_spec, COORD_LIMIT,
};

verus! {

/// The ways in which the slider can be interacted with.
#[derive(Clone, Copy, Debug, PartialEq, Eq, Structural)]
pub enum Interaction {
    Normal,
    Highlighted,
    Clicked,
}

/// Styling for the slider: five independently optional attributes, each
/// resolved against a theme when needed and never baked into the persisted
/// state.
#[derive(Clone, Copy, Debug, PartialEq)]
pub struct Style {
    pub maybe_color: Option<Color>,
    pub maybe_frame: Option<i64>,
    pub maybe_frame_color: Option<Color>,
    pub maybe_label_color: Option<Color>,
    pub maybe_label_font_size: Option<u32>,
}

/// The persisted state of the slider, owned by the external widget cache and
/// handed back for exactly one frame's computation.
#[derive(Clone, Debug, PartialEq)]
pub struct State {
    pub value: i64,
    pub min: i64,
    pub max: i64,
    pub maybe_label: Option<String>,
    pub interaction: Interaction,
}

/// The label text as a sequence of characters, if one is set.
pub open spec fn label_view(l: Option<String>) -> Option<Seq<char>> {
    match l {
        Some(s) => Some(s@),
        None => None,
    }
}

impl State {
    /// A state the draw phase can work on: ordered bounds and magnitudes
    /// small enough for the proportional arithmetic.
    pub open spec fn wf(self) -> bool {
        &&& self.min <= self.max
        &&& bounded(self.value as int)
        &&& bounded(self.min as int)
        &&& bounded(self.max as int)
    }

    /// The color a base color resolves to under this state's interaction.
    pub open spec fn color_spec(self, color: Color) -> Color {
        match self.interaction {
            Interaction::Normal => color,
            Interaction::Highlighted => color.highlighted_spec(),
            Interaction::Clicked => color.clicked_spec(),
        }
    }

    /// Return the color associated with the state: untouched while normal,
    /// lightened while highlighted, darkened while clicked.
    pub fn color(&self, color: Color) -> (c: Color)
        ensures
            c == self.color_spec(color),
    {
        match self.interaction {
            Interaction::Normal => color,
            Interaction::Highlighted => color.highlighted(),
            Interaction::Clicked => color.clicked(),
        }
    }
}

/// The new interaction for one frame, as a function of whether the pointer
/// is over the widget, the previous interaction, and the left button state.
///
/// A fresh press while previously `Normal` stays `Normal` for one frame, so a
/// stray click cannot start a drag; once `Clicked`, the state survives the
/// pointer leaving the bounds as long as the button stays down.
pub open spec fn classify_spec(is_over: bool, prev: Interaction, left: ButtonState) -> Interaction {
    match (is_over, prev, left) {
        (true, Interaction::Normal, ButtonState::Down) => Interaction::Normal,
        (true, _, ButtonState::Down) => Interaction::Clicked,
        (true, _, ButtonState::Up) => Interaction::Highlighted,
        (false, Interaction::Clicked, ButtonState::Down) => Interaction::Clicked,
        _ => Interaction::Normal,
    }
}

/// Check the current state of the slider against the pointer.
pub fn get_new_interaction(is_over: bool, prev: Interaction, mouse: Mouse) -> (i: Interaction)
    ensures
        i == classify_spec(is_over, prev, mouse.left),
{
    match (is_over, prev, mouse.left) {
        (true, Interaction::Normal, ButtonState::Down) => Interaction::Normal,
        (true, _, ButtonState::Down) => Interaction::Clicked,
        (true, _, ButtonState::Up) => Interaction::Highlighted,
        (false, Interaction::Clicked, ButtonState::Down) => Interaction::Clicked,
        _ => Interaction::Normal,
    }
}

impl Style {
    /// Every frame width and font size this style can hand out is sane.
    pub open spec fn wf(self) -> bool {
        &&& match self.maybe_frame {
            Some(f) => 0 <= f <= COORD_LIMIT,
            None => true,
        }
        &&& match self.maybe_label_font_size {
            Some(s) => s as int <= COORD_LIMIT,
            None => true,
        }
    }

    /// Construct the default style: nothing overridden.
    pub fn new() -> (s: Style)
        ensures
            s == (Style {
                maybe_color: None,
                maybe_frame: None,
                maybe_frame_color: None,
                maybe_label_color: None,
                maybe_label_font_size: None,
            }),
    {
        Style {
            maybe_color: None,
            maybe_frame: None,
            maybe_frame_color: None,
            maybe_label_color: None,
            maybe_label_font_size: None,
        }
    }

    /// The fill color this style resolves to: the instance override, else the
    /// theme's slider override, else the theme's global shape color.
    pub open spec fn color_spec(self, theme: Theme) -> Color {
        match self.maybe_color {
            Some(c) => c,
            None => match theme.maybe_slider {
                Some(s) => match s.maybe_color {
                    Some(c) => c,
                    None => theme.shape_color,
                },
                None => theme.shape_color,
            },
        }
    }

    /// Get the fill color, resolved against the theme.
    pub fn color(&self, theme: &Theme) -> (c: Color)
        ensures
            c == self.color_spec(*theme),
    {
        match self.maybe_color {
            Some(c) => c,
            None => match &theme.maybe_slider {
                Some(s) => match s.maybe_color {
                    Some(c) => c,
                    None => theme.shape_color,
                },
                None => theme.shape_color,
            },
        }
    }

    /// The frame width this style resolves to: the instance override, else
    /// the theme's slider override, else the theme's global frame width.
    pub open spec fn frame_spec(self, theme: Theme) -> int {
        match self.maybe_frame {
            Some(f) => f as int,
            None => match theme.maybe_slider {
                Some(s) => match s.maybe_frame {
                    Some(f) => f as int,
                    None => theme.frame_width as int,
                },
                None => theme.frame_width as int,
            },
        }
    }

    /// Get the frame width, resolved against the theme.
    pub fn frame(&self, theme: &Theme) -> (f: i64)
        ensures
            f == self.frame_spec(*theme),
            self.wf() && theme.wf() ==> 0 <= f <= COORD_LIMIT,
    {
        match self.maybe_frame {
            Some(f) => f,
            None => match &theme.maybe_slider {
                Some(s) => match s.maybe_frame {
                    Some(f) => f,
                    None => theme.frame_width,
                },
                None => theme.frame_width,
            },
        }
    }

    /// The frame color this style resolves to, by the same chain.
    pub open spec fn frame_color_spec(self, theme: Theme) -> Color {
        match self.maybe_frame_color {
            Some(c) => c,
            None => match theme.maybe_slider {
                Some(s) => match s.maybe_frame_color {
                    Some(c) => c,
                    None => theme.frame_color,
                },
                None => theme.frame_color,
            },
        }
    }

    /// Get the frame color, resolved against the theme.
    pub fn frame_color(&self, theme: &Theme) -> (c: Color)
        ensures
            c == self.frame_color_spec(*theme),
    {
        match self.maybe_frame_color {
            Some(c) => c,
            None => match &theme.maybe_slider {
                Some(s) => match s.maybe_frame_color {
                    Some(c) => c,
                    None => theme.frame_color,
                },
                None => theme.frame_color,
            },
        }
    }

    /// The label color this style resolves to, by the same chain.
    pub open spec fn label_color_spec(self, theme: Theme) -> Color {
        match self.maybe_label_color {
            Some(c) => c,
            None => match theme.maybe_slider {
                Some(s) => match s.maybe_label_color {
                    Some(c) => c,
                    None => theme.label_color,
                },
                None => theme.label_color,
            },
        }
    }

    /// Get the label color, resolved against the theme.
    pub fn label_color(&self, theme: &Theme) -> (c: Color)
        ensures
            c == self.label_color_spec(*theme),
    {
        match self.maybe_label_color {
            Some(c) => c,
            None => match &theme.maybe_slider {
                Some(s) => match s.maybe_label_color {
                    Some(c) => c,
                    None => theme.label_color,
                },
                None => theme.label_color,
            },
        }
    }

    /// The label font size this style resolves to, by the same chain.
    pub open spec fn label_font_size_spec(self, theme: Theme) -> u32 {
        match self.maybe_label_font_size {
            Some(s) => s,
            None => match theme.maybe_slider {
                Some(st) => match st.maybe_label_font_size {
                    Some(s) => s,
                    None => theme.font_size_medium,
                },
                None => theme.font_size_medium,
            },
        }
    }

    /// Get the label font size, resolved against the theme.
    pub fn label_font_size(&self, theme: &Theme) -> (s: u32)
        ensures
            s == self.label_font_size_spec(*theme),
    {
        match self.maybe_label_font_size {
            Some(s) => s,
            None => match &theme.maybe_slider {
                Some(st) => match st.maybe_label_font_size {
                    Some(s) => s,
                    None => theme.font_size_medium,
                },
                None => theme.font_size_medium,
            },
        }
    }
}

/// The interior length left along one axis once the frame is subtracted on
/// both sides, clamped to zero rather than ever going negative.
pub open spec fn inner_len_spec(d: int, frame: int) -> int {
    if d - 2 * frame < 0 {
        0
    } else {
        d - 2 * frame
    }
}

/// Whether the pointer is driving the value this frame: either the press
/// just landed while the pointer hovered, or a drag is already under way.
pub open spec fn drag_active_spec(is_over: bool, prev: Interaction, new: Interaction) -> bool {
    ||| (is_over && prev == Interaction::Highlighted && new == Interaction::Clicked)
    ||| (prev == Interaction::Clicked && new == Interaction::Clicked)
}

/// For `0 <= w <= len` and `0 <= d`, the rescaled quantity `w * d / len`
/// stays within `[0, d]`, and the product within `i64` range.
pub proof fn lemma_muldiv_range(w: int, d: int, len: int)
    requires
        0 <= w <= len,
        0 < len <= 2 * COORD_LIMIT,
        0 <= d <= 2 * COORD_LIMIT,
    ensures
        0 <= w * d <= 4_000_000_000_000,
        0 <= (w * d) / len <= d,
{
    assert(0 <= w * d && w * d <= len * d && len * d <= 4_000_000_000_000)
        by (nonlinear_arith)
        requires
            0 <= w <= len,
            0 < len <= 2_000_000,
            0 <= d <= 2_000_000,
    ;
    lemma_div_pos_is_pos(w * d, len);
    lemma_div_is_ordered(w * d, len * d, len);
    lemma_div_multiples_vanish(d, len);
}

/// Per-frame output of the slider: the replacement persisted state if
/// anything changed, the resolved screen rectangle for the layout system,
/// the reaction decision, and the caller's reaction handed back.
pub struct Output<F> {
    /// `Some` exactly when interaction, value, bounds or label differ from
    /// the previous frame; `None` lets the cache skip redraw propagation.
    pub maybe_state: Option<State>,
    pub xy_x: i64,
    pub xy_y: i64,
    pub dim_w: i64,
    pub dim_h: i64,
    pub depth: Depth,
    /// `Some(v)` exactly when the caller's reaction must fire, with the
    /// newly computed value to hand to it; it fires at most once per frame.
    pub reaction: Option<i64>,
    /// The reaction the configuration carried, returned so the caller can
    /// invoke it with the value in `reaction`.
    pub maybe_react: Option<F>,
}

/// Linear value selection. If the slider's width is greater than its height,
/// it will automatically become a horizontal slider, otherwise it will be a
/// vertical slider. Its reaction is triggered if the value is updated or if
/// the mouse button is released while the cursor is above the rectangle.
pub struct Slider<F> {
    pub value: i64,
    pub min: i64,
    pub max: i64,
    pub pos: Position,
    pub maybe_h_align: Option<HorizontalAlign>,
    pub maybe_v_align: Option<VerticalAlign>,
    pub dim_w: i64,
    pub dim_h: i64,
    pub depth: Depth,
    pub maybe_react: Option<F>,
    pub maybe_label: Option<String>,
    pub style: Style,
    pub enabled: bool,
}

impl<F> Slider<F> {
    /// A configuration the per-frame computation can work on: ordered
    /// bounds, and magnitudes small enough for the rescaling arithmetic.
    pub open spec fn wf(self) -> bool {
        &&& self.min <= self.max
        &&& bounded(self.value as int)
        &&& bounded(self.min as int)
        &&& bounded(self.max as int)
        &&& 0 <= self.dim_w <= COORD_LIMIT
        &&& 0 <= self.dim_h <= COORD_LIMIT
        &&& self.style.wf()
    }

    /// The axis that drives the value, recomputed from the dimensions every
    /// frame and never persisted.
    pub open spec fn spec_is_horizontal(self) -> bool {
        self.dim_w > self.dim_h
    }

    /// Whether the pointer lies over the widget's rectangle.
    pub open spec fn spec_is_over(self, mouse: Mouse) -> bool {
        is_over_rect_spec(0, 0, mouse.x as int, mouse.y as int, self.dim_w as int, self.dim_h as int)
    }

    /// The interaction this frame settles on: the classifier's verdict, or
    /// `Normal` forced whenever the widget is disabled.
    pub open spec fn spec_new_interaction(self, prev: State, mouse: Mouse) -> Interaction {
        if self.enabled {
            classify_spec(self.spec_is_over(mouse), prev.interaction, mouse.left)
        } else {
            Interaction::Normal
        }
    }

    /// The interior length along the driving axis.
    pub open spec fn spec_axis_len(self, style: Style, theme: Theme) -> int {
        inner_len_spec(
            if self.spec_is_horizontal() {
                self.dim_w as int
            } else {
                self.dim_h as int
            },
            style.frame_spec(theme),
        )
    }

    /// The pointer's coordinate along the driving axis, mapped from the
    /// centered interval onto `[0, len]`.
    pub open spec fn spec_drag_extent(self, style: Style, theme: Theme, mouse: Mouse) -> int {
        let len = self.spec_axis_len(style, theme);
        let m = if self.spec_is_horizontal() {
            mouse.x as int
        } else {
            mouse.y as int
        };
        clamp_spec(m + len / 2, 0, len)
    }

    /// The value this frame settles on. Under an active drag with a usable
    /// interior, the clamped pointer extent is rescaled linearly onto
    /// `[min, max]`; otherwise the value's own proportion of `[min, max]` is
    /// reconstructed, which in exact arithmetic is the value clamped to its
    /// bounds.
    pub open spec fn spec_new_value(self, prev: State, style: Style, theme: Theme, mouse: Mouse) -> int {
        let len = self.spec_axis_len(style, theme);
        let ni = self.spec_new_interaction(prev, mouse);
        if drag_active_spec(self.spec_is_over(mouse), prev.interaction, ni) && len > 0 {
            self.min + (self.spec_drag_extent(style, theme, mouse) * (self.max - self.min)) / len
        } else {
            clamp_spec(self.value as int, self.min as int, self.max as int)
        }
    }

    /// Whether the reaction must fire: the computed value differs from the
    /// configured one, or the interaction crossed between `Highlighted` and
    /// `Clicked` in either direction (a press landing or a release over the
    /// widget), even if the value is numerically unchanged.
    pub open spec fn spec_fire(self, prev: State, style: Style, theme: Theme, mouse: Mouse) -> bool {
        let ni = self.spec_new_interaction(prev, mouse);
        ||| self.value as int != self.spec_new_value(prev, style, theme, mouse)
        ||| (prev.interaction == Interaction::Highlighted && ni == Interaction::Clicked)
        ||| (prev.interaction == Interaction::Clicked && ni == Interaction::Highlighted)
    }

    /// Whether the persisted state must be replaced: any of interaction,
    /// value, bounds or label text differs from the previous frame.
    pub open spec fn spec_state_changed(self, prev: State, mouse: Mouse) -> bool {
        ||| prev.interaction != self.spec_new_interaction(prev, mouse)
        ||| prev.value != self.value
        ||| prev.min != self.min
        ||| prev.max != self.max
        ||| label_view(prev.maybe_label) != label_view(self.maybe_label)
    }

    /// Construct a new slider widget.
    pub fn new(value: i64, min: i64, max: i64) -> (s: Slider<F>)
        ensures
            s.value == value,
            s.min == min,
            s.max == max,
            s.pos == Position::Absolute(0, 0),
            s.maybe_h_align is None,
            s.maybe_v_align is None,
            s.dim_w == 192,
            s.dim_h == 48,
            s.depth == 0,
            s.maybe_react is None,
            s.maybe_label is None,
            s.style == (Style {
                maybe_color: None,
                maybe_frame: None,
                maybe_frame_color: None,
                maybe_label_color: None,
                maybe_label_font_size: None,
            }),
            s.enabled,
    {
        Slider {
            value,
            min,
            max,
            pos: Position::Absolute(0, 0),
            maybe_h_align: None,
            maybe_v_align: None,
            dim_w: 192,
            dim_h: 48,
            depth: 0,
            maybe_react: None,
            maybe_label: None,
            style: Style::new(),
            enabled: true,
        }
    }

    /// Set the reaction for the slider. It is triggered if the value is
    /// updated or if the mouse button is released while the cursor is above
    /// the rectangle; `update` reports the firing decision and hands the
    /// reaction back for the caller to invoke.
    pub fn react(self, reaction: F) -> (s: Slider<F>)
        ensures
            s == (Slider { maybe_react: Some(reaction), ..self }),
    {
        Slider { maybe_react: Some(reaction), ..self }
    }

    /// If true, will allow user inputs. If false, will disallow user inputs.
    pub fn enabled(self, flag: bool) -> (s: Slider<F>)
        ensures
            s == (Slider { enabled: flag, ..self }),
    {
        Slider { enabled: flag, ..self }
    }

    /// Update the state of the slider for one frame.
    ///
    /// `xy_x`, `xy_y` is the screen position the layout system resolved for
    /// the widget; `mouse` is the pointer snapshot relative to that position.
    pub fn update(self, prev: &State, style: &Style, theme: &Theme, xy_x: i64, xy_y: i64, mouse: Mouse) -> (out: Output<F>)
        requires
            self.wf(),
            style.wf(),
            theme.wf(),
            bounded(mouse.x as int),
            bounded(mouse.y as int),
        ensures
            out.xy_x == xy_x,
            out.xy_y == xy_y,
            out.dim_w == self.dim_w,
            out.dim_h == self.dim_h,
            out.depth == self.depth,
            out.maybe_react == self.maybe_react,
            out.maybe_state is Some <==> self.spec_state_changed(*prev, mouse),
            (out.maybe_state matches Some(s) ==> {
                &&& s.interaction == self.spec_new_interaction(*prev, mouse)
                &&& s.value == self.value
                &&& s.min == self.min
                &&& s.max == self.max
                &&& label_view(s.maybe_label) == label_view(self.maybe_label)
            }),
            out.reaction is Some <==> (self.maybe_react is Some && self.spec_fire(
                *prev,
                *style,
                *theme,
                mouse,
            )),
            (out.reaction matches Some(v) ==> v as int == self.spec_new_value(
                *prev,
                *style,
                *theme,
                mouse,
            )),
    {
        let is_over = is_over_rect(0, 0, mouse.x, mouse.y, self.dim_w, self.dim_h);
        let new_interaction = if self.enabled {
            get_new_interaction(is_over, prev.interaction, mouse)
        } else {
            // The slider is disabled, so pretend the interaction is normal.
            Interaction::Normal
        };

        let frame = style.frame(theme);
        let is_horizontal = self.dim_w > self.dim_h;
        let dim_len: i64 = if is_horizontal {
            self.dim_w
        } else {
            self.dim_h
        };
        let m: i64 = if is_horizontal {
            mouse.x
        } else {
            mouse.y
        };
        let raw_len: i64 = dim_len - 2 * frame;
        let len: i64 = if raw_len < 0 {
            0
        } else {
            raw_len
        };

        let drag_active = match (is_over, prev.interaction, new_interaction) {
            (true, Interaction::Highlighted, Interaction::Clicked) => true,
            (_, Interaction::Clicked, Interaction::Clicked) => true,
            _ => false,
        };

        let new_value: i64 = if drag_active && len > 0 {
            // Direct drag control: clamp the pointer's coordinate to the
            // interior extent, then rescale to [min, max].
            let w = clamp(m + len / 2, 0, len);
            let d = self.max - self.min;
            proof {
                lemma_muldiv_range(w as int, d as int, len as int);
            }
            self.min + (w * d) / len
        } else {
            // No drag: reconstruct the value from its own proportion of
            // [min, max]; exact rational arithmetic reduces the percentage
            // round trip to a clamp.
            clamp(self.value, self.min, self.max)
        };

        let transitioned = match (prev.interaction, new_interaction) {
            (Interaction::Highlighted, Interaction::Clicked) => true,
            (Interaction::Clicked, Interaction::Highlighted) => true,
            _ => false,
        };
        let fire = self.value != new_value || transitioned;
        let reaction: Option<i64> = if self.maybe_react.is_some() && fire {
            Some(new_value)
        } else {
            None
        };

        let labels_equal = match (&prev.maybe_label, &self.maybe_label) {
            (None, None) => true,
            (Some(a), Some(b)) => *a == *b,
            _ => false,
        };
        let state_has_changed = prev.interaction != new_interaction || prev.value != self.value
            || prev.min != self.min || prev.max != self.max || !labels_equal;

        let maybe_state: Option<State> = if state_has_changed {
            let new_label: Option<String> = match &self.maybe_label {
                Some(l) => Some(l.clone()),
                None => None,
            };
            Some(
                State {
                    interaction: new_interaction,
                    value: self.value,
                    min: self.min,
                    max: self.max,
                    maybe_label: new_label,
                },
            )
        } else {
            None
        };

        Output {
            maybe_state,
            xy_x,
            xy_y,
            dim_w: self.dim_w,
            dim_h: self.dim_h,
            depth: self.depth,
            reaction,
            maybe_react: self.maybe_react,
        }
    }
}

/// Local offset that keeps a label clear of the widget's edge.
pub const TEXT_PADDING: i64 = 10;

/// The length of the proportional fill bar: the persisted value's share of
/// `[min, max]`, rescaled onto the interior length `len` and clamped to it.
/// A collapsed value range or interior yields a zero-length bar rather than
/// a division by a non-positive denominator.
pub open spec fn fill_extent_spec(value: int, min: int, max: int, len: int) -> int {
    if max - min > 0 && len > 0 {
        (clamp_spec(value - min, 0, max - min) * len) / (max - min)
    } else {
        0
    }
}

impl<F> Slider<F> {
    /// The cache key naming this widget kind.
    pub fn unique_kind(&self) -> (r: &'static str)
        ensures
            r@ == "Slider"@,
    {
        "Slider"
    }

    /// The state persisted for this widget before its first update.
    pub fn init_state(&self) -> (s: State)
        ensures
            s.value == self.value,
            s.min == self.min,
            s.max == self.max,
            s.maybe_label is None,
            s.interaction == Interaction::Normal,
    {
        State {
            value: self.value,
            min: self.min,
            max: self.max,
            maybe_label: None,
            interaction: Interaction::Normal,
        }
    }

    /// The style carried by this configuration.
    pub fn style(&self) -> (s: Style)
        ensures
            s == self.style,
    {
        self.style
    }

    /// Set the fill color of the slider.
    pub fn color(self, color: Color) -> (s: Slider<F>)
        ensures
            s == (Slider { style: (Style { maybe_color: Some(color), ..self.style }), ..self }),
    {
        Slider { style: Style { maybe_color: Some(color), ..self.style }, ..self }
    }

    /// Set the width of the slider's frame.
    pub fn frame(self, width: i64) -> (s: Slider<F>)
        ensures
            s == (Slider { style: (Style { maybe_frame: Some(width), ..self.style }), ..self }),
    {
        Slider { style: Style { maybe_frame: Some(width), ..self.style }, ..self }
    }

    /// Set the color of the slider's frame.
    pub fn frame_color(self, color: Color) -> (s: Slider<F>)
        ensures
            s == (Slider {
                style: (Style { maybe_frame_color: Some(color), ..self.style }),
                ..self
            }),
    {
        Slider { style: Style { maybe_frame_color: Some(color), ..self.style }, ..self }
    }

    /// Set the label drawn over the slider.
    pub fn label(self, text: String) -> (s: Slider<F>)
        ensures
            s == (Slider { maybe_label: Some(text), ..self }),
    {
        Slider { maybe_label: Some(text), ..self }
    }

    /// Set the color of the slider's label.
    pub fn label_color(self, color: Color) -> (s: Slider<F>)
        ensures
            s == (Slider {
                style: (Style { maybe_label_color: Some(color), ..self.style }),
                ..self
            }),
    {
        Slider { style: Style { maybe_label_color: Some(color), ..self.style }, ..self }
    }

    /// Set the font size of the slider's label.
    pub fn label_font_size(self, size: u32) -> (s: Slider<F>)
        ensures
            s == (Slider {
                style: (Style { maybe_label_font_size: Some(size), ..self.style }),
                ..self
            }),
    {
        Slider { style: Style { maybe_label_font_size: Some(size), ..self.style }, ..self }
    }

    /// Override the theme's horizontal alignment for this widget.
    pub fn horizontal_align(self, h_align: HorizontalAlign) -> (s: Slider<F>)
        ensures
            s == (Slider { maybe_h_align: Some(h_align), ..self }),
    {
        Slider { maybe_h_align: Some(h_align), ..self }
    }

    /// Override the theme's vertical alignment for this widget.
    pub fn vertical_align(self, v_align: VerticalAlign) -> (s: Slider<F>)
        ensures
            s == (Slider { maybe_v_align: Some(v_align), ..self }),
    {
        Slider { maybe_v_align: Some(v_align), ..self }
    }

    /// Set the position request handed to the layout system.
    pub fn position(self, pos: Position) -> (s: Slider<F>)
        ensures
            s == (Slider { pos, ..self }),
    {
        Slider { pos, ..self }
    }

    /// Set the width of the slider.
    pub fn width(self, w: i64) -> (s: Slider<F>)
        ensures
            s == (Slider { dim_w: w, ..self }),
    {
        Slider { dim_w: w, ..self }
    }

    /// Set the height of the slider.
    pub fn height(self, h: i64) -> (s: Slider<F>)
        ensures
            s == (Slider { dim_h: h, ..self }),
    {
        Slider { dim_h: h, ..self }
    }

    /// The horizontal alignment in force: the instance override, else the
    /// theme's default.
    pub fn h_align(&self, theme: &Theme) -> (a: HorizontalAlign)
        ensures
            a == match self.maybe_h_align {
                Some(al) => al,
                None => theme.align_horizontal,
            },
    {
        match self.maybe_h_align {
            Some(al) => al,
            None => theme.align_horizontal,
        }
    }

    /// The vertical alignment in force: the instance override, else the
    /// theme's default.
    pub fn v_align(&self, theme: &Theme) -> (a: VerticalAlign)
        ensures
            a == match self.maybe_v_align {
                Some(al) => al,
                None => theme.align_vertical,
            },
    {
        match self.maybe_v_align {
            Some(al) => al,
            None => theme.align_vertical,
        }
    }
}

/// Construct the renderable element from the slider's persisted state.
///
/// Draw is a pure function of persisted state and resolved style: it takes no
/// pointer input at all. `label_w` is the externally measured width of the
/// label text, used only when a label is set. Every shape is computed in
/// widget-local coordinates and then translated by the screen position
/// (`xy_x`, `xy_y`).
pub fn draw(
    state: &State,
    style: &Style,
    theme: &Theme,
    dim_w: i64,
    dim_h: i64,
    xy_x: i64,
    xy_y: i64,
    label_w: i64,
) -> (e: Element)
    requires
        state.wf(),
        style.wf(),
        theme.wf(),
        0 <= dim_w <= COORD_LIMIT,
        0 <= dim_h <= COORD_LIMIT,
        bounded(xy_x as int),
        bounded(xy_y as int),
        0 <= label_w <= COORD_LIMIT,
    ensures
        e.w == dim_w,
        e.h == dim_h,
        e.backdrop == (RectForm {
            x: xy_x,
            y: xy_y,
            w: dim_w,
            h: dim_h,
            color: state.color_spec(style.frame_color_spec(*theme)),
        }),
        e.pad.color == state.color_spec(style.color_spec(*theme)),
        ({
            let frame = style.frame_spec(*theme);
            let inner_w = inner_len_spec(dim_w as int, frame);
            let inner_h = inner_len_spec(dim_h as int, frame);
            if dim_w > dim_h {
                let w = fill_extent_spec(state.value as int, state.min as int, state.max as int, inner_w);
                &&& e.pad.w == w
                &&& e.pad.h == inner_h
                &&& e.pad.x == xy_x - (inner_w - w) / 2
                &&& e.pad.y == xy_y
            } else {
                let h = fill_extent_spec(state.value as int, state.min as int, state.max as int, inner_h);
                &&& e.pad.w == inner_w
                &&& e.pad.h == h
                &&& e.pad.x == xy_x
                &&& e.pad.y == xy_y - (inner_h - h) / 2
            }
        }),
        e.maybe_label is Some <==> state.maybe_label is Some,
        (state.maybe_label matches Some(l) ==> (e.maybe_label matches Some(t) && {
            let size = style.label_font_size_spec(*theme);
            &&& t.text@ == l@
            &&& t.color == style.label_color_spec(*theme)
            &&& t.height == size
            &&& if dim_w > dim_h {
                t.x == xy_x + align_left_of_spec(dim_w as int, label_w as int) + TEXT_PADDING
                    && t.y == xy_y
            } else {
                t.x == xy_x && t.y == xy_y + align_bottom_of_spec(dim_h as int, size as int)
                    + TEXT_PADDING
            }
        })),
{
    let frame = style.frame(theme);
    let raw_w: i64 = dim_w - 2 * frame;
    let inner_w: i64 = if raw_w < 0 {
        0
    } else {
        raw_w
    };
    let raw_h: i64 = dim_h - 2 * frame;
    let inner_h: i64 = if raw_h < 0 {
        0
    } else {
        raw_h
    };
    let frame_color = state.color(style.frame_color(theme));
    let color = state.color(style.color(theme));

    let is_horizontal = dim_w > dim_h;
    let len: i64 = if is_horizontal {
        inner_w
    } else {
        inner_h
    };
    let d: i64 = state.max - state.min;
    let fill: i64 = if d > 0 && len > 0 {
        let num = clamp(state.value - state.min, 0, d);
        proof {
            lemma_muldiv_range(num as int, len as int, d as int);
        }
        (num * len) / d
    } else {
        // A collapsed value range or interior renders an empty bar instead
        // of dividing by a non-positive denominator.
        0
    };

    let backdrop = RectForm { x: xy_x, y: xy_y, w: dim_w, h: dim_h, color: frame_color };
    let pad = if is_horizontal {
        RectForm {
            x: xy_x - div_nonneg(inner_w - fill, 2),
            y: xy_y,
            w: fill,
            h: inner_h,
            color,
        }
    } else {
        RectForm {
            x: xy_x,
            y: xy_y - div_nonneg(inner_h - fill, 2),
            w: inner_w,
            h: fill,
            color,
        }
    };

    let maybe_label: Option<TextForm> = match &state.maybe_label {
        Some(label_text) => {
            let label_color = style.label_color(theme);
            let size = style.label_font_size(theme);
            let (lx, ly): (i64, i64) = if is_horizontal {
                (xy_x + align_left_of(dim_w, label_w) + TEXT_PADDING, xy_y)
            } else {
                (xy_x, xy_y + align_bottom_of(dim_h, size as i64) + TEXT_PADDING)
            };
            Some(
                TextForm {
                    x: lx,
                    y: ly,
                    text: label_text.clone(),
                    color: label_color,
                    height: size,
                },
            )
        },
        None => None,
    };

    Element { w: dim_w, h: dim_h, backdrop, pad, maybe_label }
}

} // verus!
