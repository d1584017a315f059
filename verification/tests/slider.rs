use slider_widget::slider::{draw, get_new_interaction, TEXT_PADDING};
use slider_widget::ButtonState::{Down, Up};
use slider_widget::Interaction::{Clicked, Highlighted, Normal};
use slider_widget::{
    ButtonState, Color, HorizontalAlign, Interaction, Mouse, Position, Slider, State, Style,
    Theme, VerticalAlign,
};

fn red() -> Color {
    Color::new(255, 0, 0, 255)
}

fn green() -> Color {
    Color::new(0, 255, 0, 255)
}

fn blue() -> Color {
    Color::new(0, 0, 255, 255)
}

fn mouse(x: i64, y: i64, left: ButtonState) -> Mouse {
    Mouse::new(x, y, left)
}

fn plain_state(value: i64, min: i64, max: i64, interaction: Interaction) -> State {
    State { value, min, max, maybe_label: None, interaction }
}

#[test]
fn classifier_matches_truth_table() {
    let cases = [
        // (is_over, prev, button, expected)
        (true, Normal, Down, Normal),
        (true, Highlighted, Down, Clicked),
        (true, Clicked, Down, Clicked),
        (true, Normal, Up, Highlighted),
        (true, Highlighted, Up, Highlighted),
        (true, Clicked, Up, Highlighted),
        (false, Normal, Down, Normal),
        (false, Highlighted, Down, Normal),
        (false, Clicked, Down, Clicked),
        (false, Normal, Up, Normal),
        (false, Highlighted, Up, Normal),
        (false, Clicked, Up, Normal),
    ];
    for (is_over, prev, button, expected) in cases {
        let got = get_new_interaction(is_over, prev, mouse(0, 0, button));
        assert_eq!(got, expected);
    }
}

#[test]
fn classifier_is_pure() {
    let a = get_new_interaction(true, Interaction::Highlighted, mouse(3, 4, ButtonState::Down));
    let b = get_new_interaction(true, Interaction::Highlighted, mouse(3, 4, ButtonState::Down));
    assert_eq!(a, b);
}

#[test]
fn no_drag_round_trip_keeps_value() {
    // Pointer far away, button up: the recompute reproduces the value, so
    // nothing fires and no state is replaced.
    let slider = Slider::<()>::new(37, 0, 100).react(());
    let style = slider.style();
    let theme = Theme::new();
    let prev = plain_state(37, 0, 100, Interaction::Normal);
    let out = slider.update(&prev, &style, &theme, 0, 0, mouse(5000, 5000, ButtonState::Up));
    assert!(out.reaction.is_none());
    assert!(out.maybe_state.is_none());
}

#[test]
fn out_of_bounds_value_is_clamped_by_recompute() {
    let slider = Slider::<()>::new(150, 0, 100).react(());
    let style = slider.style();
    let theme = Theme::new();
    let prev = plain_state(150, 0, 100, Interaction::Normal);
    let out = slider.update(&prev, &style, &theme, 0, 0, mouse(5000, 5000, ButtonState::Up));
    // The recomputed value is the configured one clamped to [min, max].
    assert_eq!(out.reaction, Some(100));
}

#[test]
fn drag_fires_with_quarter_value() {
    // Interior width 100 (104 wide, frame 2); pointer at x = -25 maps to 25%
    // of the interior, so the value lands on 25 of [0, 100].
    let slider = Slider::<()>::new(50, 0, 100).width(104).height(48).frame(2).react(());
    let style = slider.style();
    let theme = Theme::new();
    let prev = plain_state(50, 0, 100, Interaction::Clicked);
    let out = slider.update(&prev, &style, &theme, 0, 0, mouse(-25, 0, ButtonState::Down));
    assert_eq!(out.reaction, Some(25));
    // The persisted record tracks the configured value, which is unchanged:
    // the new value reaches the caller through the reaction alone.
    assert!(out.maybe_state.is_none());
}

#[test]
fn release_over_widget_fires_with_unchanged_value() {
    let slider = Slider::<()>::new(50, 0, 100).width(104).height(48).frame(2).react(());
    let style = slider.style();
    let theme = Theme::new();
    let prev = plain_state(50, 0, 100, Interaction::Clicked);
    let out = slider.update(&prev, &style, &theme, 0, 0, mouse(0, 0, ButtonState::Up));
    // Clicked -> Highlighted while over: fires once with the unchanged value.
    assert_eq!(out.reaction, Some(50));
    let new_state = out.maybe_state.expect("interaction changed, state must be replaced");
    assert_eq!(new_state.interaction, Interaction::Highlighted);
}

#[test]
fn without_reaction_nothing_fires() {
    let slider = Slider::<()>::new(50, 0, 100).width(104).height(48).frame(2);
    let style = slider.style();
    let theme = Theme::new();
    let prev = plain_state(50, 0, 100, Interaction::Clicked);
    let out = slider.update(&prev, &style, &theme, 0, 0, mouse(-25, 0, ButtonState::Down));
    assert!(out.reaction.is_none());
}

#[test]
fn disabled_forces_normal_and_ignores_pointer() {
    let slider = Slider::<()>::new(50, 0, 100).width(104).height(48).frame(2).react(()).enabled(
        false,
    );
    let style = slider.style();
    let theme = Theme::new();
    // A pointer drag that would move the value on an enabled widget.
    let prev = plain_state(50, 0, 100, Interaction::Clicked);
    let out = slider.update(&prev, &style, &theme, 0, 0, mouse(-25, 0, ButtonState::Down));
    assert!(out.reaction.is_none(), "the value must not change from pointer input");
    let new_state = out.maybe_state.expect("interaction fell back to normal");
    assert_eq!(new_state.interaction, Interaction::Normal);
    assert_eq!(new_state.value, 50);
}

#[test]
fn orientation_follows_dimensions_each_frame() {
    // The same drag, transposed: a 104x48 widget reads the pointer's x, a
    // 48x104 widget reads its y, with identical results.
    let theme = Theme::new();
    let horizontal = Slider::<()>::new(50, 0, 100).width(104).height(48).frame(2).react(());
    let style_h = horizontal.style();
    let prev = plain_state(50, 0, 100, Interaction::Clicked);
    let out_h = horizontal.update(&prev, &style_h, &theme, 0, 0, mouse(-25, 7, ButtonState::Down));
    assert_eq!(out_h.reaction, Some(25));

    let vertical = Slider::<()>::new(50, 0, 100).width(48).height(104).frame(2).react(());
    let style_v = vertical.style();
    let prev = plain_state(50, 0, 100, Interaction::Clicked);
    let out_v = vertical.update(&prev, &style_v, &theme, 0, 0, mouse(7, -25, ButtonState::Down));
    assert_eq!(out_v.reaction, Some(25));
}

#[test]
fn horizontal_drag_ignores_vertical_coordinate() {
    let theme = Theme::new();
    let prev = plain_state(50, 0, 100, Interaction::Clicked);
    let a = Slider::<()>::new(50, 0, 100).width(104).height(48).frame(2).react(());
    let style = a.style();
    let out_a = a.update(&prev, &style, &theme, 0, 0, mouse(-25, 0, ButtonState::Down));
    let b = Slider::<()>::new(50, 0, 100).width(104).height(48).frame(2).react(());
    let out_b = b.update(&prev, &style, &theme, 0, 0, mouse(-25, 19, ButtonState::Down));
    assert_eq!(out_a.reaction, out_b.reaction);
}

#[test]
fn unchanged_frame_suppresses_state_replacement() {
    let slider = Slider::<()>::new(40, 0, 100).label(String::from("volume"));
    let style = slider.style();
    let theme = Theme::new();
    let prev = State {
        value: 40,
        min: 0,
        max: 100,
        maybe_label: Some(String::from("volume")),
        interaction: Interaction::Normal,
    };
    let out = slider.update(&prev, &style, &theme, 0, 0, mouse(5000, 5000, ButtonState::Up));
    assert!(out.maybe_state.is_none());
}

#[test]
fn changed_label_replaces_state() {
    let slider = Slider::<()>::new(40, 0, 100).label(String::from("gain"));
    let style = slider.style();
    let theme = Theme::new();
    let prev = State {
        value: 40,
        min: 0,
        max: 100,
        maybe_label: Some(String::from("volume")),
        interaction: Interaction::Normal,
    };
    let out = slider.update(&prev, &style, &theme, 0, 0, mouse(5000, 5000, ButtonState::Up));
    let new_state = out.maybe_state.expect("label changed, state must be replaced");
    assert_eq!(new_state.maybe_label.as_deref(), Some("gain"));
}

#[test]
fn changed_bounds_replace_state() {
    let slider = Slider::<()>::new(40, 0, 90);
    let style = slider.style();
    let theme = Theme::new();
    let prev = plain_state(40, 0, 100, Interaction::Normal);
    let out = slider.update(&prev, &style, &theme, 0, 0, mouse(5000, 5000, ButtonState::Up));
    let new_state = out.maybe_state.expect("max changed, state must be replaced");
    assert_eq!(new_state.max, 90);
}

fn theme_with_slider_override() -> Theme {
    let mut style = Style::new();
    style.maybe_color = Some(green());
    style.maybe_frame = Some(7);
    style.maybe_frame_color = Some(green());
    style.maybe_label_color = Some(green());
    style.maybe_label_font_size = Some(33);
    let mut theme = Theme::new();
    theme.shape_color = blue();
    theme.frame_color = blue();
    theme.frame_width = 3;
    theme.label_color = blue();
    theme.font_size_medium = 11;
    theme.maybe_slider = Some(style);
    theme
}

#[test]
fn style_resolution_instance_override_wins() {
    let theme = theme_with_slider_override();
    let mut style = Style::new();
    style.maybe_color = Some(red());
    style.maybe_frame = Some(9);
    style.maybe_frame_color = Some(red());
    style.maybe_label_color = Some(red());
    style.maybe_label_font_size = Some(44);
    assert_eq!(style.color(&theme), red());
    assert_eq!(style.frame(&theme), 9);
    assert_eq!(style.frame_color(&theme), red());
    assert_eq!(style.label_color(&theme), red());
    assert_eq!(style.label_font_size(&theme), 44);
}

#[test]
fn style_resolution_theme_widget_default_beats_global() {
    let theme = theme_with_slider_override();
    let style = Style::new();
    assert_eq!(style.color(&theme), green());
    assert_eq!(style.frame(&theme), 7);
    assert_eq!(style.frame_color(&theme), green());
    assert_eq!(style.label_color(&theme), green());
    assert_eq!(style.label_font_size(&theme), 33);
}

#[test]
fn style_resolution_falls_back_to_global_theme() {
    let mut theme = theme_with_slider_override();
    theme.maybe_slider = Some(Style::new());
    let style = Style::new();
    assert_eq!(style.color(&theme), blue());
    assert_eq!(style.frame(&theme), 3);
    assert_eq!(style.frame_color(&theme), blue());
    assert_eq!(style.label_color(&theme), blue());
    assert_eq!(style.label_font_size(&theme), 11);

    theme.maybe_slider = None;
    assert_eq!(style.color(&theme), blue());
    assert_eq!(style.frame(&theme), 3);
}

#[test]
fn zero_interior_never_moves_value_or_fill() {
    // Frame thickness is half the smaller dimension: the interior collapses.
    let slider = Slider::<()>::new(50, 0, 100).width(48).height(48).frame(24).react(());
    let style = slider.style();
    let theme = Theme::new();
    let prev = plain_state(50, 0, 100, Interaction::Clicked);
    let out = slider.update(&prev, &style, &theme, 0, 0, mouse(0, 0, ButtonState::Down));
    // No usable interior: the drag cannot move the value.
    assert!(out.reaction.is_none());

    let state = plain_state(50, 0, 100, Interaction::Normal);
    let element = draw(&state, &style, &theme, 48, 48, 0, 0, 0);
    assert_eq!(element.pad.w, 0);
    assert_eq!(element.pad.h, 0);
}

#[test]
fn draw_builds_exact_geometry() {
    let state = plain_state(25, 0, 100, Interaction::Normal);
    let mut style = Style::new();
    style.maybe_color = Some(red());
    style.maybe_frame = Some(2);
    style.maybe_frame_color = Some(blue());
    let theme = Theme::new();
    let element = draw(&state, &style, &theme, 104, 48, 500, 600, 0);
    assert_eq!(element.w, 104);
    assert_eq!(element.h, 48);
    assert_eq!(element.backdrop.x, 500);
    assert_eq!(element.backdrop.y, 600);
    assert_eq!(element.backdrop.w, 104);
    assert_eq!(element.backdrop.h, 48);
    assert_eq!(element.backdrop.color, blue());
    // Interior is 100x44; a quarter value fills 25, shifted left of center.
    assert_eq!(element.pad.w, 25);
    assert_eq!(element.pad.h, 44);
    assert_eq!(element.pad.x, 500 - (100 - 25) / 2);
    assert_eq!(element.pad.y, 600);
    assert_eq!(element.pad.color, red());
    assert!(element.maybe_label.is_none());
}

#[test]
fn draw_places_horizontal_label_left_with_padding() {
    let state = State {
        value: 25,
        min: 0,
        max: 100,
        maybe_label: Some(String::from("volume")),
        interaction: Interaction::Normal,
    };
    let style = Style::new();
    let theme = Theme::new();
    let label_w = 30;
    let element = draw(&state, &style, &theme, 104, 48, 500, 600, label_w);
    let label = element.maybe_label.expect("a label is set");
    assert_eq!(label.text, "volume");
    assert_eq!(label.color, theme.label_color);
    assert_eq!(label.height, theme.font_size_medium);
    // Left-aligned inside the 104-wide widget, with padding.
    assert_eq!(label.x, 500 + (30 - 104) / 2 + TEXT_PADDING);
    assert_eq!(label.y, 600);
}

#[test]
fn draw_places_vertical_label_bottom_with_padding() {
    let state = State {
        value: 25,
        min: 0,
        max: 100,
        maybe_label: Some(String::from("volume")),
        interaction: Interaction::Normal,
    };
    let style = Style::new();
    let theme = Theme::new();
    let element = draw(&state, &style, &theme, 48, 104, 500, 600, 30);
    let label = element.maybe_label.expect("a label is set");
    // Bottom-aligned inside the 104-tall widget, with padding.
    let size = theme.font_size_medium as i64;
    assert_eq!(label.x, 500);
    assert_eq!(label.y, 600 + (size - 104) / 2 + TEXT_PADDING);
    // The vertical fill spans the interior width.
    assert_eq!(element.pad.w, 48 - 2 * theme.frame_width);
}

#[test]
fn draw_shades_colors_by_interaction() {
    let mut style = Style::new();
    style.maybe_color = Some(Color { r: 100, g: 200, b: 0, a: 255 });
    let theme = Theme::new();
    let highlighted = plain_state(25, 0, 100, Interaction::Highlighted);
    let element = draw(&highlighted, &style, &theme, 104, 48, 0, 0, 0);
    assert_eq!(element.pad.color, Color { r: 131, g: 211, b: 51, a: 255 });
    let clicked = plain_state(25, 0, 100, Interaction::Clicked);
    let element = draw(&clicked, &style, &theme, 104, 48, 0, 0, 0);
    assert_eq!(element.pad.color, Color { r: 80, g: 160, b: 0, a: 255 });
}

#[test]
fn color_variants_are_exact() {
    let c = Color { r: 100, g: 200, b: 0, a: 128 };
    assert_eq!(c.highlighted(), Color { r: 131, g: 211, b: 51, a: 128 });
    assert_eq!(c.clicked(), Color { r: 80, g: 160, b: 0, a: 128 });
}

#[test]
fn builder_defaults_and_setters() {
    let slider = Slider::<()>::new(5, 0, 10);
    assert_eq!(slider.value, 5);
    assert_eq!(slider.min, 0);
    assert_eq!(slider.max, 10);
    assert_eq!(slider.dim_w, 192);
    assert_eq!(slider.dim_h, 48);
    assert_eq!(slider.depth, 0);
    assert!(slider.enabled);
    assert!(slider.maybe_label.is_none());
    assert_eq!(slider.style(), Style::new());
    assert_eq!(slider.unique_kind(), "Slider");

    let slider = slider
        .width(80)
        .height(20)
        .color(red())
        .frame(3)
        .frame_color(blue())
        .label(String::from("gain"))
        .label_color(green())
        .label_font_size(12);
    assert_eq!(slider.dim_w, 80);
    assert_eq!(slider.dim_h, 20);
    assert_eq!(slider.style.maybe_color, Some(red()));
    assert_eq!(slider.style.maybe_frame, Some(3));
    assert_eq!(slider.style.maybe_frame_color, Some(blue()));
    assert_eq!(slider.style.maybe_label_color, Some(green()));
    assert_eq!(slider.style.maybe_label_font_size, Some(12));
    assert_eq!(slider.maybe_label.as_deref(), Some("gain"));

    let state = slider.init_state();
    assert_eq!(state.value, 5);
    assert_eq!(state.min, 0);
    assert_eq!(state.max, 10);
    assert!(state.maybe_label.is_none());
    assert_eq!(state.interaction, Interaction::Normal);
}

#[test]
fn press_while_normal_stays_normal_for_one_frame() {
    // The deliberate one-frame delay: a fresh press over a previously normal
    // widget does not start a drag in the same frame.
    let slider = Slider::<()>::new(50, 0, 100).width(104).height(48).frame(2).react(());
    let style = slider.style();
    let theme = Theme::new();
    let prev = plain_state(50, 0, 100, Interaction::Normal);
    let out = slider.update(&prev, &style, &theme, 0, 0, mouse(-25, 0, ButtonState::Down));
    assert!(out.reaction.is_none());
    assert!(out.maybe_state.is_none());
}

#[test]
fn alignment_resolves_from_config_or_theme() {
    let theme = Theme::new();
    let slider = Slider::<()>::new(5, 0, 10);
    assert_eq!(slider.h_align(&theme), HorizontalAlign::Middle);
    assert_eq!(slider.v_align(&theme), VerticalAlign::Middle);
    let slider = slider
        .horizontal_align(HorizontalAlign::Left)
        .vertical_align(VerticalAlign::Bottom)
        .position(Position::Absolute(30, 40));
    assert_eq!(slider.h_align(&theme), HorizontalAlign::Left);
    assert_eq!(slider.v_align(&theme), VerticalAlign::Bottom);
    assert_eq!(slider.pos, Position::Absolute(30, 40));
    assert_eq!(Position::default(), Position::Absolute(0, 0));
}
