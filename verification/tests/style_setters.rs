use overlay_input::color::Color;
use overlay_input::state::{DrawingState, FontDescriptor, InputState, DEFAULT_HIGHLIGHT_ALPHA};
use overlay_input::tool::Tool;
use overlay_input::units::{
    clamp, clamp_wide, MAX_FONT_SIZE, MAX_MARKER_OPACITY, MAX_STROKE_THICKNESS, MIN_FONT_SIZE,
    MIN_MARKER_OPACITY, MIN_STROKE_THICKNESS,
};

fn font(family: &str) -> FontDescriptor {
    FontDescriptor {
        family: String::from(family),
        weight: String::from("bold"),
        style: String::from("normal"),
    }
}

fn red() -> Color {
    Color { r: 1000, g: 0, b: 0, a: 1000 }
}

fn fresh() -> InputState {
    InputState::with_defaults(red(), 3_000, 12_000, 320, false, 32_000, font("Sans"), 20_000, 30_000, 1_000)
}

#[test]
fn with_defaults_starts_idle_and_clean() {
    let s = fresh();
    assert_eq!(s.state, DrawingState::Idle);
    assert_eq!(s.tool_override, None);
    assert_eq!(s.default_tool, Tool::Pen);
    assert_eq!(s.current_color, red());
    assert_eq!(s.highlight_color, Color { r: 1000, g: 0, b: 0, a: DEFAULT_HIGHLIGHT_ALPHA });
    assert_eq!(s.current_thickness, 3_000);
    assert_eq!(s.eraser_size, 12_000);
    assert_eq!(s.marker_opacity, 320);
    assert_eq!(s.current_font_size, 32_000);
    assert_eq!(s.font_descriptor, font("Sans"));
    assert!(!s.fill_enabled);
    assert_eq!(s.arrow_length, 20_000);
    assert_eq!(s.arrow_angle, 30_000);
    assert!(!s.rainbow_mode_enabled);
    assert_eq!(s.rainbow_hue, 0);
    assert_eq!(s.rainbow_hue_step_per_pixel, 1_000);
    assert!(!s.toolbar_visible());
    assert!(!s.dirty_tracker.is_full());
    assert!(!s.needs_redraw);
}

#[test]
fn with_defaults_clamps_what_is_out_of_bounds() {
    let s = InputState::with_defaults(red(), 0, 99_000, 1_000, true, 1, font("Sans"), 1, 2, 0);
    assert_eq!(s.current_thickness, MIN_STROKE_THICKNESS);
    assert_eq!(s.eraser_size, MAX_STROKE_THICKNESS);
    assert_eq!(s.marker_opacity, MAX_MARKER_OPACITY);
    assert_eq!(s.current_font_size, MIN_FONT_SIZE);
    assert!(s.fill_enabled);
}

#[test]
fn clamp_keeps_saturates_and_is_idempotent() {
    assert_eq!(clamp(5, 1, 10), 5);
    assert_eq!(clamp(1, 1, 10), 1);
    assert_eq!(clamp(10, 1, 10), 10);
    assert_eq!(clamp(0, 1, 10), 1);
    assert_eq!(clamp(11, 1, 10), 10);
    assert_eq!(clamp(i64::MIN, 1, 10), 1);
    assert_eq!(clamp(i64::MAX, 1, 10), 10);
    assert_eq!(clamp(clamp(-3, 1, 10), 1, 10), clamp(-3, 1, 10));
    assert_eq!(clamp_wide(i128::MAX, 1, 10), 10);
    assert_eq!(clamp_wide(i128::MIN, 1, 10), 1);
    assert_eq!(clamp_wide(7, 1, 10), 7);
}

#[test]
fn thickness_in_range_round_trips() {
    let mut s = fresh();
    assert!(s.set_thickness(7_250));
    assert_eq!(s.current_thickness, 7_250);
    assert!(s.set_thickness(MIN_STROKE_THICKNESS));
    assert_eq!(s.current_thickness, MIN_STROKE_THICKNESS);
    assert!(s.set_thickness(MAX_STROKE_THICKNESS));
    assert_eq!(s.current_thickness, MAX_STROKE_THICKNESS);
}

#[test]
fn thickness_out_of_range_saturates() {
    let mut s = fresh();
    assert!(s.set_thickness(999));
    assert_eq!(s.current_thickness, MIN_STROKE_THICKNESS);
    assert!(s.set_thickness(50_001));
    assert_eq!(s.current_thickness, MAX_STROKE_THICKNESS);
    assert!(s.set_thickness(-4_000));
    assert_eq!(s.current_thickness, MIN_STROKE_THICKNESS);
    assert!(s.set_thickness(i64::MAX));
    assert_eq!(s.current_thickness, MAX_STROKE_THICKNESS);
    assert!(s.set_thickness(i64::MIN));
    assert_eq!(s.current_thickness, MIN_STROKE_THICKNESS);
}

#[test]
fn eraser_size_round_trips_and_saturates() {
    let mut s = fresh();
    assert!(s.set_eraser_size(25_000));
    assert_eq!(s.eraser_size, 25_000);
    assert!(s.set_eraser_size(0));
    assert_eq!(s.eraser_size, MIN_STROKE_THICKNESS);
    assert!(s.set_eraser_size(1_000_000));
    assert_eq!(s.eraser_size, MAX_STROKE_THICKNESS);
    assert_eq!(s.current_thickness, 3_000);
}

#[test]
fn thickness_twice_is_true_then_false() {
    let mut s = fresh();
    assert!(s.set_thickness(8_000));
    assert!(s.dirty_tracker.is_full());
    assert!(s.needs_redraw);
    assert!(s.dirty_tracker.take_full());
    s.needs_redraw = false;
    let before = s.clone();
    assert!(!s.set_thickness(8_000));
    assert_eq!(s, before);
    assert!(!s.dirty_tracker.is_full());
    assert!(!s.needs_redraw);
}

#[test]
fn thickness_twice_by_clamped_value() {
    let mut s = fresh();
    assert!(s.set_thickness(70_000));
    s.dirty_tracker.take_full();
    assert!(!s.set_thickness(90_000));
    assert!(!s.set_thickness(MAX_STROKE_THICKNESS));
    assert!(!s.dirty_tracker.is_full());
}

#[test]
fn eraser_size_twice_is_true_then_false() {
    let mut s = fresh();
    assert!(s.set_eraser_size(9_000));
    assert!(s.dirty_tracker.take_full());
    assert!(!s.set_eraser_size(9_000));
    assert!(!s.dirty_tracker.is_full());
}

#[test]
fn setting_the_current_value_changes_nothing() {
    let mut s = fresh();
    let before = s.clone();
    assert!(!s.set_thickness(3_000));
    assert!(!s.set_eraser_size(12_000));
    assert!(!s.set_marker_opacity(320));
    assert!(!s.set_font_size(32_000));
    assert!(!s.set_color(red()));
    assert!(!s.set_font_descriptor(font("Sans")));
    assert!(!s.set_fill_enabled(false));
    assert!(!s.set_toolbar_visible(false));
    assert!(!s.set_tool_override(None));
    assert_eq!(s, before);
}

#[test]
fn marker_opacity_clamps_and_repeats() {
    let mut s = fresh();
    assert!(s.set_marker_opacity(10));
    assert_eq!(s.marker_opacity, MIN_MARKER_OPACITY);
    assert!(s.dirty_tracker.take_full());
    assert!(!s.set_marker_opacity(49));
    assert!(!s.dirty_tracker.is_full());
    assert!(s.set_marker_opacity(1_000));
    assert_eq!(s.marker_opacity, MAX_MARKER_OPACITY);
    assert!(s.set_marker_opacity(500));
    assert_eq!(s.marker_opacity, 500);
    assert!(!s.set_marker_opacity(500));
}

#[test]
fn font_size_clamps_and_repeats() {
    let mut s = fresh();
    assert!(s.set_font_size(7_999));
    assert_eq!(s.current_font_size, MIN_FONT_SIZE);
    assert!(s.set_font_size(72_001));
    assert_eq!(s.current_font_size, MAX_FONT_SIZE);
    assert!(s.set_font_size(14_500));
    assert_eq!(s.current_font_size, 14_500);
    assert!(s.dirty_tracker.take_full());
    assert!(!s.set_font_size(14_500));
    assert!(!s.dirty_tracker.is_full());
}

#[test]
fn color_change_carries_over_to_the_highlighter() {
    let mut s = fresh();
    let teal = Color { r: 0, g: 500, b: 500, a: 800 };
    assert!(s.set_color(teal));
    assert_eq!(s.current_color, teal);
    assert_eq!(s.highlight_color, Color { r: 0, g: 500, b: 500, a: DEFAULT_HIGHLIGHT_ALPHA });
    assert!(s.dirty_tracker.take_full());
    assert!(s.needs_redraw);
    assert!(!s.set_color(teal));
    assert!(!s.dirty_tracker.is_full());
}

#[test]
fn color_channels_are_stored_as_given() {
    let mut s = fresh();
    let wild = Color { r: 5_000, g: 0, b: u32::MAX, a: 2_000 };
    assert!(s.set_color(wild));
    assert_eq!(s.current_color, wild);
}

#[test]
fn highlighter_keeps_its_own_alpha() {
    let mut s = fresh();
    s.highlight_color.a = 123;
    assert!(s.set_color(Color { r: 1, g: 2, b: 3, a: 4 }));
    assert_eq!(s.highlight_color, Color { r: 1, g: 2, b: 3, a: 123 });
}

#[test]
fn font_descriptor_compares_by_value() {
    let mut s = fresh();
    assert!(s.set_font_descriptor(font("Serif")));
    assert_eq!(s.font_descriptor, font("Serif"));
    assert!(s.dirty_tracker.take_full());
    assert!(!s.set_font_descriptor(font("Serif")));
    assert!(!s.dirty_tracker.is_full());
    let mut italic = font("Serif");
    italic.style = String::from("italic");
    assert!(s.set_font_descriptor(italic.clone()));
    assert_eq!(s.font_descriptor, italic);
    let mut light = italic.clone();
    light.weight = String::from("light");
    assert!(!italic.same_as(&light));
    assert!(italic.same_as(&italic.clone()));
    assert!(s.set_font_descriptor(light));
}

#[test]
fn fill_flag_twice_is_true_then_false() {
    let mut s = fresh();
    assert!(!s.fill_enabled);
    assert!(!s.dirty_tracker.is_full());
    assert!(s.set_fill_enabled(true));
    assert!(s.fill_enabled);
    assert!(s.needs_redraw);
    assert!(s.dirty_tracker.is_full());
    let after_first = s.clone();
    assert!(!s.set_fill_enabled(true));
    assert_eq!(s, after_first);
    assert!(s.dirty_tracker.take_full());
    s.needs_redraw = false;
    let repainted = s.clone();
    assert!(!s.set_fill_enabled(true));
    assert_eq!(s, repainted);
    assert!(!s.dirty_tracker.is_full());
    assert!(!s.needs_redraw);
    assert!(s.set_fill_enabled(false));
    assert!(!s.fill_enabled);
    assert!(s.dirty_tracker.is_full());
    assert!(s.needs_redraw);
}

#[test]
fn active_tool_prefers_the_override() {
    let mut s = fresh();
    assert_eq!(s.active_tool(), Tool::Pen);
    s.default_tool = Tool::Line;
    assert_eq!(s.active_tool(), Tool::Line);
    assert!(s.set_tool_override(Some(Tool::Eraser)));
    assert_eq!(s.active_tool(), Tool::Eraser);
    assert_eq!(s.tool_override(), Some(Tool::Eraser));
    assert!(s.set_tool_override(None));
    assert_eq!(s.active_tool(), Tool::Line);
    assert_eq!(s.tool_override(), None);
}

#[test]
fn size_for_active_tool_goes_to_the_thickness_slot() {
    let mut s = fresh();
    assert!(s.set_thickness_for_active_tool(6_000));
    assert_eq!(s.current_thickness, 6_000);
    assert_eq!(s.eraser_size, 12_000);
    assert!(!s.set_thickness_for_active_tool(6_000));
    assert!(s.set_thickness_for_active_tool(60_000));
    assert_eq!(s.current_thickness, MAX_STROKE_THICKNESS);
}

#[test]
fn size_for_active_tool_goes_to_the_eraser_slot() {
    let mut s = fresh();
    assert!(s.set_tool_override(Some(Tool::Eraser)));
    assert!(s.set_thickness_for_active_tool(6_000));
    assert_eq!(s.eraser_size, 6_000);
    assert_eq!(s.current_thickness, 3_000);
    assert!(!s.set_thickness_for_active_tool(6_000));
    assert!(s.set_thickness_for_active_tool(-1));
    assert_eq!(s.eraser_size, MIN_STROKE_THICKNESS);
}

#[test]
fn size_for_default_eraser_goes_to_the_eraser_slot() {
    let mut s = fresh();
    s.default_tool = Tool::Eraser;
    assert!(s.set_thickness_for_active_tool(2_000));
    assert_eq!(s.eraser_size, 2_000);
    assert_eq!(s.current_thickness, 3_000);
}

#[test]
fn nudge_moves_the_thickness() {
    let mut s = fresh();
    assert!(s.nudge_thickness_for_active_tool(2_000));
    assert_eq!(s.current_thickness, 5_000);
    assert!(s.nudge_thickness_for_active_tool(-1_500));
    assert_eq!(s.current_thickness, 3_500);
    assert!(!s.nudge_thickness_for_active_tool(0));
    assert_eq!(s.eraser_size, 12_000);
}

#[test]
fn nudge_saturates_at_the_bounds() {
    let mut s = fresh();
    assert!(s.nudge_thickness_for_active_tool(-10_000));
    assert_eq!(s.current_thickness, MIN_STROKE_THICKNESS);
    assert!(!s.nudge_thickness_for_active_tool(-1));
    assert!(s.nudge_thickness_for_active_tool(i64::MAX));
    assert_eq!(s.current_thickness, MAX_STROKE_THICKNESS);
    assert!(!s.nudge_thickness_for_active_tool(1));
    assert!(s.nudge_thickness_for_active_tool(i64::MIN));
    assert_eq!(s.current_thickness, MIN_STROKE_THICKNESS);
}

#[test]
fn nudge_moves_the_eraser_while_it_is_active() {
    let mut s = fresh();
    assert!(s.set_tool_override(Some(Tool::Eraser)));
    assert!(s.nudge_thickness_for_active_tool(3_000));
    assert_eq!(s.eraser_size, 15_000);
    assert_eq!(s.current_thickness, 3_000);
    assert!(s.nudge_thickness_for_active_tool(i64::MAX));
    assert_eq!(s.eraser_size, MAX_STROKE_THICKNESS);
}

#[test]
fn size_setters_work_without_a_gesture_and_leave_it_alone() {
    let mut s = fresh();
    assert_eq!(s.state, DrawingState::Idle);
    assert!(s.set_thickness_for_active_tool(4_000));
    assert!(s.nudge_thickness_for_active_tool(1_000));
    assert_eq!(s.state, DrawingState::Idle);
    let gesture = DrawingState::Drawing { tool: Tool::Pen, start_x: 1, start_y: 2, points: vec![(1, 2), (3, 4)] };
    s.state = gesture.clone();
    assert!(s.set_thickness(9_000));
    assert!(s.set_color(Color { r: 0, g: 0, b: 0, a: 1000 }));
    assert!(s.set_marker_opacity(600));
    assert_eq!(s.state, gesture);
}

#[test]
fn well_formedness_can_be_tested() {
    let mut s = fresh();
    assert!(s.is_well_formed());
    s.current_thickness = 0;
    assert!(!s.is_well_formed());
    s.current_thickness = MAX_STROKE_THICKNESS;
    assert!(s.is_well_formed());
    s.eraser_size = MAX_STROKE_THICKNESS + 1;
    assert!(!s.is_well_formed());
    s.eraser_size = MIN_STROKE_THICKNESS;
    s.marker_opacity = 49;
    assert!(!s.is_well_formed());
    s.marker_opacity = 900;
    s.current_font_size = 72_001;
    assert!(!s.is_well_formed());
    s.current_font_size = 8_000;
    s.rainbow_hue = 360_000;
    assert!(!s.is_well_formed());
    s.rainbow_hue = 359_999;
    assert!(s.is_well_formed());
    s.current_color.g = 77;
    assert!(!s.is_well_formed());
    s.highlight_color.g = 77;
    s.highlight_color.a = 1;
    assert!(s.is_well_formed());
}

#[test]
fn setters_keep_the_state_well_formed() {
    let mut s = fresh();
    s.set_thickness(i64::MAX);
    s.set_eraser_size(i64::MIN);
    s.set_marker_opacity(-5);
    s.set_font_size(1 << 40);
    s.set_color(Color { r: 7, g: 8, b: 9, a: 10 });
    s.set_tool_override(Some(Tool::Select));
    s.toggle_rainbow_mode();
    s.advance_rainbow_hue(u64::MAX);
    s.nudge_thickness_for_active_tool(i64::MIN);
    s.set_toolbar_visible(true);
    s.init_toolbar_from_config(true, true, false, false, true, true, false);
    assert!(s.is_well_formed());
}
