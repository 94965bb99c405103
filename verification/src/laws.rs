//! What holds of the overlay state across calls.
//!
//! Each law is stated over the spec functions that the contracts of the
//! executable functions use, so it holds of every run of them.

use vstd::prelude::*;
use crate::color::{Color, FULL_TURN};
use crate::geometry::lemma_span_symmetric;
use crate::render::{marker_alpha_spec, ProvisionalRenderView};
use crate::shape::ShapeView;
use crate::state::{DrawingState, FontDescriptor, InputState};
use crate::tool::Tool;
use crate::units::{
    MAX_MARKER_OPACITY, MAX_STROKE_THICKNESS, MIN_MARKER_OPACITY, MIN_STROKE_THICKNESS,
};

verus! {

/// Span of hues, from zero up, whose rainbow colour is pure red.
pub const RED_SPAN: u32 = 60;

/// Whatever thickness is proposed, the stored thickness lies within the
/// bounds; a proposal within the bounds is stored as it is, and one outside
/// them as the nearer bound.
pub proof fn lemma_thickness_saturates(s: InputState, thickness: int)
    ensures
        MIN_STROKE_THICKNESS <= s.after_set_thickness(thickness).current_thickness
            <= MAX_STROKE_THICKNESS,
        MIN_STROKE_THICKNESS <= thickness <= MAX_STROKE_THICKNESS ==> s.after_set_thickness(
            thickness,
        ).current_thickness == thickness,
        thickness < MIN_STROKE_THICKNESS ==> s.after_set_thickness(thickness).current_thickness
            == MIN_STROKE_THICKNESS,
        thickness > MAX_STROKE_THICKNESS ==> s.after_set_thickness(thickness).current_thickness
            == MAX_STROKE_THICKNESS,
{
}

/// Whatever eraser size is proposed, the stored size lies within the bounds;
/// a proposal within the bounds is stored as it is, and one outside them as
/// the nearer bound.
pub proof fn lemma_eraser_size_saturates(s: InputState, size: int)
    ensures
        MIN_STROKE_THICKNESS <= s.after_set_eraser_size(size).eraser_size <= MAX_STROKE_THICKNESS,
        MIN_STROKE_THICKNESS <= size <= MAX_STROKE_THICKNESS ==> s.after_set_eraser_size(
            size,
        ).eraser_size == size,
        size < MIN_STROKE_THICKNESS ==> s.after_set_eraser_size(size).eraser_size
            == MIN_STROKE_THICKNESS,
        size > MAX_STROKE_THICKNESS ==> s.after_set_eraser_size(size).eraser_size
            == MAX_STROKE_THICKNESS,
{
}

/// Proposing a thickness that changes it asks for a repaint; proposing the
/// same thickness again changes nothing and asks for nothing, also once the
/// host has repainted.
pub proof fn lemma_set_thickness_twice(s: InputState, thickness: int)
    ensures
        s.thickness_changes(thickness) ==> s.after_set_thickness(thickness).dirty_tracker.full
            && s.after_set_thickness(thickness).needs_redraw,
        !s.after_set_thickness(thickness).thickness_changes(thickness),
        s.after_set_thickness(thickness).after_set_thickness(thickness) == s.after_set_thickness(
            thickness,
        ),
        s.after_set_thickness(thickness).repainted().after_set_thickness(thickness)
            == s.after_set_thickness(thickness).repainted(),
{
}

/// Proposing an eraser size that changes it asks for a repaint; proposing the
/// same size again changes nothing and asks for nothing, also once the host
/// has repainted.
pub proof fn lemma_set_eraser_size_twice(s: InputState, size: int)
    ensures
        s.eraser_size_changes(size) ==> s.after_set_eraser_size(size).dirty_tracker.full
            && s.after_set_eraser_size(size).needs_redraw,
        !s.after_set_eraser_size(size).eraser_size_changes(size),
        s.after_set_eraser_size(size).after_set_eraser_size(size) == s.after_set_eraser_size(size),
        s.after_set_eraser_size(size).repainted().after_set_eraser_size(size)
            == s.after_set_eraser_size(size).repainted(),
{
}

/// Proposing a size for the active tool a second time changes nothing.
pub proof fn lemma_set_active_size_twice(s: InputState, value: int)
    ensures
        !s.after_set_active_size(value).active_size_changes(value),
        s.after_set_active_size(value).after_set_active_size(value) == s.after_set_active_size(
            value,
        ),
        s.after_set_active_size(value).repainted().after_set_active_size(value)
            == s.after_set_active_size(value).repainted(),
{
}

/// Proposing a marker opacity that changes it asks for a repaint; proposing
/// the same opacity again changes nothing and asks for nothing, also once the
/// host has repainted.
pub proof fn lemma_set_marker_opacity_twice(s: InputState, opacity: int)
    ensures
        s.marker_opacity_changes(opacity) ==> s.after_set_marker_opacity(
            opacity,
        ).dirty_tracker.full && s.after_set_marker_opacity(opacity).needs_redraw,
        !s.after_set_marker_opacity(opacity).marker_opacity_changes(opacity),
        s.after_set_marker_opacity(opacity).after_set_marker_opacity(opacity)
            == s.after_set_marker_opacity(opacity),
        s.after_set_marker_opacity(opacity).repainted().after_set_marker_opacity(opacity)
            == s.after_set_marker_opacity(opacity).repainted(),
{
}

/// Proposing a font size that changes it asks for a repaint; proposing the
/// same size again changes nothing and asks for nothing, also once the host
/// has repainted.
pub proof fn lemma_set_font_size_twice(s: InputState, size: int)
    ensures
        s.font_size_changes(size) ==> s.after_set_font_size(size).dirty_tracker.full
            && s.after_set_font_size(size).needs_redraw,
        !s.after_set_font_size(size).font_size_changes(size),
        s.after_set_font_size(size).after_set_font_size(size) == s.after_set_font_size(size),
        s.after_set_font_size(size).repainted().after_set_font_size(size) == s.after_set_font_size(
            size,
        ).repainted(),
{
}

/// Choosing a colour that changes it asks for a repaint; choosing the same
/// colour again changes nothing and asks for nothing, also once the host has
/// repainted.
pub proof fn lemma_set_color_twice(s: InputState, color: Color)
    ensures
        s.color_changes(color) ==> s.after_set_color(color).dirty_tracker.full
            && s.after_set_color(color).needs_redraw,
        !s.after_set_color(color).color_changes(color),
        s.after_set_color(color).after_set_color(color) == s.after_set_color(color),
        s.after_set_color(color).repainted().after_set_color(color) == s.after_set_color(
            color,
        ).repainted(),
{
}

/// Choosing a font that changes it asks for a repaint; choosing the same
/// font again changes nothing and asks for nothing, also once the host has
/// repainted.
pub proof fn lemma_set_font_descriptor_twice(s: InputState, descriptor: FontDescriptor)
    ensures
        s.font_descriptor_changes(descriptor) ==> s.after_set_font_descriptor(
            descriptor,
        ).dirty_tracker.full && s.after_set_font_descriptor(descriptor).needs_redraw,
        !s.after_set_font_descriptor(descriptor).font_descriptor_changes(descriptor),
        s.after_set_font_descriptor(descriptor).after_set_font_descriptor(descriptor)
            == s.after_set_font_descriptor(descriptor),
        s.after_set_font_descriptor(descriptor).repainted().after_set_font_descriptor(descriptor)
            == s.after_set_font_descriptor(descriptor).repainted(),
{
}

/// Choosing a fill flag that changes it asks for a repaint; choosing the same
/// flag again changes nothing and asks for nothing, also once the host has
/// repainted.
pub proof fn lemma_set_fill_enabled_twice(s: InputState, enabled: bool)
    ensures
        s.fill_changes(enabled) ==> s.after_set_fill_enabled(enabled).dirty_tracker.full
            && s.after_set_fill_enabled(enabled).needs_redraw,
        !s.after_set_fill_enabled(enabled).fill_changes(enabled),
        s.after_set_fill_enabled(enabled).after_set_fill_enabled(enabled)
            == s.after_set_fill_enabled(enabled),
        s.after_set_fill_enabled(enabled).repainted().after_set_fill_enabled(enabled)
            == s.after_set_fill_enabled(enabled).repainted(),
{
}

/// Changing the tool override in the middle of a gesture returns to idle;
/// a text entry and an idle state stay as they are.
pub proof fn lemma_tool_change_resets(s: InputState, tool: Option<Tool>)
    requires
        s.tool_override != tool,
    ensures
        s.tool_override_changes(tool),
        s.after_set_tool_override(tool).tool_override == tool,
        s.state is Drawing ==> s.after_set_tool_override(tool).state == DrawingState::Idle,
        !(s.state is Drawing) ==> s.after_set_tool_override(tool).state == s.state,
        s.after_set_tool_override(tool).dirty_tracker.full,
        s.after_set_tool_override(tool).needs_redraw,
{
}

/// Choosing the override that is already in place, none included, changes
/// nothing: the gesture in flight stays untouched.
pub proof fn lemma_same_tool_keeps_state(s: InputState)
    ensures
        !s.tool_override_changes(s.tool_override),
        s.after_set_tool_override(s.tool_override) == s,
        !s.after_set_tool_override(None).tool_override_changes(None),
{
}

/// Setting a style leaves the gesture in flight and the tool choice alone.
pub proof fn lemma_styles_keep_gesture(s: InputState, value: int, color: Color)
    ensures
        s.after_set_thickness(value).state == s.state,
        s.after_set_eraser_size(value).state == s.state,
        s.after_set_active_size(value).state == s.state,
        s.after_set_marker_opacity(value).state == s.state,
        s.after_set_font_size(value).state == s.state,
        s.after_set_color(color).state == s.state,
        s.after_set_active_size(value).tool_override == s.tool_override,
{
}

/// The size of the active tool is kept in one of two slots; setting it
/// leaves the other slot alone.
pub proof fn lemma_active_size_slots(s: InputState, value: int)
    ensures
        s.sizes_eraser() ==> s.after_set_active_size(value).current_thickness
            == s.current_thickness,
        !s.sizes_eraser() ==> s.after_set_active_size(value).eraser_size == s.eraser_size,
{
}

/// Showing or hiding the toolbars leaves the combined, top and side flags
/// all equal to the value asked for; asking again changes nothing.
pub proof fn lemma_toolbar_lockstep(s: InputState, visible: bool)
    ensures
        s.after_set_toolbar_visible(visible).toolbar.visible == visible,
        s.after_set_toolbar_visible(visible).toolbar.top_visible == visible,
        s.after_set_toolbar_visible(visible).toolbar.side_visible == visible,
        !s.after_set_toolbar_visible(visible).toolbar_visibility_changes(visible),
        s.after_set_toolbar_visible(visible).after_set_toolbar_visible(visible)
            == s.after_set_toolbar_visible(visible),
{
}

/// Switching rainbow mode on starts the hue at zero; switching it off keeps
/// the hue; switching twice restores the mode.
pub proof fn lemma_toggle_rainbow(s: InputState)
    ensures
        !s.rainbow_mode_enabled ==> s.after_toggle_rainbow().rainbow_mode_enabled
            && s.after_toggle_rainbow().rainbow_hue == 0,
        s.rainbow_mode_enabled ==> !s.after_toggle_rainbow().rainbow_mode_enabled
            && s.after_toggle_rainbow().rainbow_hue == s.rainbow_hue,
        s.after_toggle_rainbow().after_toggle_rainbow().rainbow_mode_enabled
            == s.rainbow_mode_enabled,
{
}

/// The hue persists and adds up: advancing by one distance and then by
/// another leaves the hue at the start plus both advances, wrapped into one
/// turn.
pub proof fn lemma_advance_accumulates(s: InputState, first: nat, second: nat)
    ensures
        s.after_advance(first).rainbow_hue < FULL_TURN,
        s.after_advance(first).after_advance(second).rainbow_hue == (s.rainbow_hue + first
            * s.rainbow_hue_step_per_pixel / 1000 + second * s.rainbow_hue_step_per_pixel / 1000)
            % 360_000,
{
}

/// Advancing by nothing leaves a hue within the turn where it is.
pub proof fn lemma_advance_zero(s: InputState)
    requires
        s.rainbow_hue < FULL_TURN,
    ensures
        s.after_advance(0) == s,
{
    assert(0 * (s.rainbow_hue_step_per_pixel as nat) == 0) by (nonlinear_arith);
}

/// The colour at distance zero is pure red whatever the hue stands at: it
/// does not follow the hue.
pub proof fn lemma_color_at_zero_is_red(s: InputState)
    ensures
        s.color_at_distance_spec(0) == Color::from_hue_spec(0),
        s.color_at_distance_spec(0) == (Color { r: 1000, g: 0, b: 0, a: 1000 }),
{
    assert(0 * (s.rainbow_hue_step_per_pixel as nat) == 0) by (nonlinear_arith);
}

/// A hue within the turn has the colour of hue zero exactly when it lies
/// within `RED_SPAN` of zero.
pub proof fn lemma_red_hues(hue: nat)
    requires
        hue < FULL_TURN,
    ensures
        Color::from_hue_spec(hue) == Color::from_hue_spec(0) <==> hue < RED_SPAN,
{
}

/// After an advance that ends within `RED_SPAN` of zero, the colour at
/// distance zero is the colour of the hue reached.
pub proof fn lemma_advance_then_color_at_zero(s: InputState, distance: nat)
    requires
        s.after_advance(distance).rainbow_hue < RED_SPAN,
    ensures
        s.after_advance(distance).color_at_distance_spec(0) == Color::from_hue_spec(
            s.after_advance(distance).rainbow_hue as nat,
        ),
{
    lemma_color_at_zero_is_red(s.after_advance(distance));
    lemma_red_hues(s.after_advance(distance).rainbow_hue as nat);
}

/// The colours of a path depend on the state and the points alone, and the
/// first point has the colour of the current hue.
pub proof fn lemma_point_colors(s: InputState, points: Seq<(i32, i32)>)
    ensures
        s.point_colors_spec(points).len() == points.len(),
        points.len() > 0 ==> s.point_colors_spec(points)[0] == Color::from_hue_spec(
            s.rainbow_hue as nat,
        ),
        s.after_advance(0).rainbow_hue == s.rainbow_hue % FULL_TURN,
{
    assert(0 * (s.rainbow_hue_step_per_pixel as nat) == 0) by (nonlinear_arith);
    crate::color::lemma_from_hue_wraps(s.rainbow_hue as nat);
}

/// The owned preview of a pen stroke and the plan for painting it agree:
/// same points, same colour, same thickness, and the same per-point colours,
/// which are the rainbow colours of the path while rainbow mode is on.
pub proof fn lemma_pen_paths_agree(s: InputState, x: i32, y: i32)
    requires
        s.state matches DrawingState::Drawing { tool: Tool::Pen, .. },
    ensures
        s.provisional_shape_spec(x, y) == Some(
            ShapeView::Freehand {
                points: s.state->points@,
                color: s.current_color,
                thick: s.current_thickness,
                per_point_colors: s.pen_colors_spec(s.state->points@),
            },
        ),
        s.provisional_render_spec(x, y) == (ProvisionalRenderView::Freehand {
            points: s.state->points@,
            color: s.current_color,
            thick: s.current_thickness,
            per_point_colors: s.pen_colors_spec(s.state->points@),
        }),
        s.rainbow_mode_enabled ==> s.pen_colors_spec(s.state->points@) == Some(
            s.point_colors_spec(s.state->points@),
        ),
        !s.rainbow_mode_enabled ==> s.pen_colors_spec(s.state->points@) == None::<Seq<Color>>,
{
}

/// The marker's alpha always lies within the marker's bounds; a transparent
/// base colour gives the lower bound.
pub proof fn lemma_marker_alpha_bounds(alpha: int, opacity: int)
    ensures
        MIN_MARKER_OPACITY <= marker_alpha_spec(alpha, opacity) <= MAX_MARKER_OPACITY,
        marker_alpha_spec(0, opacity) == MIN_MARKER_OPACITY,
{
    assert(0 * opacity == 0) by (nonlinear_arith);
}

/// A rectangle dragged from one corner to the opposite one is the rectangle
/// dragged the other way.
pub proof fn lemma_rect_preview_symmetric(
    s: InputState,
    a: (i32, i32),
    b: (i32, i32),
    gathered: Vec<(i32, i32)>,
    other: Vec<(i32, i32)>,
)
    ensures
        s.with_gesture(
            DrawingState::Drawing { tool: Tool::Rect, start_x: a.0, start_y: a.1, points: gathered },
        ).provisional_shape_spec(b.0, b.1) == s.with_gesture(
            DrawingState::Drawing { tool: Tool::Rect, start_x: b.0, start_y: b.1, points: other },
        ).provisional_shape_spec(a.0, a.1),
        s.with_gesture(
            DrawingState::Drawing { tool: Tool::Rect, start_x: a.0, start_y: a.1, points: gathered },
        ).can_preview_spec(b.0, b.1) == s.with_gesture(
            DrawingState::Drawing { tool: Tool::Rect, start_x: b.0, start_y: b.1, points: other },
        ).can_preview_spec(a.0, a.1),
{
    lemma_span_symmetric(a.0 as int, b.0 as int);
    lemma_span_symmetric(a.1 as int, b.1 as int);
}

} // verus!
