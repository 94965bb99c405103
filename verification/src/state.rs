//! The overlay's state aggregate and the parts it is made of.

use vstd::prelude::*;
use crate::color::{Color, FULL_TURN};
use crate::tool::Tool;
use crate::units::{
    clamp, clamp_spec, MAX_FONT_SIZE, MAX_MARKER_OPACITY, MAX_STROKE_THICKNESS, MIN_FONT_SIZE,
    MIN_MARKER_OPACITY, MIN_STROKE_THICKNESS,
};

verus! {

/// Alpha of the highlighter tint until the host chooses another, in thousandths.
pub const DEFAULT_HIGHLIGHT_ALPHA: u32 = 350;

/// Where a pointer gesture stands.
#[derive(Clone, Debug, PartialEq, Eq)]
pub enum DrawingState {
    /// No gesture is in flight.
    Idle,
    /// A gesture is in flight. `tool` is the tool that was active when it
    /// began, `(start_x, start_y)` is where it began, and `points` are the
    /// positions gathered since, in order.
    Drawing { tool: Tool, start_x: i32, start_y: i32, points: Vec<(i32, i32)> },
    /// The gesture has turned into text entry at `(x, y)`.
    TextInput { x: i32, y: i32, buffer: String },
}

impl DrawingState {
    /// Whether this state holds geometry gathered under some tool, which a
    /// change of tool makes stale.
    pub open spec fn holds_geometry(self) -> bool {
        self is Drawing
    }

    /// Whether a gesture is in flight and holds geometry.
    pub fn is_drawing(&self) -> (drawing: bool)
        ensures
            drawing == self.holds_geometry(),
    {
        match self {
            DrawingState::Drawing { .. } => true,
            _ => false,
        }
    }

    /// The state a change of tool leaves behind: stale geometry is dropped.
    pub open spec fn after_tool_change(self) -> DrawingState {
        if self.holds_geometry() {
            DrawingState::Idle
        } else {
            self
        }
    }
}

/// Font family, weight and style used for text.
#[derive(Clone, Debug, PartialEq, Eq)]
pub struct FontDescriptor {
    pub family: String,
    pub weight: String,
    pub style: String,
}

impl FontDescriptor {
    /// Whether two descriptors name the same font.
    pub open spec fn same_font(self, other: FontDescriptor) -> bool {
        &&& self.family@ == other.family@
        &&& self.weight@ == other.weight@
        &&& self.style@ == other.style@
    }

    /// Whether two descriptors name the same font.
    pub fn same_as(&self, other: &FontDescriptor) -> (same: bool)
        ensures
            same == self.same_font(*other),
    {
        self.family == other.family && self.weight == other.weight && self.style == other.style
    }
}

/// Records that the screen needs repainting. The overlay state only ever asks
/// for everything to be repainted.
#[derive(Clone, Copy, Debug, PartialEq, Eq, Structural)]
pub struct DirtyTracker {
    pub full: bool,
}

impl DirtyTracker {
    /// A tracker with nothing to repaint.
    pub fn new() -> (tracker: DirtyTracker)
        ensures
            !tracker.full,
    {
        DirtyTracker { full: false }
    }

    /// Asks for the whole surface to be repainted.
    pub fn mark_full(&mut self)
        ensures
            final(self).full,
    {
        self.full = true;
    }

    /// Whether the whole surface needs repainting.
    pub fn is_full(&self) -> (full: bool)
        ensures
            full == self.full,
    {
        self.full
    }

    /// Reports whether the whole surface needed repainting and forgets it.
    pub fn take_full(&mut self) -> (full: bool)
        ensures
            full == old(self).full,
            !final(self).full,
    {
        let full = self.full;
        self.full = false;
        full
    }
}

/// Which toolbars and toolbar sections are shown.
#[derive(Clone, Copy, Debug, PartialEq, Eq, Structural)]
pub struct ToolbarFlags {
    /// Whether the toolbars as a whole are shown.
    pub visible: bool,
    /// Whether the top toolbar is shown.
    pub top_visible: bool,
    /// Whether the side toolbar is shown.
    pub side_visible: bool,
    /// Whether the top toolbar is pinned.
    pub top_pinned: bool,
    /// Whether the side toolbar is pinned.
    pub side_pinned: bool,
    /// Whether toolbar buttons show icons rather than text.
    pub use_icons: bool,
    /// Whether the extended palette is shown.
    pub show_more_colors: bool,
    /// Whether the actions section is shown.
    pub show_actions_section: bool,
    /// Whether the delay sliders are shown.
    pub show_delay_sliders: bool,
    /// Whether the marker-opacity section is shown.
    pub show_marker_opacity_section: bool,
}

impl ToolbarFlags {
    /// Every toolbar and section hidden, nothing pinned.
    pub open spec fn hidden() -> ToolbarFlags {
        ToolbarFlags {
            visible: false,
            top_visible: false,
            side_visible: false,
            top_pinned: false,
            side_pinned: false,
            use_icons: false,
            show_more_colors: false,
            show_actions_section: false,
            show_delay_sliders: false,
            show_marker_opacity_section: false,
        }
    }
}

/// Everything the overlay knows about tools, styles, the gesture in flight,
/// rainbow colouring and toolbars. Sizes, opacities and hues are in
/// thousandths of a pixel, of full opacity, and of a degree.
#[derive(Clone, Debug, PartialEq, Eq)]
pub struct InputState {
    /// The gesture in flight, if any.
    pub state: DrawingState,
    /// The tool chosen explicitly, if any.
    pub tool_override: Option<Tool>,
    /// The tool that applies while none is chosen explicitly.
    pub default_tool: Tool,
    /// Colour of new strokes.
    pub current_color: Color,
    /// Colour of the highlighter: the red, green and blue of `current_color`
    /// under an alpha of its own.
    pub highlight_color: Color,
    /// Stroke thickness.
    pub current_thickness: i64,
    /// Eraser size.
    pub eraser_size: i64,
    /// Opacity multiplier of the marker.
    pub marker_opacity: i64,
    /// Font used for text.
    pub font_descriptor: FontDescriptor,
    /// Font size.
    pub current_font_size: i64,
    /// Whether rectangles and ellipses are filled.
    pub fill_enabled: bool,
    /// Length of an arrow head.
    pub arrow_length: i64,
    /// Opening angle of an arrow head.
    pub arrow_angle: i64,
    /// Whether strokes are coloured by the distance travelled.
    pub rainbow_mode_enabled: bool,
    /// Hue at which the next rainbow stroke starts.
    pub rainbow_hue: u32,
    /// Hue advance per pixel of path.
    pub rainbow_hue_step_per_pixel: u32,
    /// Which toolbars and toolbar sections are shown.
    pub toolbar: ToolbarFlags,
    /// What needs repainting.
    pub dirty_tracker: DirtyTracker,
    /// Whether a redraw has been asked for.
    pub needs_redraw: bool,
}

impl InputState {
    /// The invariant of the state: every clamped quantity lies within its
    /// bounds, the hue lies within one turn, and the highlighter follows the
    /// current colour.
    #[verifier::opaque]
    pub open spec fn wf(self) -> bool {
        &&& MIN_STROKE_THICKNESS <= self.current_thickness <= MAX_STROKE_THICKNESS
        &&& MIN_STROKE_THICKNESS <= self.eraser_size <= MAX_STROKE_THICKNESS
        &&& MIN_MARKER_OPACITY <= self.marker_opacity <= MAX_MARKER_OPACITY
        &&& MIN_FONT_SIZE <= self.current_font_size <= MAX_FONT_SIZE
        &&& self.rainbow_hue < FULL_TURN
        &&& self.highlight_color == self.current_color.with_alpha_spec(self.highlight_color.a)
    }

    /// Whether the invariant holds. A host that writes the fields itself can
    /// test its work with this.
    pub fn is_well_formed(&self) -> (ok: bool)
        ensures
            ok == self.wf(),
    {
        reveal(InputState::wf);
        let sizes_ok: bool = MIN_STROKE_THICKNESS <= self.current_thickness
            && self.current_thickness <= MAX_STROKE_THICKNESS
            && MIN_STROKE_THICKNESS <= self.eraser_size
            && self.eraser_size <= MAX_STROKE_THICKNESS
            && MIN_FONT_SIZE <= self.current_font_size
            && self.current_font_size <= MAX_FONT_SIZE;
        let opacity_ok: bool = MIN_MARKER_OPACITY <= self.marker_opacity
            && self.marker_opacity <= MAX_MARKER_OPACITY;
        let highlight_ok: bool = self.highlight_color.r == self.current_color.r
            && self.highlight_color.g == self.current_color.g
            && self.highlight_color.b == self.current_color.b;
        sizes_ok && opacity_ok && self.rainbow_hue < FULL_TURN && highlight_ok
    }

    /// This state after a full repaint has been asked for.
    pub open spec fn invalidated(self) -> InputState {
        InputState { dirty_tracker: DirtyTracker { full: true }, needs_redraw: true, ..self }
    }

    /// This state after the host has repainted and taken note of it.
    pub open spec fn repainted(self) -> InputState {
        InputState { dirty_tracker: DirtyTracker { full: false }, needs_redraw: false, ..self }
    }

    /// This state with `state` as the gesture in flight.
    pub open spec fn with_gesture(self, state: DrawingState) -> InputState {
        InputState { state: state, ..self }
    }

    /// The tool in effect: the explicit override, or else the default.
    pub open spec fn active_tool_spec(self) -> Tool {
        match self.tool_override {
            Some(tool) => tool,
            None => self.default_tool,
        }
    }

    /// A fresh state: idle, pen by default, no override, rainbow off at hue
    /// zero, toolbars hidden, nothing to repaint. Sizes and opacity are clamped
    /// into their bounds.
    pub fn with_defaults(
        color: Color,
        thickness: i64,
        eraser_size: i64,
        marker_opacity: i64,
        fill_enabled: bool,
        font_size: i64,
        font_descriptor: FontDescriptor,
        arrow_length: i64,
        arrow_angle: i64,
        rainbow_hue_step_per_pixel: u32,
    ) -> (state: InputState)
        ensures
            state.wf(),
            state.state == DrawingState::Idle,
            state.tool_override == None::<Tool>,
            state.default_tool == Tool::Pen,
            state.current_color == color,
            state.highlight_color == color.with_alpha_spec(DEFAULT_HIGHLIGHT_ALPHA),
            state.current_thickness == clamp_spec(
                thickness as int,
                MIN_STROKE_THICKNESS as int,
                MAX_STROKE_THICKNESS as int,
            ),
            state.eraser_size == clamp_spec(
                eraser_size as int,
                MIN_STROKE_THICKNESS as int,
                MAX_STROKE_THICKNESS as int,
            ),
            state.marker_opacity == clamp_spec(
                marker_opacity as int,
                MIN_MARKER_OPACITY as int,
                MAX_MARKER_OPACITY as int,
            ),
            state.current_font_size == clamp_spec(
                font_size as int,
                MIN_FONT_SIZE as int,
                MAX_FONT_SIZE as int,
            ),
            state.font_descriptor == font_descriptor,
            state.fill_enabled == fill_enabled,
            state.arrow_length == arrow_length,
            state.arrow_angle == arrow_angle,
            !state.rainbow_mode_enabled,
            state.rainbow_hue == 0,
            state.rainbow_hue_step_per_pixel == rainbow_hue_step_per_pixel,
            state.toolbar == ToolbarFlags::hidden(),
            !state.dirty_tracker.full,
            !state.needs_redraw,
    {
        reveal(InputState::wf);
        InputState {
            state: DrawingState::Idle,
            tool_override: None,
            default_tool: Tool::Pen,
            current_color: color,
            highlight_color: color.with_alpha(DEFAULT_HIGHLIGHT_ALPHA),
            current_thickness: clamp(thickness, MIN_STROKE_THICKNESS, MAX_STROKE_THICKNESS),
            eraser_size: clamp(eraser_size, MIN_STROKE_THICKNESS, MAX_STROKE_THICKNESS),
            marker_opacity: clamp(marker_opacity, MIN_MARKER_OPACITY, MAX_MARKER_OPACITY),
            font_descriptor,
            current_font_size: clamp(font_size, MIN_FONT_SIZE, MAX_FONT_SIZE),
            fill_enabled,
            arrow_length,
            arrow_angle,
            rainbow_mode_enabled: false,
            rainbow_hue: 0,
            rainbow_hue_step_per_pixel,
            toolbar: ToolbarFlags {
                visible: false,
                top_visible: false,
                side_visible: false,
                top_pinned: false,
                side_pinned: false,
                use_icons: false,
                show_more_colors: false,
                show_actions_section: false,
                show_delay_sliders: false,
                show_marker_opacity_section: false,
            },
            dirty_tracker: DirtyTracker::new(),
            needs_redraw: false,
        }
    }

    /// The tool in effect: the explicit override, or else the default.
    pub fn active_tool(&self) -> (tool: Tool)
        ensures
            tool == self.active_tool_spec(),
    {
        match self.tool_override {
            Some(tool) => tool,
            None => self.default_tool,
        }
    }
}

} // verus!
