//! Choosing tools, setting styles, and showing toolbars.
//!
//! Every setter comes with two spec functions: whether the call changes
//! anything, and the state it leaves behind. A setter that changes nothing
//! leaves the state exactly as it was.

use vstd::prelude::*;
use crate::color::Color;
use crate::state::{DrawingState, FontDescriptor, InputState, ToolbarFlags};
use crate::tool::{Action, Tool};
use crate::units::{
    clamp, clamp_spec, clamp_wide, MAX_FONT_SIZE, MAX_MARKER_OPACITY, MAX_STROKE_THICKNESS, MIN_FONT_SIZE,
    MIN_MARKER_OPACITY, MIN_STROKE_THICKNESS,
};

verus! {

/// Whether two tool choices are the same, both absent included.
fn same_choice(a: Option<Tool>, b: Option<Tool>) -> (same: bool)
    ensures
        same == (a == b),
{
    match (a, b) {
        (None, None) => true,
        (Some(x), Some(y)) => x == y,
        _ => false,
    }
}

impl InputState {
    // ----- tool selection -----

    /// Whether choosing `tool` as the override changes anything.
    pub open spec fn tool_override_changes(self, tool: Option<Tool>) -> bool {
        self.tool_override != tool
    }

    /// The state after choosing `tool` as the override: where that changes
    /// the override, stale geometry is dropped and a repaint is asked for.
    pub open spec fn after_set_tool_override(self, tool: Option<Tool>) -> InputState {
        if self.tool_override_changes(tool) {
            InputState {
                tool_override: tool,
                state: self.state.after_tool_change(),
                ..self
            }.invalidated()
        } else {
            self
        }
    }

    proof fn lemma_tool_override_keeps_wf(self, tool: Option<Tool>)
        requires
            self.wf(),
        ensures
            self.after_set_tool_override(tool).wf(),
    {
        reveal(InputState::wf);
    }

    /// Sets or clears the explicit tool override. Returns whether it changed.
    /// A change drops the geometry of a gesture in flight.
    pub fn set_tool_override(&mut self, tool: Option<Tool>) -> (changed: bool)
        requires
            old(self).wf(),
        ensures
            final(self).wf(),
            changed == old(self).tool_override_changes(tool),
            *final(self) == old(self).after_set_tool_override(tool),
    {
        if same_choice(self.tool_override, tool) {
            return false;
        }
        self.tool_override = tool;
        if self.state.is_drawing() {
            self.state = DrawingState::Idle;
        }
        self.dirty_tracker.mark_full();
        self.needs_redraw = true;
        proof {
            assert(*self == old(self).after_set_tool_override(tool));
            old(self).lemma_tool_override_keeps_wf(tool);
        }
        true
    }

    /// The explicit tool override, if any.
    pub fn tool_override(&self) -> (tool: Option<Tool>)
        ensures
            tool == self.tool_override,
    {
        self.tool_override
    }

    // ----- marker opacity -----

    /// The opacity that a proposal of `opacity` is stored as.
    pub open spec fn clamped_opacity(opacity: int) -> int {
        clamp_spec(opacity, MIN_MARKER_OPACITY as int, MAX_MARKER_OPACITY as int)
    }

    /// Whether proposing `opacity` changes the marker opacity.
    pub open spec fn marker_opacity_changes(self, opacity: int) -> bool {
        Self::clamped_opacity(opacity) != self.marker_opacity
    }

    /// The state after proposing `opacity` as the marker opacity.
    pub open spec fn after_set_marker_opacity(self, opacity: int) -> InputState {
        if self.marker_opacity_changes(opacity) {
            InputState { marker_opacity: Self::clamped_opacity(opacity) as i64, ..self }.invalidated()
        } else {
            self
        }
    }

    proof fn lemma_marker_opacity_keeps_wf(self, opacity: int)
        requires
            self.wf(),
        ensures
            self.after_set_marker_opacity(opacity).wf(),
    {
        reveal(InputState::wf);
    }

    /// Sets the marker opacity, clamped into its bounds. Returns whether it
    /// changed; where it did, a repaint is asked for.
    pub fn set_marker_opacity(&mut self, opacity: i64) -> (changed: bool)
        requires
            old(self).wf(),
        ensures
            final(self).wf(),
            changed == old(self).marker_opacity_changes(opacity as int),
            *final(self) == old(self).after_set_marker_opacity(opacity as int),
            final(self).marker_opacity == Self::clamped_opacity(opacity as int),
    {
        let clamped: i64 = clamp(opacity, MIN_MARKER_OPACITY, MAX_MARKER_OPACITY);
        if clamped == self.marker_opacity {
            return false;
        }
        self.marker_opacity = clamped;
        self.dirty_tracker.mark_full();
        self.needs_redraw = true;
        proof {
            assert(*self == old(self).after_set_marker_opacity(opacity as int));
            old(self).lemma_marker_opacity_keeps_wf(opacity as int);
        }
        true
    }

    // ----- stroke thickness and eraser size -----

    /// The size that a proposed thickness or eraser size is stored as.
    pub open spec fn clamped_thickness(thickness: int) -> int {
        clamp_spec(thickness, MIN_STROKE_THICKNESS as int, MAX_STROKE_THICKNESS as int)
    }

    /// Whether proposing `thickness` changes the stroke thickness.
    pub open spec fn thickness_changes(self, thickness: int) -> bool {
        Self::clamped_thickness(thickness) != self.current_thickness
    }

    /// The state after proposing `thickness` as the stroke thickness.
    pub open spec fn after_set_thickness(self, thickness: int) -> InputState {
        if self.thickness_changes(thickness) {
            InputState {
                current_thickness: Self::clamped_thickness(thickness) as i64,
                ..self
            }.invalidated()
        } else {
            self
        }
    }

    proof fn lemma_thickness_keeps_wf(self, thickness: int)
        requires
            self.wf(),
        ensures
            self.after_set_thickness(thickness).wf(),
    {
        reveal(InputState::wf);
    }

    /// Sets the stroke thickness, clamped into its bounds. Returns whether it
    /// changed; where it did, a repaint is asked for.
    pub fn set_thickness(&mut self, thickness: i64) -> (changed: bool)
        requires
            old(self).wf(),
        ensures
            final(self).wf(),
            changed == old(self).thickness_changes(thickness as int),
            *final(self) == old(self).after_set_thickness(thickness as int),
            final(self).current_thickness == Self::clamped_thickness(thickness as int),
    {
        let clamped: i64 = clamp(thickness, MIN_STROKE_THICKNESS, MAX_STROKE_THICKNESS);
        if clamped == self.current_thickness {
            return false;
        }
        self.current_thickness = clamped;
        self.dirty_tracker.mark_full();
        self.needs_redraw = true;
        proof {
            assert(*self == old(self).after_set_thickness(thickness as int));
            old(self).lemma_thickness_keeps_wf(thickness as int);
        }
        true
    }

    /// Whether proposing `size` changes the eraser size.
    pub open spec fn eraser_size_changes(self, size: int) -> bool {
        Self::clamped_thickness(size) != self.eraser_size
    }

    /// The state after proposing `size` as the eraser size.
    pub open spec fn after_set_eraser_size(self, size: int) -> InputState {
        if self.eraser_size_changes(size) {
            InputState { eraser_size: Self::clamped_thickness(size) as i64, ..self }.invalidated()
        } else {
            self
        }
    }

    proof fn lemma_eraser_size_keeps_wf(self, size: int)
        requires
            self.wf(),
        ensures
            self.after_set_eraser_size(size).wf(),
    {
        reveal(InputState::wf);
    }

    /// Sets the eraser size, clamped into its bounds. Returns whether it
    /// changed; where it did, a repaint is asked for.
    pub fn set_eraser_size(&mut self, size: i64) -> (changed: bool)
        requires
            old(self).wf(),
        ensures
            final(self).wf(),
            changed == old(self).eraser_size_changes(size as int),
            *final(self) == old(self).after_set_eraser_size(size as int),
            final(self).eraser_size == Self::clamped_thickness(size as int),
    {
        let clamped: i64 = clamp(size, MIN_STROKE_THICKNESS, MAX_STROKE_THICKNESS);
        if clamped == self.eraser_size {
            return false;
        }
        self.eraser_size = clamped;
        self.dirty_tracker.mark_full();
        self.needs_redraw = true;
        proof {
            assert(*self == old(self).after_set_eraser_size(size as int));
            old(self).lemma_eraser_size_keeps_wf(size as int);
        }
        true
    }

    /// Whether the active tool keeps its size in the eraser slot rather than
    /// in the thickness slot.
    pub open spec fn sizes_eraser(self) -> bool {
        self.active_tool_spec() == Tool::Eraser
    }

    /// The size of the active tool: the eraser size while the eraser is
    /// active, the stroke thickness otherwise.
    pub open spec fn active_size(self) -> i64 {
        if self.sizes_eraser() {
            self.eraser_size
        } else {
            self.current_thickness
        }
    }

    /// Whether proposing `value` changes the size of the active tool.
    pub open spec fn active_size_changes(self, value: int) -> bool {
        Self::clamped_thickness(value) != self.active_size()
    }

    /// The state after proposing `value` as the size of the active tool.
    pub open spec fn after_set_active_size(self, value: int) -> InputState {
        if self.sizes_eraser() {
            self.after_set_eraser_size(value)
        } else {
            self.after_set_thickness(value)
        }
    }

    /// Sets the eraser size while the eraser is active and the stroke
    /// thickness otherwise. Returns whether the size changed.
    pub fn set_thickness_for_active_tool(&mut self, value: i64) -> (changed: bool)
        requires
            old(self).wf(),
        ensures
            final(self).wf(),
            changed == old(self).active_size_changes(value as int),
            *final(self) == old(self).after_set_active_size(value as int),
            final(self).active_size() == Self::clamped_thickness(value as int),
    {
        match self.active_tool() {
            Tool::Eraser => self.set_eraser_size(value),
            _ => self.set_thickness(value),
        }
    }

    /// Moves the size of the active tool by `delta`, which may be negative;
    /// the result is clamped into the bounds. Returns whether the size changed.
    pub fn nudge_thickness_for_active_tool(&mut self, delta: i64) -> (changed: bool)
        requires
            old(self).wf(),
        ensures
            final(self).wf(),
            changed == old(self).active_size_changes(old(self).active_size() + delta),
            *final(self) == old(self).after_set_active_size(old(self).active_size() + delta),
            final(self).active_size() == Self::clamped_thickness(old(self).active_size() + delta),
    {
        match self.active_tool() {
            Tool::Eraser => {
                let target: i64 = clamp_wide(
                    self.eraser_size as i128 + delta as i128,
                    MIN_STROKE_THICKNESS,
                    MAX_STROKE_THICKNESS,
                );
                self.set_eraser_size(target)
            },
            _ => {
                let target: i64 = clamp_wide(
                    self.current_thickness as i128 + delta as i128,
                    MIN_STROKE_THICKNESS,
                    MAX_STROKE_THICKNESS,
                );
                self.set_thickness(target)
            },
        }
    }

    // ----- colour -----

    /// Whether choosing `color` changes the current colour.
    pub open spec fn color_changes(self, color: Color) -> bool {
        self.current_color != color
    }

    /// The state after choosing `color`: where that changes the colour, the
    /// highlighter takes its red, green and blue and keeps its own alpha, and
    /// a repaint is asked for.
    pub open spec fn after_set_color(self, color: Color) -> InputState {
        if self.color_changes(color) {
            InputState {
                current_color: color,
                highlight_color: color.with_alpha_spec(self.highlight_color.a),
                ..self
            }.invalidated()
        } else {
            self
        }
    }

    proof fn lemma_color_keeps_wf(self, color: Color)
        requires
            self.wf(),
        ensures
            self.after_set_color(color).wf(),
    {
        reveal(InputState::wf);
    }

    /// Sets the current colour; the channels are stored as given. Returns
    /// whether it changed. A change carries over to the highlighter.
    pub fn set_color(&mut self, color: Color) -> (changed: bool)
        requires
            old(self).wf(),
        ensures
            final(self).wf(),
            changed == old(self).color_changes(color),
            *final(self) == old(self).after_set_color(color),
    {
        if self.current_color == color {
            return false;
        }
        self.current_color = color;
        self.dirty_tracker.mark_full();
        self.needs_redraw = true;
        self.sync_highlight_color();
        proof {
            assert(*self == old(self).after_set_color(color));
            old(self).lemma_color_keeps_wf(color);
        }
        true
    }

    /// Gives the highlighter the red, green and blue of the current colour.
    fn sync_highlight_color(&mut self)
        ensures
            *final(self) == (InputState {
                highlight_color: old(self).current_color.with_alpha_spec(
                    old(self).highlight_color.a,
                ),
                ..*old(self)
            }),
    {
        self.highlight_color = self.current_color.with_alpha(self.highlight_color.a);
    }

    // ----- font -----

    /// Whether choosing `descriptor` changes the font.
    pub open spec fn font_descriptor_changes(self, descriptor: FontDescriptor) -> bool {
        !self.font_descriptor.same_font(descriptor)
    }

    /// The state after choosing `descriptor` as the font.
    pub open spec fn after_set_font_descriptor(self, descriptor: FontDescriptor) -> InputState {
        if self.font_descriptor_changes(descriptor) {
            InputState { font_descriptor: descriptor, ..self }.invalidated()
        } else {
            self
        }
    }

    proof fn lemma_font_descriptor_keeps_wf(self, descriptor: FontDescriptor)
        requires
            self.wf(),
        ensures
            self.after_set_font_descriptor(descriptor).wf(),
    {
        reveal(InputState::wf);
    }

    /// Sets the font used for text. Returns whether it changed; where it did,
    /// a repaint is asked for.
    pub fn set_font_descriptor(&mut self, descriptor: FontDescriptor) -> (changed: bool)
        requires
            old(self).wf(),
        ensures
            final(self).wf(),
            changed == old(self).font_descriptor_changes(descriptor),
            *final(self) == old(self).after_set_font_descriptor(descriptor),
    {
        if self.font_descriptor.same_as(&descriptor) {
            return false;
        }
        self.font_descriptor = descriptor;
        self.dirty_tracker.mark_full();
        self.needs_redraw = true;
        proof {
            assert(*self == old(self).after_set_font_descriptor(descriptor));
            old(self).lemma_font_descriptor_keeps_wf(descriptor);
        }
        true
    }

    /// The size that a proposed font size is stored as.
    pub open spec fn clamped_font_size(size: int) -> int {
        clamp_spec(size, MIN_FONT_SIZE as int, MAX_FONT_SIZE as int)
    }

    /// Whether proposing `size` changes the font size.
    pub open spec fn font_size_changes(self, size: int) -> bool {
        Self::clamped_font_size(size) != self.current_font_size
    }

    /// The state after proposing `size` as the font size.
    pub open spec fn after_set_font_size(self, size: int) -> InputState {
        if self.font_size_changes(size) {
            InputState {
                current_font_size: Self::clamped_font_size(size) as i64,
                ..self
            }.invalidated()
        } else {
            self
        }
    }

    proof fn lemma_font_size_keeps_wf(self, size: int)
        requires
            self.wf(),
        ensures
            self.after_set_font_size(size).wf(),
    {
        reveal(InputState::wf);
    }

    /// Sets the font size, clamped into its bounds. Returns whether it
    /// changed; where it did, a repaint is asked for.
    pub fn set_font_size(&mut self, size: i64) -> (changed: bool)
        requires
            old(self).wf(),
        ensures
            final(self).wf(),
            changed == old(self).font_size_changes(size as int),
            *final(self) == old(self).after_set_font_size(size as int),
            final(self).current_font_size == Self::clamped_font_size(size as int),
    {
        let clamped: i64 = clamp(size, MIN_FONT_SIZE, MAX_FONT_SIZE);
        if clamped == self.current_font_size {
            return false;
        }
        self.current_font_size = clamped;
        self.dirty_tracker.mark_full();
        self.needs_redraw = true;
        proof {
            assert(*self == old(self).after_set_font_size(size as int));
            old(self).lemma_font_size_keeps_wf(size as int);
        }
        true
    }

    // ----- fill -----

    /// Whether choosing `enabled` changes the fill flag.
    pub open spec fn fill_changes(self, enabled: bool) -> bool {
        self.fill_enabled != enabled
    }

    /// The state after choosing `enabled` as the fill flag: a change asks for
    /// a repaint.
    pub open spec fn after_set_fill_enabled(self, enabled: bool) -> InputState {
        if self.fill_changes(enabled) {
            InputState { fill_enabled: enabled, ..self }.invalidated()
        } else {
            self
        }
    }

    proof fn lemma_fill_keeps_wf(self, enabled: bool)
        requires
            self.wf(),
        ensures
            self.after_set_fill_enabled(enabled).wf(),
    {
        reveal(InputState::wf);
    }

    /// Turns the filling of rectangles and ellipses on or off. Returns
    /// whether the flag changed; where it did, a repaint is asked for.
    pub fn set_fill_enabled(&mut self, enabled: bool) -> (changed: bool)
        requires
            old(self).wf(),
        ensures
            final(self).wf(),
            changed == old(self).fill_changes(enabled),
            *final(self) == old(self).after_set_fill_enabled(enabled),
    {
        if self.fill_enabled == enabled {
            return false;
        }
        self.fill_enabled = enabled;
        self.dirty_tracker.mark_full();
        self.needs_redraw = true;
        proof {
            assert(*self == old(self).after_set_fill_enabled(enabled));
            old(self).lemma_fill_keeps_wf(enabled);
        }
        true
    }

    // ----- toolbars -----

    /// Whether showing or hiding the toolbars changes any of the three
    /// visibility flags.
    pub open spec fn toolbar_visibility_changes(self, visible: bool) -> bool {
        ||| self.toolbar.visible != visible
        ||| self.toolbar.top_visible != visible
        ||| self.toolbar.side_visible != visible
    }

    /// The state after showing or hiding the toolbars: where a flag changes,
    /// all three become `visible` and a redraw is asked for.
    pub open spec fn after_set_toolbar_visible(self, visible: bool) -> InputState {
        if self.toolbar_visibility_changes(visible) {
            InputState {
                toolbar: ToolbarFlags {
                    visible: visible,
                    top_visible: visible,
                    side_visible: visible,
                    ..self.toolbar
                },
                needs_redraw: true,
                ..self
            }
        } else {
            self
        }
    }

    proof fn lemma_toolbar_visible_keeps_wf(self, visible: bool)
        requires
            self.wf(),
        ensures
            self.after_set_toolbar_visible(visible).wf(),
    {
        reveal(InputState::wf);
    }

    /// Shows or hides the toolbars: the combined, top and side flags move in
    /// lockstep. Returns whether any of them changed.
    pub fn set_toolbar_visible(&mut self, visible: bool) -> (changed: bool)
        requires
            old(self).wf(),
        ensures
            final(self).wf(),
            changed == old(self).toolbar_visibility_changes(visible),
            *final(self) == old(self).after_set_toolbar_visible(visible),
    {
        let any_change: bool = self.toolbar.visible != visible || self.toolbar.top_visible
            != visible || self.toolbar.side_visible != visible;
        if !any_change {
            return false;
        }
        self.toolbar.visible = visible;
        self.toolbar.top_visible = visible;
        self.toolbar.side_visible = visible;
        self.needs_redraw = true;
        proof {
            assert(self.toolbar == (ToolbarFlags {
                visible: visible,
                top_visible: visible,
                side_visible: visible,
                ..old(self).toolbar
            }));
            assert(*self == old(self).after_set_toolbar_visible(visible));
            old(self).lemma_toolbar_visible_keeps_wf(visible);
        }
        true
    }

    /// Whether any toolbar is marked visible.
    pub fn toolbar_visible(&self) -> (visible: bool)
        ensures
            visible == (self.toolbar.visible || self.toolbar.top_visible
                || self.toolbar.side_visible),
    {
        self.toolbar.visible || self.toolbar.top_visible || self.toolbar.side_visible
    }

    /// Whether the top toolbar is visible.
    pub fn toolbar_top_visible(&self) -> (visible: bool)
        ensures
            visible == self.toolbar.top_visible,
    {
        self.toolbar.top_visible
    }

    /// Whether the side toolbar is visible.
    pub fn toolbar_side_visible(&self) -> (visible: bool)
        ensures
            visible == self.toolbar.side_visible,
    {
        self.toolbar.side_visible
    }

    /// The state after the toolbar flags have been taken from configuration:
    /// a pinned toolbar is shown, and the toolbars as a whole are shown if
    /// either is pinned.
    pub open spec fn after_init_toolbar(
        self,
        top_pinned: bool,
        side_pinned: bool,
        use_icons: bool,
        show_more_colors: bool,
        show_actions_section: bool,
        show_delay_sliders: bool,
        show_marker_opacity_section: bool,
    ) -> InputState {
        InputState {
            toolbar: ToolbarFlags {
                visible: top_pinned || side_pinned,
                top_visible: top_pinned,
                side_visible: side_pinned,
                top_pinned: top_pinned,
                side_pinned: side_pinned,
                use_icons: use_icons,
                show_more_colors: show_more_colors,
                show_actions_section: show_actions_section,
                show_delay_sliders: show_delay_sliders,
                show_marker_opacity_section: show_marker_opacity_section,
            },
            ..self
        }
    }

    proof fn lemma_init_toolbar_keeps_wf(self, flags: ToolbarFlags)
        requires
            self.wf(),
        ensures
            (InputState { toolbar: flags, ..self }).wf(),
    {
        reveal(InputState::wf);
    }

    /// Takes the toolbar flags from configuration, as given.
    pub fn init_toolbar_from_config(
        &mut self,
        top_pinned: bool,
        side_pinned: bool,
        use_icons: bool,
        show_more_colors: bool,
        show_actions_section: bool,
        show_delay_sliders: bool,
        show_marker_opacity_section: bool,
    )
        requires
            old(self).wf(),
        ensures
            final(self).wf(),
            *final(self) == old(self).after_init_toolbar(
                top_pinned,
                side_pinned,
                use_icons,
                show_more_colors,
                show_actions_section,
                show_delay_sliders,
                show_marker_opacity_section,
            ),
    {
        self.toolbar = ToolbarFlags {
            visible: top_pinned || side_pinned,
            top_visible: top_pinned,
            side_visible: side_pinned,
            top_pinned,
            side_pinned,
            use_icons,
            show_more_colors,
            show_actions_section,
            show_delay_sliders,
            show_marker_opacity_section,
        };
        proof {
            assert(*self == (InputState { toolbar: self.toolbar, ..*old(self) }));
            old(self).lemma_init_toolbar_keeps_wf(self.toolbar);
        }
    }

    /// The action the host's handler is to perform for the undo button.
    pub fn toolbar_undo(&self) -> (action: Action)
        ensures
            action == Action::Undo,
    {
        Action::Undo
    }

    /// The action the host's handler is to perform for the redo button.
    pub fn toolbar_redo(&self) -> (action: Action)
        ensures
            action == Action::Redo,
    {
        Action::Redo
    }

    /// The action the host's handler is to perform for the clear button.
    pub fn toolbar_clear(&self) -> (action: Action)
        ensures
            action == Action::ClearCanvas,
    {
        Action::ClearCanvas
    }

    /// The action the host's handler is to perform for the text button.
    pub fn toolbar_enter_text_mode(&self) -> (action: Action)
        ensures
            action == Action::EnterTextMode,
    {
        Action::EnterTextMode
    }
}

} // verus!
