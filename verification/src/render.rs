//! The live preview of the gesture in flight.
//!
//! `get_provisional_shape` builds the preview as an owned [`Shape`].
//! `render_provisional_shape` decides how the preview is to be painted and
//! lends out the gathered points instead of copying them; the host paints.
//! For a pen stroke the two agree on everything but who holds the points.

use vstd::prelude::*;
use crate::color::{with_alpha_all, Color};
use crate::geometry::{
    copy_points, diagonal, diagonal_spec, ellipse_bounds, ellipse_bounds_spec, normalize_span,
    fits_span, segment_length, segment_length_spec, span_extent, span_fits, span_origin,
};
use crate::shape::{Shape, ShapeView};
use crate::state::{DrawingState, InputState};
use crate::tool::Tool;
use crate::units::{clamp_spec, clamp_wide, MAX_MARKER_OPACITY, MIN_MARKER_OPACITY};

verus! {

/// Alpha of the eraser's preview stroke, in thousandths.
pub const ERASER_PREVIEW_ALPHA: u32 = 350;

/// Colour of the eraser's preview stroke: translucent white, unlike the
/// colour that erases.
pub open spec fn eraser_preview_color_spec() -> Color {
    Color { r: 1000, g: 1000, b: 1000, a: ERASER_PREVIEW_ALPHA }
}

/// Colour of the eraser's preview stroke.
pub fn eraser_preview_color() -> (color: Color)
    ensures
        color == eraser_preview_color_spec(),
{
    Color { r: 1000, g: 1000, b: 1000, a: ERASER_PREVIEW_ALPHA }
}

/// The alpha of the marker for a base alpha and an opacity multiplier, both
/// in thousandths: their product, kept within the marker's bounds so that the
/// marker is never invisible and never fully opaque.
pub open spec fn marker_alpha_spec(alpha: int, opacity: int) -> int {
    clamp_spec(alpha * opacity / 1000, MIN_MARKER_OPACITY as int, MAX_MARKER_OPACITY as int)
}

/// The contents of an optional shape.
pub open spec fn shape_option_view(shape: Option<Shape>) -> Option<ShapeView> {
    match shape {
        Some(shape) => Some(shape@),
        None => None,
    }
}

/// How the preview of the gesture in flight is to be painted.
#[derive(Debug)]
pub enum ProvisionalRender<'a> {
    /// There is nothing to paint.
    Nothing,
    /// A freehand stroke through the borrowed `points`.
    Freehand {
        points: &'a Vec<(i32, i32)>,
        color: Color,
        thick: i64,
        per_point_colors: Option<Vec<Color>>,
    },
    /// A marker stroke through the borrowed `points`.
    MarkerStroke {
        points: &'a Vec<(i32, i32)>,
        color: Color,
        thick: i64,
        per_point_colors: Option<Vec<Color>>,
    },
    /// A shape of fixed size, built for the occasion.
    Owned { shape: Shape },
}

/// The mathematical content of a [`ProvisionalRender`].
pub ghost enum ProvisionalRenderView {
    Nothing,
    Freehand {
        points: Seq<(i32, i32)>,
        color: Color,
        thick: i64,
        per_point_colors: Option<Seq<Color>>,
    },
    MarkerStroke {
        points: Seq<(i32, i32)>,
        color: Color,
        thick: i64,
        per_point_colors: Option<Seq<Color>>,
    },
    Owned { shape: ShapeView },
}

impl<'a> View for ProvisionalRender<'a> {
    type V = ProvisionalRenderView;

    open spec fn view(&self) -> ProvisionalRenderView {
        match *self {
            ProvisionalRender::Nothing => ProvisionalRenderView::Nothing,
            ProvisionalRender::Freehand {
                points,
                color,
                thick,
                per_point_colors,
            } => ProvisionalRenderView::Freehand {
                points: points@,
                color,
                thick,
                per_point_colors: crate::shape::colors_view(per_point_colors),
            },
            ProvisionalRender::MarkerStroke {
                points,
                color,
                thick,
                per_point_colors,
            } => ProvisionalRenderView::MarkerStroke {
                points: points@,
                color,
                thick,
                per_point_colors: crate::shape::colors_view(per_point_colors),
            },
            ProvisionalRender::Owned { shape } => ProvisionalRenderView::Owned { shape: shape@ },
        }
    }
}

impl<'a> ProvisionalRender<'a> {
    /// Whether anything is painted.
    pub fn draws(&self) -> (drawn: bool)
        ensures
            drawn == !(self@ is Nothing),
    {
        match self {
            ProvisionalRender::Nothing => false,
            _ => true,
        }
    }
}

impl InputState {
    /// The marker's colour: the current colour under the marker's alpha.
    pub open spec fn marker_color_spec(self) -> Color {
        self.current_color.with_alpha_spec(
            marker_alpha_spec(self.current_color.a as int, self.marker_opacity as int) as u32,
        )
    }

    /// The marker's colour: the current colour with its alpha multiplied by
    /// the marker opacity and kept within the marker's bounds.
    pub fn marker_color(&self) -> (color: Color)
        ensures
            color == self.marker_color_spec(),
            MIN_MARKER_OPACITY <= color.a <= MAX_MARKER_OPACITY,
            color.r == self.current_color.r,
            color.g == self.current_color.g,
            color.b == self.current_color.b,
    {
        let base: i128 = self.current_color.a as i128;
        let opacity: i128 = self.marker_opacity as i128;
        assert(-0x1_0000_0000_0000_0000_0000_0000 <= base * opacity
            <= 0x1_0000_0000_0000_0000_0000_0000) by (nonlinear_arith)
            requires
                0 <= base <= 0x1_0000_0000,
                -0x1_0000_0000_0000_0000 <= opacity <= 0x1_0000_0000_0000_0000,
        ;
        let product: i128 = base * opacity;
        let alpha: i64 = if product <= 0 {
            MIN_MARKER_OPACITY
        } else {
            clamp_wide(product / 1000, MIN_MARKER_OPACITY, MAX_MARKER_OPACITY)
        };
        self.current_color.with_alpha(alpha as u32)
    }

    /// Start and end colour of a preview with two colour anchors, whose
    /// characteristic length is `distance` thousandths of a pixel: the
    /// current hue and the hue that far along, or none while rainbow mode is
    /// off.
    pub open spec fn anchor_colors_spec(self, distance: nat) -> (Option<Color>, Option<Color>) {
        if self.rainbow_mode_enabled {
            (
                Some(Color::from_hue_spec(self.rainbow_hue as nat)),
                Some(Color::from_hue_spec(self.hue_at(distance))),
            )
        } else {
            (None, None)
        }
    }

    /// Start and end colour of a preview with two colour anchors.
    fn anchor_colors(&self, distance: u64) -> (anchors: (Option<Color>, Option<Color>))
        ensures
            anchors == self.anchor_colors_spec(distance as nat),
    {
        if self.rainbow_mode_enabled {
            let end_hue: u32 = crate::color::hue_after(
                self.rainbow_hue,
                distance as u128,
                self.rainbow_hue_step_per_pixel,
            );
            (
                Some(self.rainbow_color_from_hue(self.rainbow_hue as u64)),
                Some(self.rainbow_color_from_hue(end_hue as u64)),
            )
        } else {
            (None, None)
        }
    }

    /// Whether a preview can be built with the pointer at `(x, y)`: the
    /// width and height of a rectangle must fit its fields.
    pub open spec fn can_preview_spec(self, x: i32, y: i32) -> bool {
        match self.state {
            DrawingState::Drawing { tool: Tool::Rect, start_x, start_y, .. } => {
                &&& span_fits(start_x as int, x as int)
                &&& span_fits(start_y as int, y as int)
            },
            _ => true,
        }
    }

    /// Whether a preview can be built with the pointer at `(x, y)`.
    pub fn can_preview(&self, x: i32, y: i32) -> (possible: bool)
        ensures
            possible == self.can_preview_spec(x, y),
    {
        match &self.state {
            DrawingState::Drawing { tool: Tool::Rect, start_x, start_y, points: _ } => {
                fits_span(*start_x, x) && fits_span(*start_y, y)
            },
            _ => true,
        }
    }

    /// The preview of the gesture in flight with the pointer at `(x, y)`.
    ///
    /// Pen and marker give the gathered points, the pen with one rainbow
    /// colour for each point while rainbow mode is on; line and arrow run
    /// from the start to the pointer; the rectangle is spanned by the two, whichever
    /// way the pointer was dragged; the ellipse is inscribed in that box.
    /// Eraser, highlight and select have no shape, nor has a state without a
    /// gesture.
    pub open spec fn provisional_shape_spec(self, x: i32, y: i32) -> Option<ShapeView> {
        match self.state {
            DrawingState::Drawing { tool, start_x, start_y, points } => match tool {
                Tool::Pen => Some(
                    ShapeView::Freehand {
                        points: points@,
                        color: self.current_color,
                        thick: self.current_thickness,
                        per_point_colors: self.pen_colors_spec(points@),
                    },
                ),
                Tool::Line => {
                    let anchors = self.anchor_colors_spec(
                        segment_length_spec((start_x, start_y), (x, y)),
                    );
                    Some(
                        ShapeView::Line {
                            x1: start_x,
                            y1: start_y,
                            x2: x,
                            y2: y,
                            color: self.current_color,
                            thick: self.current_thickness,
                            start_color: anchors.0,
                            end_color: anchors.1,
                        },
                    )
                },
                Tool::Rect => {
                    let w = span_extent(start_x as int, x as int);
                    let h = span_extent(start_y as int, y as int);
                    let anchors = self.anchor_colors_spec(diagonal_spec(w, h));
                    Some(
                        ShapeView::Rect {
                            x: span_origin(start_x as int, x as int) as i32,
                            y: span_origin(start_y as int, y as int) as i32,
                            w: w as i32,
                            h: h as i32,
                            fill: self.fill_enabled,
                            color: self.current_color,
                            thick: self.current_thickness,
                            start_color: anchors.0,
                            end_color: anchors.1,
                        },
                    )
                },
                Tool::Ellipse => {
                    let bounds = ellipse_bounds_spec(
                        start_x as int,
                        start_y as int,
                        x as int,
                        y as int,
                    );
                    let anchors = self.anchor_colors_spec((bounds.2 * 2 * 1000) as nat);
                    Some(
                        ShapeView::Ellipse {
                            cx: bounds.0 as i32,
                            cy: bounds.1 as i32,
                            rx: bounds.2 as i32,
                            ry: bounds.3 as i32,
                            fill: self.fill_enabled,
                            color: self.current_color,
                            thick: self.current_thickness,
                            start_color: anchors.0,
                            end_color: anchors.1,
                        },
                    )
                },
                Tool::Arrow => {
                    let anchors = self.anchor_colors_spec(
                        segment_length_spec((start_x, start_y), (x, y)),
                    );
                    Some(
                        ShapeView::Arrow {
                            x1: start_x,
                            y1: start_y,
                            x2: x,
                            y2: y,
                            color: self.current_color,
                            thick: self.current_thickness,
                            arrow_length: self.arrow_length,
                            arrow_angle: self.arrow_angle,
                            start_color: anchors.0,
                            end_color: anchors.1,
                        },
                    )
                },
                Tool::Marker => Some(
                    ShapeView::MarkerStroke {
                        points: points@,
                        color: self.marker_color_spec(),
                        thick: self.current_thickness,
                        per_point_colors: None,
                    },
                ),
                Tool::Eraser => None,
                Tool::Highlight => None,
                Tool::Select => None,
            },
            _ => None,
        }
    }

    /// Builds the preview of the gesture in flight with the pointer at
    /// `(current_x, current_y)`, or `None` where there is none. The gathered
    /// points of a pen or marker stroke are copied.
    pub fn get_provisional_shape(&self, current_x: i32, current_y: i32) -> (shape: Option<Shape>)
        requires
            self.can_preview_spec(current_x, current_y),
        ensures
            shape_option_view(shape) == self.provisional_shape_spec(current_x, current_y),
    {
        match &self.state {
            DrawingState::Drawing { tool, start_x, start_y, points } => match tool {
                Tool::Pen => {
                    let colors: Option<Vec<Color>> = if self.rainbow_mode_enabled {
                        Some(self.generate_rainbow_colors_for_points(points.as_slice()))
                    } else {
                        None
                    };
                    Some(
                        Shape::Freehand {
                            points: copy_points(points),
                            color: self.current_color,
                            thick: self.current_thickness,
                            per_point_colors: colors,
                        },
                    )
                },
                Tool::Line => {
                    let distance: u64 = segment_length((*start_x, *start_y), (current_x, current_y));
                    let anchors = self.anchor_colors(distance);
                    Some(
                        Shape::Line {
                            x1: *start_x,
                            y1: *start_y,
                            x2: current_x,
                            y2: current_y,
                            color: self.current_color,
                            thick: self.current_thickness,
                            start_color: anchors.0,
                            end_color: anchors.1,
                        },
                    )
                },
                Tool::Rect => {
                    let horizontal = normalize_span(*start_x, current_x);
                    let vertical = normalize_span(*start_y, current_y);
                    let anchors = self.anchor_colors(diagonal(horizontal.1, vertical.1));
                    Some(
                        Shape::Rect {
                            x: horizontal.0,
                            y: vertical.0,
                            w: horizontal.1,
                            h: vertical.1,
                            fill: self.fill_enabled,
                            color: self.current_color,
                            thick: self.current_thickness,
                            start_color: anchors.0,
                            end_color: anchors.1,
                        },
                    )
                },
                Tool::Ellipse => {
                    let bounds = ellipse_bounds(*start_x, *start_y, current_x, current_y);
                    let diameter: u64 = bounds.2 as u64 * 2 * 1000;
                    let anchors = self.anchor_colors(diameter);
                    Some(
                        Shape::Ellipse {
                            cx: bounds.0,
                            cy: bounds.1,
                            rx: bounds.2,
                            ry: bounds.3,
                            fill: self.fill_enabled,
                            color: self.current_color,
                            thick: self.current_thickness,
                            start_color: anchors.0,
                            end_color: anchors.1,
                        },
                    )
                },
                Tool::Arrow => {
                    let distance: u64 = segment_length((*start_x, *start_y), (current_x, current_y));
                    let anchors = self.anchor_colors(distance);
                    Some(
                        Shape::Arrow {
                            x1: *start_x,
                            y1: *start_y,
                            x2: current_x,
                            y2: current_y,
                            color: self.current_color,
                            thick: self.current_thickness,
                            arrow_length: self.arrow_length,
                            arrow_angle: self.arrow_angle,
                            start_color: anchors.0,
                            end_color: anchors.1,
                        },
                    )
                },
                Tool::Marker => Some(
                    Shape::MarkerStroke {
                        points: copy_points(points),
                        color: self.marker_color(),
                        thick: self.current_thickness,
                        per_point_colors: None,
                    },
                ),
                Tool::Eraser => None,
                Tool::Highlight => None,
                Tool::Select => None,
            },
            _ => None,
        }
    }

    /// Per-point colours of a pen stroke through `points`: rainbow colours
    /// while rainbow mode is on, none otherwise.
    pub open spec fn pen_colors_spec(self, points: Seq<(i32, i32)>) -> Option<Seq<Color>> {
        if self.rainbow_mode_enabled {
            Some(self.point_colors_spec(points))
        } else {
            None
        }
    }

    /// Per-point colours of a marker stroke through `points`: rainbow
    /// colours under the marker opacity while rainbow mode is on, none
    /// otherwise.
    pub open spec fn marker_colors_spec(self, points: Seq<(i32, i32)>) -> Option<Seq<Color>> {
        if self.rainbow_mode_enabled {
            Some(
                self.point_colors_spec(points).map_values(
                    |color: Color| color.with_alpha_spec(self.marker_opacity as u32),
                ),
            )
        } else {
            None
        }
    }

    /// How the gesture in flight is to be painted with the pointer at
    /// `(x, y)`.
    ///
    /// Pen and marker strokes are painted from the gathered points
    /// themselves. The eraser shows a translucent stroke of the eraser's
    /// size and erases nothing. Highlight paints nothing. Every other tool
    /// paints its provisional shape, if it has one.
    pub open spec fn provisional_render_spec(self, x: i32, y: i32) -> ProvisionalRenderView {
        match self.state {
            DrawingState::Drawing { tool, start_x, start_y, points } => match tool {
                Tool::Pen => ProvisionalRenderView::Freehand {
                    points: points@,
                    color: self.current_color,
                    thick: self.current_thickness,
                    per_point_colors: self.pen_colors_spec(points@),
                },
                Tool::Highlight => ProvisionalRenderView::Nothing,
                Tool::Marker => ProvisionalRenderView::MarkerStroke {
                    points: points@,
                    color: self.marker_color_spec(),
                    thick: self.current_thickness,
                    per_point_colors: self.marker_colors_spec(points@),
                },
                Tool::Eraser => ProvisionalRenderView::Freehand {
                    points: points@,
                    color: eraser_preview_color_spec(),
                    thick: self.eraser_size,
                    per_point_colors: None,
                },
                _ => match self.provisional_shape_spec(x, y) {
                    Some(shape) => ProvisionalRenderView::Owned { shape },
                    None => ProvisionalRenderView::Nothing,
                },
            },
            _ => ProvisionalRenderView::Nothing,
        }
    }

    /// Decides how the gesture in flight is to be painted with the pointer
    /// at `(current_x, current_y)`. The gathered points of a pen, marker or
    /// eraser stroke are lent out, not copied.
    pub fn render_provisional_shape(&self, current_x: i32, current_y: i32) -> (plan:
        ProvisionalRender<'_>)
        requires
            self.wf(),
            self.can_preview_spec(current_x, current_y),
        ensures
            plan@ == self.provisional_render_spec(current_x, current_y),
    {
        match &self.state {
            DrawingState::Drawing { tool, start_x: _, start_y: _, points } => match tool {
                Tool::Pen => {
                    let colors: Option<Vec<Color>> = if self.rainbow_mode_enabled {
                        Some(self.generate_rainbow_colors_for_points(points.as_slice()))
                    } else {
                        None
                    };
                    ProvisionalRender::Freehand {
                        points,
                        color: self.current_color,
                        thick: self.current_thickness,
                        per_point_colors: colors,
                    }
                },
                Tool::Highlight => ProvisionalRender::Nothing,
                Tool::Marker => {
                    let colors: Option<Vec<Color>> = if self.rainbow_mode_enabled {
                        proof {
                            reveal(InputState::wf);
                        }
                        Some(
                            with_alpha_all(
                                self.generate_rainbow_colors_for_points(points.as_slice()),
                                self.marker_opacity as u32,
                            ),
                        )
                    } else {
                        None
                    };
                    ProvisionalRender::MarkerStroke {
                        points,
                        color: self.marker_color(),
                        thick: self.current_thickness,
                        per_point_colors: colors,
                    }
                },
                Tool::Eraser => ProvisionalRender::Freehand {
                    points,
                    color: eraser_preview_color(),
                    thick: self.eraser_size,
                    per_point_colors: None,
                },
                _ => match self.get_provisional_shape(current_x, current_y) {
                    Some(shape) => ProvisionalRender::Owned { shape },
                    None => ProvisionalRender::Nothing,
                },
            },
            _ => ProvisionalRender::Nothing,
        }
    }
}

} // verus!
