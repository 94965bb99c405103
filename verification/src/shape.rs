//! Geometry handed to the renderer.

use vstd::prelude::*;
use crate::color::Color;

verus! {

/// A shape as the renderer paints it. Thicknesses and arrow-head measures are
/// in thousandths of a pixel or of a degree.
#[derive(Clone, Debug, PartialEq, Eq)]
pub enum Shape {
    /// A freehand polyline through `points`.
    Freehand {
        points: Vec<(i32, i32)>,
        color: Color,
        thick: i64,
        per_point_colors: Option<Vec<Color>>,
    },
    /// A straight line from `(x1, y1)` to `(x2, y2)`.
    Line {
        x1: i32,
        y1: i32,
        x2: i32,
        y2: i32,
        color: Color,
        thick: i64,
        start_color: Option<Color>,
        end_color: Option<Color>,
    },
    /// A rectangle with top-left corner `(x, y)`, width `w` and height `h`.
    Rect {
        x: i32,
        y: i32,
        w: i32,
        h: i32,
        fill: bool,
        color: Color,
        thick: i64,
        start_color: Option<Color>,
        end_color: Option<Color>,
    },
    /// An ellipse with centre `(cx, cy)` and radii `rx` and `ry`.
    Ellipse {
        cx: i32,
        cy: i32,
        rx: i32,
        ry: i32,
        fill: bool,
        color: Color,
        thick: i64,
        start_color: Option<Color>,
        end_color: Option<Color>,
    },
    /// An arrow from `(x1, y1)` to `(x2, y2)`.
    Arrow {
        x1: i32,
        y1: i32,
        x2: i32,
        y2: i32,
        color: Color,
        thick: i64,
        arrow_length: i64,
        arrow_angle: i64,
        start_color: Option<Color>,
        end_color: Option<Color>,
    },
    /// A translucent marker stroke through `points`.
    MarkerStroke {
        points: Vec<(i32, i32)>,
        color: Color,
        thick: i64,
        per_point_colors: Option<Vec<Color>>,
    },
}

/// The mathematical content of a [`Shape`].
pub ghost enum ShapeView {
    Freehand {
        points: Seq<(i32, i32)>,
        color: Color,
        thick: i64,
        per_point_colors: Option<Seq<Color>>,
    },
    Line {
        x1: i32,
        y1: i32,
        x2: i32,
        y2: i32,
        color: Color,
        thick: i64,
        start_color: Option<Color>,
        end_color: Option<Color>,
    },
    Rect {
        x: i32,
        y: i32,
        w: i32,
        h: i32,
        fill: bool,
        color: Color,
        thick: i64,
        start_color: Option<Color>,
        end_color: Option<Color>,
    },
    Ellipse {
        cx: i32,
        cy: i32,
        rx: i32,
        ry: i32,
        fill: bool,
        color: Color,
        thick: i64,
        start_color: Option<Color>,
        end_color: Option<Color>,
    },
    Arrow {
        x1: i32,
        y1: i32,
        x2: i32,
        y2: i32,
        color: Color,
        thick: i64,
        arrow_length: i64,
        arrow_angle: i64,
        start_color: Option<Color>,
        end_color: Option<Color>,
    },
    MarkerStroke {
        points: Seq<(i32, i32)>,
        color: Color,
        thick: i64,
        per_point_colors: Option<Seq<Color>>,
    },
}

/// The contents of an optional list of colours.
pub open spec fn colors_view(colors: Option<Vec<Color>>) -> Option<Seq<Color>> {
    match colors {
        Some(list) => Some(list@),
        None => None,
    }
}

impl View for Shape {
    type V = ShapeView;

    open spec fn view(&self) -> ShapeView {
        match *self {
            Shape::Freehand { points, color, thick, per_point_colors } => ShapeView::Freehand {
                points: points@,
                color,
                thick,
                per_point_colors: colors_view(per_point_colors),
            },
            Shape::Line { x1, y1, x2, y2, color, thick, start_color, end_color } => ShapeView::Line {
                x1,
                y1,
                x2,
                y2,
                color,
                thick,
                start_color,
                end_color,
            },
            Shape::Rect { x, y, w, h, fill, color, thick, start_color, end_color } => ShapeView::Rect {
                x,
                y,
                w,
                h,
                fill,
                color,
                thick,
                start_color,
                end_color,
            },
            Shape::Ellipse {
                cx,
                cy,
                rx,
                ry,
                fill,
                color,
                thick,
                start_color,
                end_color,
            } => ShapeView::Ellipse { cx, cy, rx, ry, fill, color, thick, start_color, end_color },
            Shape::Arrow {
                x1,
                y1,
                x2,
                y2,
                color,
                thick,
                arrow_length,
                arrow_angle,
                start_color,
                end_color,
            } => ShapeView::Arrow {
                x1,
                y1,
                x2,
                y2,
                color,
                thick,
                arrow_length,
                arrow_angle,
                start_color,
                end_color,
            },
            Shape::MarkerStroke { points, color, thick, per_point_colors } => ShapeView::MarkerStroke {
                points: points@,
                color,
                thick,
                per_point_colors: colors_view(per_point_colors),
            },
        }
    }
}

} // verus!
