//! Input and style state of a screen-annotation overlay.
//!
//! The state tracks which drawing tool is active, the geometry of the gesture
//! in flight, the style of new strokes, which toolbars are shown, and a
//! rainbow mode that colours a stroke by the distance travelled along it.
//! From these it derives the live preview of the gesture in flight.
//!
//! Every quantity is an integer. Pointer positions are whole pixels; sizes,
//! opacities, colour channels and hues are whole numbers of thousandths (see
//! [`units`]). Every executable function carries a contract over spec
//! functions, and [`laws`] states what holds across calls.

pub mod color;
pub mod geometry;
pub mod laws;
pub mod rainbow;
pub mod render;
pub mod shape;
pub mod state;
pub mod tool;
pub mod tool_controls;
pub mod units;
