//! The drawing tools and the actions the toolbar can ask for.

use vstd::prelude::*;

verus! {

/// The closed set of drawing tools.
#[derive(Clone, Copy, Debug, PartialEq, Eq, Hash, Structural)]
pub enum Tool {
    Pen,
    Line,
    Rect,
    Ellipse,
    Arrow,
    Marker,
    Highlight,
    Eraser,
    Select,
}

/// What the toolbar asks the host's action handler to do.
#[derive(Clone, Copy, Debug, PartialEq, Eq, Hash, Structural)]
pub enum Action {
    Undo,
    Redo,
    ClearCanvas,
    EnterTextMode,
}

} // verus!
