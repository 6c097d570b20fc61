//! Sizes and directions shared by the overlay geometry and the input router.

use vstd::prelude::*;

verus! {

/// The corner of the overlay that a resize gesture drags.
#[derive(Clone, Copy, Debug, PartialEq, Eq, Structural)]
pub enum ResizeDirection {
    TopLeft,
    TopRight,
    BottomLeft,
    BottomRight,
}

/// The direction of a scroll-wheel step.
#[derive(Clone, Copy, Debug, PartialEq, Eq, Structural)]
pub enum ScrollDirection {
    Up,
    Down,
}

/// The smallest width, in cells, that the overlay may have.
pub const MIN_WIDTH: u16 = 10;

/// The smallest height, in cells, that the overlay may have.
pub const MIN_HEIGHT: u16 = 10;

/// The width of a freshly created overlay.
pub const DEFAULT_WIDTH: u16 = 80;

/// The height of a freshly created overlay.
pub const DEFAULT_HEIGHT: u16 = 25;

/// The column of a freshly created overlay's left edge.
pub const DEFAULT_X: u16 = 10;

/// The row of a freshly created overlay's top edge.
pub const DEFAULT_Y: u16 = 5;

/// Rows and columns of the overlay that its border takes from the tenant's terminal.
pub const BORDER_MARGIN: u16 = 4;

} // verus!
