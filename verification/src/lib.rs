//! Fixed-point view transform for a schematic viewer.
//!
//! A [`DocBounds`] is the window of document space that is on screen. A
//! [`ScreenTransform`] pairs it with the screen rectangle it is drawn into
//! and maps points both ways, with the document's Y axis pointing up and the
//! screen's pointing down.
//!
//! Coordinates are `i32` in whatever unit the caller picks (a fraction of a
//! pixel, a thousandth of an inch). Every quotient is rounded down, scale
//! factors are kept as exact [`Ratio`]s, and an operation whose exact result
//! does not fit a coordinate is refused instead of wrapped.

pub mod arith;
pub mod bounds;
pub mod error;
pub mod geom;
pub mod laws;
pub mod ratio;
pub mod transform;

pub use crate::arith::remap;
pub use crate::bounds::DocBounds;
pub use crate::error::TransformError;
pub use crate::geom::pos2;
pub use crate::geom::Pos2;
pub use crate::geom::Rect;
pub use crate::geom::Vec2;
pub use crate::ratio::Ratio;
pub use crate::transform::ScreenTransform;
