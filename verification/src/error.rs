//! Why a view operation was refused.

use vstd::prelude::*;

verus! {

/// Why a view operation was refused.
#[derive(Clone, Copy, PartialEq, Eq, Debug, Structural)]
pub enum TransformError {
    /// The document bounds have a zero or negative extent on some axis, so
    /// there is no scale to map with.
    InvalidBounds,
    /// The screen rectangle has a zero extent on some axis, so no screen
    /// position can be mapped back to the document.
    DegenerateFrame,
    /// The exact result lies outside the range of a coordinate.
    OutOfRange,
}

} // verus!
