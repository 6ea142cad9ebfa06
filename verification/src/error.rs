use vstd::prelude::*;

verus! {

/// Why a widget could not be built. Rendering itself never fails.
#[derive(Clone, Copy, Debug, PartialEq, Eq, Structural)]
pub enum WidgetError {
    /// A size that cannot be drawn: a negative extent, or a bar too narrow
    /// for its two brackets.
    InvalidGeometry,
    /// A value range of length zero.
    InvalidRange,
}

} // verus!
