//! Modes and errors of interactive routing.
use vstd::prelude::*;

verus! {

/// Why a route could not be made.
#[derive(Debug)]
pub enum RoutingError {
    NoPath(String),
    DrcViolation(String),
    InvalidEndpoint(String),
    LayerNotFound(String),
    Cancelled,
}

/// Corner style of a route.
#[derive(Clone, Copy, Debug, PartialEq, Eq, Structural)]
pub enum CornerStyle {
    Sharp,
    Mitered45,
    Rounded,
}

/// Direction preference of a route.
#[derive(Clone, Copy, Debug, PartialEq, Eq, Structural)]
pub enum RoutingMode {
    HorizontalFirst,
    VerticalFirst,
    Diagonal,
    FreeAngle,
}

impl RoutingMode {
    /// Swaps horizontal-first and vertical-first; other modes stay.
    pub fn toggle(&self) -> (r: RoutingMode)
        ensures
            r == match *self {
                RoutingMode::HorizontalFirst => RoutingMode::VerticalFirst,
                RoutingMode::VerticalFirst => RoutingMode::HorizontalFirst,
                other => other,
            },
    {
        match self {
            RoutingMode::HorizontalFirst => RoutingMode::VerticalFirst,
            RoutingMode::VerticalFirst => RoutingMode::HorizontalFirst,
            other => *other,
        }
    }
}

} // verus!
