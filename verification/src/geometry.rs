//! Geometry error kinds. The floating-point geometry itself lives outside the
//! verified core; its checks report through these values.

use vstd::prelude::*;
use vstd::string::*;

verus! {

/// Why a rectangle was refused.
#[derive(Debug, Clone, Copy, PartialEq, Eq, Structural)]
pub enum GeometryError {
    NonFinite,
    NonPositiveSize,
    OutsideNormalizedBounds,
}

/// The text that describes each geometry error.
pub open spec fn geometry_error_text(e: GeometryError) -> Seq<char> {
    match e {
        GeometryError::NonFinite => "geometry contains a non-finite value"@,
        GeometryError::NonPositiveSize => "width and height must be greater than zero"@,
        GeometryError::OutsideNormalizedBounds => "normalized coordinates must stay inside 0.0..=1.0"@,
    }
}

impl GeometryError {
    /// The human-readable description of the error.
    pub fn message(&self) -> (r: String)
        ensures
            r@ == geometry_error_text(*self),
    {
        match self {
            GeometryError::NonFinite => String::from_str("geometry contains a non-finite value"),
            GeometryError::NonPositiveSize => String::from_str(
                "width and height must be greater than zero",
            ),
            GeometryError::OutsideNormalizedBounds => String::from_str(
                "normalized coordinates must stay inside 0.0..=1.0",
            ),
        }
    }
}

} // verus!
