//! Layout vocabulary: zone identities, split axes and layout errors. Resolving a
//! layout into rectangles is floating-point work done by the caller.

use vstd::prelude::*;
use vstd::string::*;
use crate::geometry::{geometry_error_text, GeometryError};
use crate::text::{eq_ignore_ascii_case_text, text_eq, text_eq_ignore_ascii_case};

verus! {

/// The stable identity of a zone inside a layout.
#[derive(Debug)]
pub struct ZoneId(pub String);

impl Clone for ZoneId {
    fn clone(&self) -> (r: Self)
        ensures
            r == *self,
    {
        ZoneId(self.0.clone())
    }
}

impl View for ZoneId {
    type V = Seq<char>;

    open spec fn view(&self) -> Seq<char> {
        self.0@
    }
}

impl PartialEq for ZoneId {
    fn eq(&self, other: &Self) -> (r: bool) {
        self.0 == other.0
    }
}

impl Eq for ZoneId {}

impl vstd::std_specs::cmp::PartialEqSpecImpl for ZoneId {
    open spec fn obeys_eq_spec() -> bool {
        true
    }

    open spec fn eq_spec(&self, other: &ZoneId) -> bool {
        self@ == other@
    }
}

/// A zone id with the given text.
impl<'a> From<&'a str> for ZoneId {
    fn from(value: &'a str) -> (r: ZoneId)
        ensures
            r@ == value@,
    {
        ZoneId(String::from_str(value))
    }
}

impl<'a> vstd::std_specs::convert::FromSpecImpl<&'a str> for ZoneId {
    /// Two `String`s with the same text are not known to be the same value, so
    /// `from` promises the text (`r@ == value@`) rather than a whole value.
    open spec fn obeys_from_spec() -> bool {
        false
    }

    open spec fn from_spec(value: &'a str) -> ZoneId {
        choose|z: ZoneId| z@ == value@
    }
}

impl ZoneId {
    /// Whether two zone ids are the same text.
    pub fn same(&self, other: &ZoneId) -> (r: bool)
        ensures
            r == (self@ == other@),
    {
        self.0 == other.0
    }
}

/// The axis along which a split divides its area.
#[derive(Debug, Clone, Copy, PartialEq, Eq, Structural)]
pub enum Axis {
    Horizontal,
    Vertical,
}

/// Why a layout could not be resolved.
#[derive(Debug, Clone, Copy, PartialEq, Eq, Structural)]
pub enum LayoutError {
    Geometry(GeometryError),
    Empty,
    InvalidSplitRatio,
    NegativeGap,
}

/// The text that describes each layout error.
pub open spec fn layout_error_text(e: LayoutError) -> Seq<char> {
    match e {
        LayoutError::Geometry(g) => geometry_error_text(g),
        LayoutError::Empty => "layout must contain at least one zone"@,
        LayoutError::InvalidSplitRatio => "split ratio must be strictly between 0 and 1"@,
        LayoutError::NegativeGap => "gap cannot be negative"@,
    }
}

impl LayoutError {
    /// The human-readable description of the error.
    pub fn message(&self) -> (r: String)
        ensures
            r@ == layout_error_text(*self),
    {
        match self {
            LayoutError::Geometry(g) => g.message(),
            LayoutError::Empty => String::from_str("layout must contain at least one zone"),
            LayoutError::InvalidSplitRatio => String::from_str(
                "split ratio must be strictly between 0 and 1",
            ),
            LayoutError::NegativeGap => String::from_str("gap cannot be negative"),
        }
    }
}

impl From<GeometryError> for LayoutError {
    fn from(value: GeometryError) -> (r: LayoutError) {
        LayoutError::Geometry(value)
    }
}

impl vstd::std_specs::convert::FromSpecImpl<GeometryError> for LayoutError {
    open spec fn obeys_from_spec() -> bool {
        true
    }

    open spec fn from_spec(v: GeometryError) -> LayoutError {
        LayoutError::Geometry(v)
    }
}

/// A direction of keyboard navigation between zones.
#[derive(Debug, Clone, Copy, PartialEq, Eq, Structural)]
pub enum Direction {
    Left,
    Right,
    Up,
    Down,
}

/// A zone, given by its id and name, is the one asked for as `requested`: by its
/// exact id, or by its name ignoring ASCII case.
pub open spec fn zone_is_requested(zone: (ZoneId, String), requested: Seq<char>) -> bool {
    zone.0@ == requested || eq_ignore_ascii_case_text(zone.1@, requested)
}

/// The position of the first zone (id and name) that is the one asked for.
pub fn find_zone(zones: &[(ZoneId, String)], requested: &str) -> (r: Option<usize>)
    ensures
        r matches Some(k) ==> k < zones@.len() && zone_is_requested(zones@[k as int], requested@)
            && forall|j: int| 0 <= j < k ==> !zone_is_requested(#[trigger] zones@[j], requested@),
        r is None ==> forall|j: int| 0 <= j < zones@.len() ==> !zone_is_requested(#[trigger] zones@[j], requested@),
{
    let n = zones.len();
    let mut k: usize = 0;
    while k < n
        invariant
            n == zones@.len(),
            k <= n,
            forall|j: int| 0 <= j < k ==> !zone_is_requested(#[trigger] zones@[j], requested@),
        decreases n - k,
    {
        let zone = &zones[k];
        if text_eq(zone.0.0.as_str(), requested) || text_eq_ignore_ascii_case(zone.1.as_str(), requested) {
            return Some(k);
        }
        k = k + 1;
    }
    None
}

} // verus!
