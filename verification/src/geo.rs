//! Places on the map, in fixed-point coordinates.

use vstd::prelude::*;

verus! {

/// A point on the map. Latitude and longitude are held in millionths of a
/// degree, so that two points can be compared exactly.
#[derive(Debug, Clone, PartialEq, Eq)]
pub struct GeoPoint {
    pub lat: i64,
    pub lng: i64,
    pub name: Option<String>,
}

/// The characters of an optional label, if there is one.
pub open spec fn label_text(name: Option<String>) -> Option<Seq<char>> {
    match name {
        Some(s) => Some(s@),
        None => None,
    }
}

/// Whether two optional labels read the same.
pub fn same_label(a: &Option<String>, b: &Option<String>) -> (same: bool)
    ensures
        same == (label_text(*a) == label_text(*b)),
{
    match a {
        Some(x) => match b {
            Some(y) => *x == *y,
            None => false,
        },
        None => b.is_none(),
    }
}

impl GeoPoint {
    /// Two points are the same place when coordinates and label agree.
    pub open spec fn same_place_spec(self, other: GeoPoint) -> bool {
        &&& self.lat == other.lat
        &&& self.lng == other.lng
        &&& label_text(self.name) == label_text(other.name)
    }

    /// A named point.
    pub fn new(lat: i64, lng: i64, name_gp: String) -> (p: Self)
        ensures
            p.lat == lat,
            p.lng == lng,
            p.name == Some(name_gp),
    {
        Self { lat, lng, name: Some(name_gp) }
    }

    /// Exact comparison of two points.
    pub fn same_place(&self, other: &GeoPoint) -> (same: bool)
        ensures
            same == self.same_place_spec(*other),
    {
        self.lat == other.lat && self.lng == other.lng && same_label(&self.name, &other.name)
    }

    /// A copy of this point.
    pub fn duplicate(&self) -> (p: Self)
        ensures
            p == *self,
    {
        Self { lat: self.lat, lng: self.lng, name: self.name.clone() }
    }
}

} // verus!
