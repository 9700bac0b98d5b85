//! The four accepted shapes of a coordinate, and their conversions to and
//! from the canonical `LngLat` and the host's values.

use vstd::prelude::*;

use crate::error::Error;
use crate::host::{entries_view, find_number, items_view, number_field, HostValue, HostView, Primitive, PrimitiveView};
use crate::lng_lat::LngLat;

verus! {

/// A coordinate in any of the shapes that the map engine accepts.
#[derive(Debug, Clone, Copy, PartialEq)]
pub enum LngLatLike {
    /// An actual `LngLat`
    LngLat(LngLat),
    /// An object `{ lng, lat }`
    LngLatObject {
        /// The longitude
        lng: i64,
        /// The latitude
        lat: i64,
    },
    /// An object `{ lon, lat }`
    LonLatObject {
        /// The longitude
        lon: i64,
        /// The latitude
        lat: i64,
    },
    /// The array `[longitude, latitude]`
    Array([i64; 2]),
}

/// The shape that a host value takes as a coordinate, tried in this order:
/// an object with numbers under `lng` and `lat`, an object with numbers
/// under `lon` and `lat`, an array of exactly two numbers. Anything else is
/// no coordinate.
pub open spec fn shape_of(v: HostView) -> Option<LngLatLike> {
    match v {
        HostView::Object(entries) => {
            let lng = number_field(entries, "lng"@);
            let lon = number_field(entries, "lon"@);
            let lat = number_field(entries, "lat"@);
            if lng is Some && lat is Some {
                Some(LngLatLike::LngLatObject { lng: lng->0, lat: lat->0 })
            } else if lon is Some && lat is Some {
                Some(LngLatLike::LonLatObject { lon: lon->0, lat: lat->0 })
            } else {
                None
            }
        },
        HostView::Array(items) => {
            if items.len() == 2 && items[0] is Number && items[1] is Number {
                Some(LngLatLike::Array([items[0]->Number_0, items[1]->Number_0]))
            } else {
                None
            }
        },
        _ => None,
    }
}

/// The host value that a coordinate is sent as: `{ lng, lat }` for a
/// `LngLat` and for the object of the same keys, `{ lon, lat }`, or
/// `[lng, lat]`.
pub open spec fn host_view_of(c: LngLatLike) -> HostView {
    match c {
        LngLatLike::LngLat(l) => HostView::Object(
            seq![("lng"@, PrimitiveView::Number(l.lng)), ("lat"@, PrimitiveView::Number(l.lat))],
        ),
        LngLatLike::LngLatObject { lng, lat } => HostView::Object(
            seq![("lng"@, PrimitiveView::Number(lng)), ("lat"@, PrimitiveView::Number(lat))],
        ),
        LngLatLike::LonLatObject { lon, lat } => HostView::Object(
            seq![("lon"@, PrimitiveView::Number(lon)), ("lat"@, PrimitiveView::Number(lat))],
        ),
        LngLatLike::Array(a) => HostView::Array(
            seq![PrimitiveView::Number(a[0]), PrimitiveView::Number(a[1])],
        ),
    }
}

impl LngLatLike {
    /// The longitude, whatever the shape.
    pub open spec fn lng_spec(self) -> i64 {
        match self {
            LngLatLike::LngLat(l) => l.lng,
            LngLatLike::LngLatObject { lng, .. } => lng,
            LngLatLike::LonLatObject { lon, .. } => lon,
            LngLatLike::Array(a) => a[0],
        }
    }

    /// The latitude, whatever the shape.
    pub open spec fn lat_spec(self) -> i64 {
        match self {
            LngLatLike::LngLat(l) => l.lat,
            LngLatLike::LngLatObject { lat, .. } => lat,
            LngLatLike::LonLatObject { lat, .. } => lat,
            LngLatLike::Array(a) => a[1],
        }
    }

    /// The same shape with the longitude replaced.
    pub open spec fn with_lng_spec(self, value: i64) -> LngLatLike {
        match self {
            LngLatLike::LngLat(l) => LngLatLike::LngLat(LngLat { lng: value, lat: l.lat }),
            LngLatLike::LngLatObject { lat, .. } => LngLatLike::LngLatObject { lng: value, lat },
            LngLatLike::LonLatObject { lat, .. } => LngLatLike::LonLatObject { lon: value, lat },
            LngLatLike::Array(a) => LngLatLike::Array([value, a[1]]),
        }
    }

    /// The same shape with the latitude replaced.
    pub open spec fn with_lat_spec(self, value: i64) -> LngLatLike {
        match self {
            LngLatLike::LngLat(l) => LngLatLike::LngLat(LngLat { lng: l.lng, lat: value }),
            LngLatLike::LngLatObject { lng, .. } => LngLatLike::LngLatObject { lng, lat: value },
            LngLatLike::LonLatObject { lon, .. } => LngLatLike::LonLatObject { lon, lat: value },
            LngLatLike::Array(a) => LngLatLike::Array([a[0], value]),
        }
    }

    /// The canonical coordinate of this shape.
    pub open spec fn normalized(self) -> LngLat {
        LngLat { lng: self.lng_spec(), lat: self.lat_spec() }
    }

    /// Get the longitude of the active variant.
    pub fn lng(&self) -> (r: i64)
        ensures
            r == self.lng_spec(),
    {
        match self {
            LngLatLike::LngLat(l) => l.lng(),
            LngLatLike::LngLatObject { lng, .. } => *lng,
            LngLatLike::LonLatObject { lon, .. } => *lon,
            LngLatLike::Array(a) => a[0],
        }
    }

    /// Set the longitude of the active variant; the shape and the latitude
    /// are kept.
    pub fn set_lng(&mut self, value: i64)
        ensures
            *final(self) == old(self).with_lng_spec(value),
            final(self).lng_spec() == value,
            final(self).lat_spec() == old(self).lat_spec(),
    {
        match self {
            LngLatLike::LngLat(l) => l.set_lng(value),
            LngLatLike::LngLatObject { lng, .. } => *lng = value,
            LngLatLike::LonLatObject { lon, .. } => *lon = value,
            LngLatLike::Array(a) => {
                let lat = a[1];
                *a = [value, lat];
            },
        }
    }

    /// Get the latitude of the active variant.
    pub fn lat(&self) -> (r: i64)
        ensures
            r == self.lat_spec(),
    {
        match self {
            LngLatLike::LngLat(l) => l.lat(),
            LngLatLike::LngLatObject { lat, .. } => *lat,
            LngLatLike::LonLatObject { lat, .. } => *lat,
            LngLatLike::Array(a) => a[1],
        }
    }

    /// Set the latitude of the active variant; the shape and the longitude
    /// are kept.
    pub fn set_lat(&mut self, value: i64)
        ensures
            *final(self) == old(self).with_lat_spec(value),
            final(self).lat_spec() == value,
            final(self).lng_spec() == old(self).lng_spec(),
    {
        match self {
            LngLatLike::LngLat(l) => l.set_lat(value),
            LngLatLike::LngLatObject { lat, .. } => *lat = value,
            LngLatLike::LonLatObject { lat, .. } => *lat = value,
            LngLatLike::Array(a) => {
                let lng = a[0];
                *a = [lng, value];
            },
        }
    }

    /// The canonical `LngLat` with the same longitude and latitude.
    pub fn to_lng_lat(&self) -> (r: LngLat)
        ensures
            r == self.normalized(),
            *self matches LngLatLike::LngLat(l) ==> r == l,
    {
        match self {
            LngLatLike::LngLat(l) => *l,
            _ => LngLat::new(self.lng(), self.lat()),
        }
    }

    /// The host value that this coordinate is sent as.
    pub fn as_js_value(&self) -> (r: HostValue)
        ensures
            r@ == host_view_of(*self),
    {
        let (first, lng, lat) = match self {
            LngLatLike::LonLatObject { lon, lat } => ("lon", *lon, *lat),
            LngLatLike::Array(a) => {
                let items = vec![Primitive::Number(a[0]), Primitive::Number(a[1])];
                assert(items_view(items@) =~= seq![PrimitiveView::Number(a[0]), PrimitiveView::Number(a[1])]);
                return HostValue::Array(items);
            },
            _ => ("lng", self.lng(), self.lat()),
        };
        let entries = vec![
            (first.to_owned(), Primitive::Number(lng)),
            ("lat".to_owned(), Primitive::Number(lat)),
        ];
        assert(entries_view(entries@) =~= match host_view_of(*self) {
            HostView::Object(e) => e,
            _ => Seq::empty(),
        });
        HostValue::Object(entries)
    }

    /// Read a coordinate from a host value, by the order of `shape_of`.
    ///
    /// # Errors
    ///
    /// `Error::ShapeMismatch` when the value has none of the four shapes.
    pub fn from_host(v: &HostValue) -> (r: Result<LngLatLike, Error>)
        ensures
            match shape_of(v@) {
                Some(c) => r == Ok::<LngLatLike, Error>(c),
                None => r == Err::<LngLatLike, Error>(Error::ShapeMismatch),
            },
    {
        match v {
            HostValue::Object(entries) => {
                let lng = find_number(entries, &"lng".to_owned());
                let lon = find_number(entries, &"lon".to_owned());
                let lat = find_number(entries, &"lat".to_owned());
                match (lng, lon, lat) {
                    (Some(lng), _, Some(lat)) => Ok(LngLatLike::LngLatObject { lng, lat }),
                    (None, Some(lon), Some(lat)) => Ok(LngLatLike::LonLatObject { lon, lat }),
                    _ => Err(Error::ShapeMismatch),
                }
            },
            HostValue::Array(items) => {
                if items.len() == 2 {
                    match (&items[0], &items[1]) {
                        (Primitive::Number(lng), Primitive::Number(lat)) => Ok(LngLatLike::Array([*lng, *lat])),
                        _ => Err(Error::ShapeMismatch),
                    }
                } else {
                    Err(Error::ShapeMismatch)
                }
            },
            _ => Err(Error::ShapeMismatch),
        }
    }
}

/// Normalize any host value to the canonical coordinate.
///
/// # Errors
///
/// `Error::ShapeMismatch` when the value is no coordinate (see `shape_of`);
/// no partial result is produced.
pub fn normalize(v: &HostValue) -> (r: Result<LngLat, Error>)
    ensures
        match shape_of(v@) {
            Some(c) => r == Ok::<LngLat, Error>(c.normalized()),
            None => r == Err::<LngLat, Error>(Error::ShapeMismatch),
        },
{
    match LngLatLike::from_host(v) {
        Ok(c) => Ok(c.to_lng_lat()),
        Err(e) => Err(e),
    }
}

/// The four shapes that carry the same longitude and latitude all normalize
/// to the same coordinate.
pub proof fn lemma_shapes_normalize_alike(lng: i64, lat: i64)
    ensures
        (LngLatLike::LngLat(LngLat { lng, lat })).normalized() == (LngLatLike::LngLatObject { lng, lat }).normalized(),
        (LngLatLike::LngLatObject { lng, lat }).normalized() == (LngLatLike::LonLatObject { lon: lng, lat }).normalized(),
        (LngLatLike::LonLatObject { lon: lng, lat }).normalized() == (LngLatLike::Array([lng, lat])).normalized(),
        (LngLatLike::Array([lng, lat])).normalized() == (LngLat { lng, lat }),
{
}

/// Normalizing a coordinate that is already a `LngLat` gives it back unchanged.
pub proof fn lemma_normalize_identity(c: LngLat)
    ensures
        LngLatLike::LngLat(c).normalized() == c,
{
}

/// An object with a number under neither `lng` nor `lon` is no coordinate,
/// whatever else it holds: reading it fails with `ShapeMismatch`.
pub proof fn lemma_unrecognized_object_rejected(entries: Seq<(Seq<char>, PrimitiveView)>)
    requires
        (number_field(entries, "lng"@) is None),
        (number_field(entries, "lon"@) is None),
    ensures
        (shape_of(HostView::Object(entries)) is None),
{
}

/// A coordinate sent to the host and read back is the same coordinate; a
/// `LngLat` comes back as the object of the same keys, which normalizes alike.
pub proof fn lemma_host_round_trip(c: LngLatLike)
    ensures
        (shape_of(host_view_of(c)) is Some),
        shape_of(host_view_of(c))->0.normalized() == c.normalized(),
        !(c is LngLat) ==> shape_of(host_view_of(c)) == Some(c),
        (c matches LngLatLike::LngLat(l) ==> shape_of(host_view_of(c))
            == Some(LngLatLike::LngLatObject { lng: l.lng, lat: l.lat })),
{
    reveal_strlit("lng");
    reveal_strlit("lon");
    reveal_strlit("lat");
    reveal_with_fuel(crate::host::lookup, 3);
    assert("lng"@[1] != "lat"@[1]);
    assert("lon"@[1] != "lat"@[1]);
    assert("lng"@[2] != "lon"@[2]);
    match c {
        LngLatLike::Array(a) => {
            assert([a[0], a[1]] =~= a);
        },
        _ => {},
    }
}

impl From<LngLat> for LngLatLike {
    fn from(value: LngLat) -> Self {
        LngLatLike::LngLat(value)
    }
}

impl vstd::std_specs::convert::FromSpecImpl<LngLat> for LngLatLike {
    open spec fn obeys_from_spec() -> bool {
        true
    }

    open spec fn from_spec(value: LngLat) -> LngLatLike {
        LngLatLike::LngLat(value)
    }
}

impl From<[i64; 2]> for LngLatLike {
    fn from(value: [i64; 2]) -> Self {
        LngLatLike::Array(value)
    }
}

impl vstd::std_specs::convert::FromSpecImpl<[i64; 2]> for LngLatLike {
    open spec fn obeys_from_spec() -> bool {
        true
    }

    open spec fn from_spec(value: [i64; 2]) -> LngLatLike {
        LngLatLike::Array(value)
    }
}

impl From<(i64, i64)> for LngLatLike {
    fn from(value: (i64, i64)) -> Self {
        LngLatLike::Array([value.0, value.1])
    }
}

impl vstd::std_specs::convert::FromSpecImpl<(i64, i64)> for LngLatLike {
    open spec fn obeys_from_spec() -> bool {
        true
    }

    open spec fn from_spec(value: (i64, i64)) -> LngLatLike {
        LngLatLike::Array([value.0, value.1])
    }
}

} // verus!
