//! The canonical coordinate: a longitude and a latitude in the WGS84
//! (EPSG:4326) reference, in ten-millionths of a degree.

use vstd::prelude::*;

use vstd::string::StringExecFns;

use crate::decimal::{decimal_text, push_decimal};
use crate::host::{entries_view, HostValue, HostView, Primitive, PrimitiveView};

verus! {

/// Fixed-point units in one degree (and in one zoom level).
pub const UNITS_PER_DEGREE: i64 = 10_000_000;

/// Half a turn, 180 degrees, in fixed-point units.
pub const HALF_TURN: i64 = 1_800_000_000;

/// A full turn, 360 degrees, in fixed-point units.
pub const FULL_TURN: i64 = 3_600_000_000;

/// The longitude in `(-180, 180]` degrees that names the same meridian as `lng`.
pub open spec fn wrapped_longitude(lng: int) -> int {
    let m = (lng + HALF_TURN) % (FULL_TURN as int);
    if m == 0 {
        HALF_TURN as int
    } else {
        m - HALF_TURN
    }
}

/// A longitude and a latitude, each in ten-millionths of a degree.
///
/// Any pair of values is a coordinate: ranges are the map engine's business.
#[derive(Debug, Clone, Copy, PartialEq, Eq, Structural)]
pub struct LngLat {
    /// Longitude
    pub lng: i64,
    /// Latitude
    pub lat: i64,
}

impl LngLat {
    /// Create a `LngLat` from a longitude and a latitude.
    pub fn new(lng: i64, lat: i64) -> (r: Self)
        ensures
            r.lng == lng,
            r.lat == lat,
    {
        LngLat { lng, lat }
    }

    /// The coordinate as the array `[longitude, latitude]`.
    pub fn to_array(&self) -> (r: [i64; 2])
        ensures
            r@ == seq![self.lng, self.lat],
    {
        [self.lng, self.lat]
    }

    /// A coordinate on the same meridian whose longitude lies in
    /// `(-180, 180]` degrees; the latitude is kept.
    pub fn wrap(&self) -> (r: Self)
        ensures
            r.lng == wrapped_longitude(self.lng as int),
            -HALF_TURN < r.lng <= HALF_TURN,
            (r.lng - self.lng) % (FULL_TURN as int) == 0,
            r.lat == self.lat,
    {
        let m0: i64 = match self.lng.checked_rem_euclid(FULL_TURN) {
            Some(m) => m,
            None => 0,
        };
        let sum: i64 = m0 + HALF_TURN;
        let m: i64 = if sum >= FULL_TURN { sum - FULL_TURN } else { sum };
        proof {
            let n = self.lng as int;
            let f = FULL_TURN as int;
            assert(m0 == n % f);
            assert(m == (m0 + HALF_TURN) % f) by {
                vstd::arithmetic::div_mod::lemma_mod_add_multiples_vanish(m as int, f);
                vstd::arithmetic::div_mod::lemma_small_mod(m as nat, f as nat);
            }
            assert((n % f + HALF_TURN) % f == (n + HALF_TURN) % f) by {
                vstd::arithmetic::div_mod::lemma_add_mod_noop_right(HALF_TURN as int, n, f);
            }
            let w = wrapped_longitude(n);
            assert((w - n) % f == 0) by {
                vstd::arithmetic::div_mod::lemma_fundamental_div_mod(n + HALF_TURN, f);
                vstd::arithmetic::div_mod::lemma_mod_multiples_basic(-((n + HALF_TURN) / f) + if m == 0 { 1int } else { 0int }, f);
            }
        }
        let lng: i64 = if m == 0 { HALF_TURN } else { m - HALF_TURN };
        LngLat { lng, lat: self.lat }
    }

    /// The longitude.
    pub fn lng(&self) -> (r: i64)
        ensures
            r == self.lng,
    {
        self.lng
    }

    /// Replace the longitude, keeping the latitude.
    pub fn set_lng(&mut self, lng: i64)
        ensures
            final(self).lng == lng,
            final(self).lat == old(self).lat,
    {
        self.lng = lng;
    }

    /// The latitude.
    pub fn lat(&self) -> (r: i64)
        ensures
            r == self.lat,
    {
        self.lat
    }

    /// Replace the latitude, keeping the longitude.
    pub fn set_lat(&mut self, lat: i64)
        ensures
            final(self).lat == lat,
            final(self).lng == old(self).lng,
    {
        self.lat = lat;
    }

    /// The host value that this coordinate is sent as: `{ lng, lat }`.
    pub fn as_js_value(&self) -> (r: HostValue)
        ensures
            r@ == HostView::Object(
                seq![("lng"@, PrimitiveView::Number(self.lng)), ("lat"@, PrimitiveView::Number(self.lat))],
            ),
    {
        let entries = vec![
            ("lng".to_owned(), Primitive::Number(self.lng)),
            ("lat".to_owned(), Primitive::Number(self.lat)),
        ];
        assert(entries_view(entries@) =~= seq![
            ("lng"@, PrimitiveView::Number(self.lng)),
            ("lat"@, PrimitiveView::Number(self.lat)),
        ]);
        HostValue::Object(entries)
    }

    /// The coordinate's text, as the map engine writes it:
    /// `LngLat(12.23, 14.42)`, in degrees.
    pub fn to_string(&self) -> (r: String)
        ensures
            r@ == "LngLat("@ + decimal_text(self.lng as int) + ", "@ + decimal_text(self.lat as int) + ")"@,
    {
        let mut r = "LngLat(".to_owned();
        push_decimal(&mut r, self.lng);
        r.append(", ");
        push_decimal(&mut r, self.lat);
        r.append(")");
        r
    }
}

impl From<[i64; 2]> for LngLat {
    fn from(value: [i64; 2]) -> Self {
        LngLat { lng: value[0], lat: value[1] }
    }
}

impl vstd::std_specs::convert::FromSpecImpl<[i64; 2]> for LngLat {
    open spec fn obeys_from_spec() -> bool {
        true
    }

    open spec fn from_spec(value: [i64; 2]) -> LngLat {
        LngLat { lng: value[0], lat: value[1] }
    }
}

impl From<(i64, i64)> for LngLat {
    fn from(value: (i64, i64)) -> Self {
        LngLat { lng: value.0, lat: value.1 }
    }
}

impl vstd::std_specs::convert::FromSpecImpl<(i64, i64)> for LngLat {
    open spec fn obeys_from_spec() -> bool {
        true
    }

    open spec fn from_spec(value: (i64, i64)) -> LngLat {
        LngLat { lng: value.0, lat: value.1 }
    }
}

} // verus!
