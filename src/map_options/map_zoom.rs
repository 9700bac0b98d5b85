//! Zoom levels of `MapOptions`.

use vstd::prelude::*;

use crate::error::Error;
use crate::host::{HostValue, HostView, Primitive, PrimitiveView};

verus! {

/// A zoom level, in ten-millionths of a level.
#[derive(Debug, Clone, Copy, PartialEq, Eq, Structural)]
pub struct MapZoom(pub i64);

impl MapZoom {
    /// The host value that this zoom level is sent as: a number.
    pub fn as_js_value(self) -> (r: HostValue)
        ensures
            r@ == HostView::Primitive(PrimitiveView::Number(self.0)),
    {
        HostValue::Primitive(Primitive::Number(self.0))
    }

    /// Read a zoom level from a host value.
    ///
    /// # Errors
    ///
    /// `Error::ShapeMismatch` when the value is not a number.
    pub fn from_host(v: &HostValue) -> (r: Result<MapZoom, Error>)
        ensures
            match v@ {
                HostView::Primitive(PrimitiveView::Number(n)) => r == Ok::<MapZoom, Error>(MapZoom(n)),
                _ => r == Err::<MapZoom, Error>(Error::ShapeMismatch),
            },
    {
        match v {
            HostValue::Primitive(Primitive::Number(n)) => Ok(MapZoom(*n)),
            _ => Err(Error::ShapeMismatch),
        }
    }
}

impl From<i64> for MapZoom {
    fn from(value: i64) -> Self {
        MapZoom(value)
    }
}

impl vstd::std_specs::convert::FromSpecImpl<i64> for MapZoom {
    open spec fn obeys_from_spec() -> bool {
        true
    }

    open spec fn from_spec(value: i64) -> MapZoom {
        MapZoom(value)
    }
}

} // verus!
