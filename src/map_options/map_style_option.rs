//! The `style` field of `MapOptions`.

use vstd::prelude::*;

use crate::error::Error;
use crate::host::{HostValue, HostView, Primitive, PrimitiveView};

verus! {

/// The map's style.
#[derive(Debug, Clone, PartialEq, Eq)]
#[non_exhaustive]
pub enum MapStyleOption {
    /// URL of a JSON document following the MapLibre Style Specification
    URL(String),
    /// A style document, not validated
    JsonStyleSpecification(serde_json::Value),
}

impl MapStyleOption {
    /// The host value that this style is sent as: the URL as a string, or
    /// the document as it is.
    pub open spec fn host_view(&self) -> HostView {
        match self {
            MapStyleOption::URL(s) => HostView::Primitive(PrimitiveView::Text(s@)),
            MapStyleOption::JsonStyleSpecification(d) => HostView::Document(*d),
        }
    }

    /// The host value that this style is sent as.
    pub fn as_js_value(&self) -> (r: HostValue)
        ensures
            r@ == self.host_view(),
    {
        match self {
            MapStyleOption::URL(s) => HostValue::Primitive(Primitive::Text(s.clone())),
            MapStyleOption::JsonStyleSpecification(d) => HostValue::Document(d.clone()),
        }
    }

    /// Read a style from a host value: a string is a URL, a document is
    /// taken as it is.
    ///
    /// # Errors
    ///
    /// `Error::ShapeMismatch` for any other value.
    pub fn from_host(v: HostValue) -> (r: Result<MapStyleOption, Error>)
        ensures
            match v {
                HostValue::Primitive(Primitive::Text(s)) => r == Ok::<MapStyleOption, Error>(MapStyleOption::URL(s)),
                HostValue::Document(d) => r == Ok::<MapStyleOption, Error>(MapStyleOption::JsonStyleSpecification(d)),
                _ => r == Err::<MapStyleOption, Error>(Error::ShapeMismatch),
            },
    {
        match v {
            HostValue::Primitive(Primitive::Text(s)) => Ok(MapStyleOption::URL(s)),
            HostValue::Document(d) => Ok(MapStyleOption::JsonStyleSpecification(d)),
            _ => Err(Error::ShapeMismatch),
        }
    }
}

impl From<String> for MapStyleOption {
    fn from(value: String) -> Self {
        MapStyleOption::URL(value)
    }
}

impl vstd::std_specs::convert::FromSpecImpl<String> for MapStyleOption {
    open spec fn obeys_from_spec() -> bool {
        true
    }

    open spec fn from_spec(value: String) -> MapStyleOption {
        MapStyleOption::URL(value)
    }
}

impl From<serde_json::Value> for MapStyleOption {
    fn from(value: serde_json::Value) -> Self {
        MapStyleOption::JsonStyleSpecification(value)
    }
}

impl vstd::std_specs::convert::FromSpecImpl<serde_json::Value> for MapStyleOption {
    open spec fn obeys_from_spec() -> bool {
        true
    }

    open spec fn from_spec(value: serde_json::Value) -> MapStyleOption {
        MapStyleOption::JsonStyleSpecification(value)
    }
}

} // verus!
