//! The `container` field of `MapOptions`.

use vstd::prelude::*;

use crate::error::Error;
use crate::host::{HostValue, HostView, Primitive, PrimitiveView};

verus! {

/// Where the map is drawn: the `id` of an element, or the element itself.
/// The target should be empty.
#[derive(Debug, Clone, PartialEq, Eq)]
pub enum MapContainer {
    /// The container's identifier
    Identifier(String),
    /// The container element itself
    HtmlElement(web_sys::HtmlElement),
}

impl MapContainer {
    /// The host value that this container is sent as: the identifier as a
    /// string, or the element.
    pub open spec fn host_view(&self) -> HostView {
        match self {
            MapContainer::Identifier(s) => HostView::Primitive(PrimitiveView::Text(s@)),
            MapContainer::HtmlElement(_) => HostView::Element,
        }
    }

    /// The host value that this container is sent as.
    pub fn as_js_value(&self) -> (r: HostValue)
        ensures
            r@ == self.host_view(),
    {
        match self {
            MapContainer::Identifier(s) => HostValue::Primitive(Primitive::Text(s.clone())),
            MapContainer::HtmlElement(e) => HostValue::Element(e.clone()),
        }
    }

    /// Read a container from a host value: a string is an identifier, an
    /// element is taken as it is.
    ///
    /// # Errors
    ///
    /// `Error::ShapeMismatch` for any other value.
    pub fn from_host(v: HostValue) -> (r: Result<MapContainer, Error>)
        ensures
            match v {
                HostValue::Primitive(Primitive::Text(s)) => r == Ok::<MapContainer, Error>(MapContainer::Identifier(s)),
                HostValue::Element(e) => r == Ok::<MapContainer, Error>(MapContainer::HtmlElement(e)),
                _ => r == Err::<MapContainer, Error>(Error::ShapeMismatch),
            },
    {
        match v {
            HostValue::Primitive(Primitive::Text(s)) => Ok(MapContainer::Identifier(s)),
            HostValue::Element(e) => Ok(MapContainer::HtmlElement(e)),
            _ => Err(Error::ShapeMismatch),
        }
    }
}

impl From<String> for MapContainer {
    fn from(value: String) -> Self {
        MapContainer::Identifier(value)
    }
}

impl vstd::std_specs::convert::FromSpecImpl<String> for MapContainer {
    open spec fn obeys_from_spec() -> bool {
        true
    }

    open spec fn from_spec(value: String) -> MapContainer {
        MapContainer::Identifier(value)
    }
}

impl From<web_sys::HtmlElement> for MapContainer {
    fn from(value: web_sys::HtmlElement) -> Self {
        MapContainer::HtmlElement(value)
    }
}

impl vstd::std_specs::convert::FromSpecImpl<web_sys::HtmlElement> for MapContainer {
    open spec fn obeys_from_spec() -> bool {
        true
    }

    open spec fn from_spec(value: web_sys::HtmlElement) -> MapContainer {
        MapContainer::HtmlElement(value)
    }
}

} // verus!
