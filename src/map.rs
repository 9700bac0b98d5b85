//! The map drawn in the page.

use vstd::prelude::*;

verus! {

/// Declares `wasm_bindgen::JsValue`, a handle on a JavaScript object, to be
/// carried through as an opaque value.
#[verifier::external_type_specification]
#[verifier::external_body]
pub struct ExJsValue(wasm_bindgen::JsValue);

/// A map constructed by the map engine, held by its JavaScript object.
#[derive(Debug)]
pub struct MaplibreMap {
    /// The engine's map object
    js_value: wasm_bindgen::JsValue,
}

impl MaplibreMap {
    /// The engine's map object that this map holds.
    pub closed spec fn inner(&self) -> wasm_bindgen::JsValue {
        self.js_value
    }

    /// Take hold of a map object that the engine constructed.
    pub fn from_inner(js_value: wasm_bindgen::JsValue) -> (r: MaplibreMap)
        ensures
            r.inner() == js_value,
    {
        MaplibreMap { js_value }
    }

    /// Give up the map for the engine's map object.
    pub fn into_inner(self) -> (r: wasm_bindgen::JsValue)
        ensures
            r == self.inner(),
    {
        self.js_value
    }
}

} // verus!
