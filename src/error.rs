//! The library's error type.

use vstd::prelude::*;

verus! {

/// What can go wrong between the typed model and the JavaScript host.
#[derive(Debug, Clone, PartialEq, Eq)]
pub enum Error {
    /// A host value matched none of the shapes accepted for the target type.
    ShapeMismatch,
    /// A value could not be carried into the host's representation.
    ConversionFailure(String),
    /// The map engine refused to construct a map from a finished payload.
    ConstructionFailure(String),
}

} // verus!
