//! Values of the JavaScript host, as plain data.
//!
//! A `HostValue` is what crosses the boundary with the map engine: a
//! primitive, an array or a flat object of primitives, a DOM element, or a
//! JSON document carried through untouched.

use vstd::prelude::*;

verus! {

/// Declares `web_sys::HtmlElement`, a handle on a DOM element, to be carried
/// through as an opaque value.
#[verifier::external_type_specification]
#[verifier::external_body]
pub struct ExHtmlElement(web_sys::HtmlElement);

/// Declares `serde_json::Value`, a JSON document, to be carried through as
/// an opaque value.
#[verifier::external_type_specification]
#[verifier::external_body]
pub struct ExJsonValue(serde_json::Value);

/// Relies on `Clone` for `web_sys::HtmlElement`: a second handle on the same
/// DOM element. Nothing about the handle is promised.
pub assume_specification[ <web_sys::HtmlElement as Clone>::clone ](
    e: &web_sys::HtmlElement,
) -> web_sys::HtmlElement;

/// Relies on `Clone` for `serde_json::Value`, derived down to its maps,
/// strings and numbers: a deep copy, equal to the document copied.
pub assume_specification[ <serde_json::Value as Clone>::clone ](
    v: &serde_json::Value,
) -> (r: serde_json::Value)
    ensures
        r == *v,
;

/// A boolean, a number or a string of the host.
#[derive(Debug, Clone, PartialEq)]
pub enum Primitive {
    /// A boolean
    Bool(bool),
    /// A number, in fixed-point units
    Number(i64),
    /// A string
    Text(String),
}

/// What a `Primitive` holds.
pub enum PrimitiveView {
    Bool(bool),
    Number(i64),
    Text(Seq<char>),
}

impl View for Primitive {
    type V = PrimitiveView;

    open spec fn view(&self) -> PrimitiveView {
        match self {
            Primitive::Bool(b) => PrimitiveView::Bool(*b),
            Primitive::Number(n) => PrimitiveView::Number(*n),
            Primitive::Text(s) => PrimitiveView::Text(s@),
        }
    }
}

/// A value of the host.
#[derive(Debug, Clone, PartialEq)]
pub enum HostValue {
    /// A boolean, number or string
    Primitive(Primitive),
    /// An array of primitives
    Array(Vec<Primitive>),
    /// An object, as its keys and values in order
    Object(Vec<(String, Primitive)>),
    /// A DOM element
    Element(web_sys::HtmlElement),
    /// A JSON document, passed through without inspection
    Document(serde_json::Value),
}

/// What a `HostValue` holds. An element is opaque: only its kind is seen.
pub enum HostView {
    Primitive(PrimitiveView),
    Array(Seq<PrimitiveView>),
    Object(Seq<(Seq<char>, PrimitiveView)>),
    Element,
    Document(serde_json::Value),
}

/// The view of each item of an array.
pub open spec fn items_view(items: Seq<Primitive>) -> Seq<PrimitiveView> {
    items.map_values(|p: Primitive| p@)
}

/// The view of each entry of an object.
pub open spec fn entries_view(entries: Seq<(String, Primitive)>) -> Seq<(Seq<char>, PrimitiveView)> {
    entries.map_values(|e: (String, Primitive)| (e.0@, e.1@))
}

impl View for HostValue {
    type V = HostView;

    open spec fn view(&self) -> HostView {
        match self {
            HostValue::Primitive(p) => HostView::Primitive(p@),
            HostValue::Array(items) => HostView::Array(items_view(items@)),
            HostValue::Object(entries) => HostView::Object(entries_view(entries@)),
            HostValue::Element(_) => HostView::Element,
            HostValue::Document(d) => HostView::Document(*d),
        }
    }
}

/// The value of the first entry named `key`, if any.
pub open spec fn lookup(entries: Seq<(Seq<char>, PrimitiveView)>, key: Seq<char>) -> Option<PrimitiveView>
    decreases entries.len(),
{
    if entries.len() == 0 {
        None
    } else if entries[0].0 == key {
        Some(entries[0].1)
    } else {
        lookup(entries.drop_first(), key)
    }
}

/// The number under `key`: present when the first entry named `key` holds a number.
pub open spec fn number_field(entries: Seq<(Seq<char>, PrimitiveView)>, key: Seq<char>) -> Option<i64> {
    match lookup(entries, key) {
        Some(PrimitiveView::Number(n)) => Some(n),
        _ => None,
    }
}

proof fn lemma_lookup_skip(entries: Seq<(Seq<char>, PrimitiveView)>, key: Seq<char>, i: int)
    requires
        0 <= i < entries.len(),
        entries[i].0 != key,
    ensures
        lookup(entries.subrange(i, entries.len() as int), key)
            == lookup(entries.subrange(i + 1, entries.len() as int), key),
{
    let rest = entries.subrange(i, entries.len() as int);
    assert(rest.drop_first() =~= entries.subrange(i + 1, entries.len() as int));
}

/// The number under `key` in an object's entries (see `number_field`).
pub fn find_number(entries: &Vec<(String, Primitive)>, key: &String) -> (r: Option<i64>)
    ensures
        r == number_field(entries_view(entries@), key@),
{
    let ghost view = entries_view(entries@);
    assert(view.subrange(0, view.len() as int) =~= view);
    let mut i: usize = 0;
    while i < entries.len()
        invariant
            i <= entries.len(),
            view == entries_view(entries@),
            lookup(view, key@) == lookup(view.subrange(i as int, view.len() as int), key@),
        decreases entries.len() - i,
    {
        let entry = &entries[i];
        if entry.0 == *key {
            let ghost rest = view.subrange(i as int, view.len() as int);
            assert(rest[0] == view[i as int]);
            return match &entry.1 {
                Primitive::Number(n) => Some(*n),
                _ => None,
            };
        }
        proof {
            lemma_lookup_skip(view, key@, i as int);
        }
        i = i + 1;
    }
    proof {
        assert(view.subrange(i as int, view.len() as int).len() == 0);
    }
    None
}

} // verus!
