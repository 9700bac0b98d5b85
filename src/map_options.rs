//! The options that a map is constructed with, and the payload that they
//! are sent to the map engine as.
//!
//! A `MapOptions` is built from its container by transitions that each set
//! one field and return the new record. Fields that were never set are left
//! out of the payload, so that the engine's own defaults apply. A boolean
//! field has only the transition that departs from the engine's default.

pub mod map_container;
pub mod map_style_option;
pub mod map_zoom;

pub use map_container::MapContainer;
pub use map_style_option::MapStyleOption;
pub use map_zoom::MapZoom;

use vstd::prelude::*;

use crate::host::{HostValue, HostView, PrimitiveView, Primitive};
use crate::lng_lat::UNITS_PER_DEGREE;
use crate::lng_lat_like::{host_view_of, LngLatLike};

verus! {

/// A payload entry: a key and the host value under it.
pub type Entry = (String, HostValue);

/// What the entries of a payload hold, in order.
pub open spec fn payload_view(entries: Seq<Entry>) -> Seq<(Seq<char>, HostView)> {
    entries.map_values(|e: Entry| (e.0@, e.1@))
}

/// One entry `key: h` when `h` is present, none otherwise.
pub open spec fn optional_entry(key: Seq<char>, h: Option<HostView>) -> Seq<(Seq<char>, HostView)> {
    match h {
        Some(h) => seq![(key, h)],
        None => Seq::empty(),
    }
}

/// The host view of a number, if present.
pub open spec fn number_view(n: Option<i64>) -> Option<HostView> {
    match n {
        Some(n) => Some(HostView::Primitive(PrimitiveView::Number(n))),
        None => None,
    }
}

/// The host view of a zoom level, if present.
pub open spec fn zoom_view(z: Option<MapZoom>) -> Option<HostView> {
    match z {
        Some(z) => Some(HostView::Primitive(PrimitiveView::Number(z.0))),
        None => None,
    }
}

/// The host view of a count, if present: a whole number of units.
pub open spec fn count_view(n: Option<u32>) -> Option<HostView> {
    match n {
        Some(n) => Some(HostView::Primitive(PrimitiveView::Number((n * UNITS_PER_DEGREE) as i64))),
        None => None,
    }
}

/// The host view of a boolean, if present.
pub open spec fn bool_view(b: Option<bool>) -> Option<HostView> {
    match b {
        Some(b) => Some(HostView::Primitive(PrimitiveView::Bool(b))),
        None => None,
    }
}

/// The host view of a style, if present.
pub open spec fn style_view(s: Option<MapStyleOption>) -> Option<HostView> {
    match s {
        Some(s) => Some(s.host_view()),
        None => None,
    }
}

/// The host view of a coordinate, if present.
pub open spec fn center_view(c: Option<LngLatLike>) -> Option<HostView> {
    match c {
        Some(c) => Some(host_view_of(c)),
        None => None,
    }
}

/// The view of a host value, if present.
pub open spec fn present_view(v: Option<HostValue>) -> Option<HostView> {
    match v {
        Some(v) => Some(v@),
        None => None,
    }
}

/// Append `key: v` to a payload when `v` is present.
fn push_entry(entries: &mut Vec<Entry>, key: &str, v: Option<HostValue>)
    ensures
        payload_view(final(entries)@) == payload_view(old(entries)@) + optional_entry(key@, present_view(v)),
{
    let ghost before = entries@;
    match v {
        Some(v) => {
            entries.push((key.to_owned(), v));
            assert(payload_view(entries@) =~= payload_view(before) + optional_entry(key@, present_view(Some(v))));
        },
        None => {
            assert(payload_view(entries@) =~= payload_view(before) + optional_entry(key@, None));
        },
    }
}

/// A number as a host value, if present.
fn number_value(n: Option<i64>) -> (r: Option<HostValue>)
    ensures
        present_view(r) == number_view(n),
{
    match n {
        Some(n) => Some(HostValue::Primitive(Primitive::Number(n))),
        None => None,
    }
}

/// A zoom level as a host value, if present.
fn zoom_value(z: Option<MapZoom>) -> (r: Option<HostValue>)
    ensures
        present_view(r) == zoom_view(z),
{
    match z {
        Some(z) => Some(z.as_js_value()),
        None => None,
    }
}

/// A count as a host value, if present.
fn count_value(n: Option<u32>) -> (r: Option<HostValue>)
    ensures
        present_view(r) == count_view(n),
{
    match n {
        Some(n) => Some(HostValue::Primitive(Primitive::Number(n as i64 * UNITS_PER_DEGREE))),
        None => None,
    }
}

/// A boolean as a host value, if present.
fn bool_value(b: Option<bool>) -> (r: Option<HostValue>)
    ensures
        present_view(r) == bool_view(b),
{
    match b {
        Some(b) => Some(HostValue::Primitive(Primitive::Bool(b))),
        None => None,
    }
}

/// Options of a map. Angles are in ten-millionths of a degree.
#[derive(Debug, Clone, PartialEq)]
pub struct MapOptions {
    /// The element that the map is drawn in (key `container`)
    pub container: MapContainer,
    /// The map's style (key `style`)
    pub style: Option<MapStyleOption>,
    /// Initial zoom level; the engine's default is the style's, or 0 (key `zoom`)
    pub zoom: Option<MapZoom>,
    /// Whether to show the MapLibre logo; the engine's default is not to (key `maplibreLogo`)
    pub maplibre_logo: Option<bool>,
    /// Initial center; the engine's default is the style's (key `center`)
    pub center: Option<LngLatLike>,
    /// Whether the map reacts to the user; by default it does (key `interactive`)
    pub interactive: Option<bool>,
    /// Initial bearing, counter-clockwise from north (key `bearing`)
    pub bearing: Option<i64>,
    /// Initial pitch, away from the plane of the screen (key `pitch`)
    pub pitch: Option<i64>,
    /// Least zoom level the map can reach (key `minZoom`)
    pub min_zoom: Option<MapZoom>,
    /// Greatest zoom level the map can reach (key `maxZoom`)
    pub max_zoom: Option<MapZoom>,
    /// Least pitch the map can reach (key `minPitch`)
    pub min_pitch: Option<i64>,
    /// Greatest pitch the map can reach (key `maxPitch`)
    pub max_pitch: Option<i64>,
    /// How many tiles the engine keeps in its cache (key `maxTileCacheSize`)
    pub max_tile_cache_size: Option<u32>,
    /// Whether shift-drag zooms to a box; by default it does (key `boxZoom`)
    pub box_zoom: Option<bool>,
    /// Whether a double click zooms in; by default it does (key `doubleClickZoom`)
    pub double_click_zoom: Option<bool>,
    /// Whether a right drag rotates; by default it does (key `dragRotate`)
    pub drag_rotate: Option<bool>,
    /// Whether the keyboard moves the map; by default it does (key `keyboard`)
    pub keyboard: Option<bool>,
    /// Whether the map follows the window's size; by default it does (key `trackResize`)
    pub track_resize: Option<bool>,
    /// Whether the engine validates the style; by default it does (key `validateStyle`)
    pub validate_style: Option<bool>,
}

impl MapOptions {
    /// The record that holds `container` and no other field.
    pub open spec fn created(container: MapContainer) -> MapOptions {
        MapOptions {
            container,
            style: None,
            zoom: None,
            maplibre_logo: None,
            center: None,
            interactive: None,
            bearing: None,
            pitch: None,
            min_zoom: None,
            max_zoom: None,
            min_pitch: None,
            max_pitch: None,
            max_tile_cache_size: None,
            box_zoom: None,
            double_click_zoom: None,
            drag_rotate: None,
            keyboard: None,
            track_resize: None,
            validate_style: None,
        }
    }

    /// The payload's entries: the container, then each field that is
    /// present, under its key, in the order of the fields.
    pub open spec fn payload_spec(&self) -> Seq<(Seq<char>, HostView)> {
        seq![("container"@, self.container.host_view())]
            + optional_entry("style"@, style_view(self.style))
            + optional_entry("zoom"@, zoom_view(self.zoom))
            + optional_entry("maplibreLogo"@, bool_view(self.maplibre_logo))
            + optional_entry("center"@, center_view(self.center))
            + optional_entry("interactive"@, bool_view(self.interactive))
            + optional_entry("bearing"@, number_view(self.bearing))
            + optional_entry("pitch"@, number_view(self.pitch))
            + optional_entry("minZoom"@, zoom_view(self.min_zoom))
            + optional_entry("maxZoom"@, zoom_view(self.max_zoom))
            + optional_entry("minPitch"@, number_view(self.min_pitch))
            + optional_entry("maxPitch"@, number_view(self.max_pitch))
            + optional_entry("maxTileCacheSize"@, count_view(self.max_tile_cache_size))
            + optional_entry("boxZoom"@, bool_view(self.box_zoom))
            + optional_entry("doubleClickZoom"@, bool_view(self.double_click_zoom))
            + optional_entry("dragRotate"@, bool_view(self.drag_rotate))
            + optional_entry("keyboard"@, bool_view(self.keyboard))
            + optional_entry("trackResize"@, bool_view(self.track_resize))
            + optional_entry("validateStyle"@, bool_view(self.validate_style))
    }

    /// Create options that hold the given container and nothing else.
    pub fn new(container: MapContainer) -> (r: Self)
        ensures
            r == MapOptions::created(container),
    {
        MapOptions {
            container,
            style: None,
            zoom: None,
            maplibre_logo: None,
            center: None,
            interactive: None,
            bearing: None,
            pitch: None,
            min_zoom: None,
            max_zoom: None,
            min_pitch: None,
            max_pitch: None,
            max_tile_cache_size: None,
            box_zoom: None,
            double_click_zoom: None,
            drag_rotate: None,
            keyboard: None,
            track_resize: None,
            validate_style: None,
        }
    }

    /// Specify the initial zoom level of the map.
    pub fn with_zoom(self, zoom: MapZoom) -> (r: Self)
        ensures
            r == (MapOptions { zoom: Some(zoom), ..self }),
    {
        MapOptions { zoom: Some(zoom), ..self }
    }

    /// Specify the map's style.
    pub fn with_style(self, style: MapStyleOption) -> (r: Self)
        ensures
            r == (MapOptions { style: Some(style), ..self }),
    {
        MapOptions { style: Some(style), ..self }
    }

    /// Show the MapLibre logo.
    pub fn with_maplibre_logo(self) -> (r: Self)
        ensures
            r == (MapOptions { maplibre_logo: Some(true), ..self }),
    {
        MapOptions { maplibre_logo: Some(true), ..self }
    }

    /// Specify the starting position of the map.
    pub fn with_center(self, center: LngLatLike) -> (r: Self)
        ensures
            r == (MapOptions { center: Some(center), ..self }),
    {
        MapOptions { center: Some(center), ..self }
    }

    /// Make the map ignore the user: no mouse, touch or keyboard handlers.
    pub fn without_interactivity(self) -> (r: Self)
        ensures
            r == (MapOptions { interactive: Some(false), ..self }),
    {
        MapOptions { interactive: Some(false), ..self }
    }

    /// Specify the initial bearing, in ten-millionths of a degree.
    pub fn with_bearing(self, bearing: i64) -> (r: Self)
        ensures
            r == (MapOptions { bearing: Some(bearing), ..self }),
    {
        MapOptions { bearing: Some(bearing), ..self }
    }

    /// Specify the initial pitch, in ten-millionths of a degree.
    pub fn with_pitch(self, pitch: i64) -> (r: Self)
        ensures
            r == (MapOptions { pitch: Some(pitch), ..self }),
    {
        MapOptions { pitch: Some(pitch), ..self }
    }

    /// Specify the least zoom level that the map can reach.
    pub fn with_min_zoom(self, zoom: MapZoom) -> (r: Self)
        ensures
            r == (MapOptions { min_zoom: Some(zoom), ..self }),
    {
        MapOptions { min_zoom: Some(zoom), ..self }
    }

    /// Specify the greatest zoom level that the map can reach.
    pub fn with_max_zoom(self, zoom: MapZoom) -> (r: Self)
        ensures
            r == (MapOptions { max_zoom: Some(zoom), ..self }),
    {
        MapOptions { max_zoom: Some(zoom), ..self }
    }

    /// Specify the least pitch that the map can reach.
    pub fn with_min_pitch(self, pitch: i64) -> (r: Self)
        ensures
            r == (MapOptions { min_pitch: Some(pitch), ..self }),
    {
        MapOptions { min_pitch: Some(pitch), ..self }
    }

    /// Specify the greatest pitch that the map can reach.
    pub fn with_max_pitch(self, pitch: i64) -> (r: Self)
        ensures
            r == (MapOptions { max_pitch: Some(pitch), ..self }),
    {
        MapOptions { max_pitch: Some(pitch), ..self }
    }

    /// Specify how many tiles the engine keeps in its cache.
    pub fn with_max_tile_cache_size(self, tiles: u32) -> (r: Self)
        ensures
            r == (MapOptions { max_tile_cache_size: Some(tiles), ..self }),
    {
        MapOptions { max_tile_cache_size: Some(tiles), ..self }
    }

    /// Turn off zooming to a box with shift-drag.
    pub fn without_box_zoom(self) -> (r: Self)
        ensures
            r == (MapOptions { box_zoom: Some(false), ..self }),
    {
        MapOptions { box_zoom: Some(false), ..self }
    }

    /// Turn off zooming in with a double click.
    pub fn without_double_click_zoom(self) -> (r: Self)
        ensures
            r == (MapOptions { double_click_zoom: Some(false), ..self }),
    {
        MapOptions { double_click_zoom: Some(false), ..self }
    }

    /// Turn off rotating with a right drag.
    pub fn without_drag_rotate(self) -> (r: Self)
        ensures
            r == (MapOptions { drag_rotate: Some(false), ..self }),
    {
        MapOptions { drag_rotate: Some(false), ..self }
    }

    /// Turn off keyboard control.
    pub fn without_keyboard(self) -> (r: Self)
        ensures
            r == (MapOptions { keyboard: Some(false), ..self }),
    {
        MapOptions { keyboard: Some(false), ..self }
    }

    /// Stop following the size of the window.
    pub fn without_track_resize(self) -> (r: Self)
        ensures
            r == (MapOptions { track_resize: Some(false), ..self }),
    {
        MapOptions { track_resize: Some(false), ..self }
    }

    /// Turn off the engine's validation of the style.
    pub fn without_style_validation(self) -> (r: Self)
        ensures
            r == (MapOptions { validate_style: Some(false), ..self }),
    {
        MapOptions { validate_style: Some(false), ..self }
    }
    /// The payload that the map engine is constructed from: the container,
    /// then each field that is present under its key (`payload_spec`).
    /// Absent fields are left out, never sent as null. The record is
    /// neither changed nor consumed, so it can be used again as a template.
    pub fn as_js_value(&self) -> (r: Vec<Entry>)
        ensures
            payload_view(r@) == self.payload_spec(),
    {
        let mut entries: Vec<Entry> = Vec::new();
        entries.push(("container".to_owned(), self.container.as_js_value()));
        assert(payload_view(entries@) =~= seq![("container"@, self.container.host_view())]);
        let style = match &self.style {
            Some(s) => Some(s.as_js_value()),
            None => None,
        };
        push_entry(&mut entries, "style", style);
        push_entry(&mut entries, "zoom", zoom_value(self.zoom));
        push_entry(&mut entries, "maplibreLogo", bool_value(self.maplibre_logo));
        let center = match &self.center {
            Some(c) => Some(c.as_js_value()),
            None => None,
        };
        push_entry(&mut entries, "center", center);
        push_entry(&mut entries, "interactive", bool_value(self.interactive));
        push_entry(&mut entries, "bearing", number_value(self.bearing));
        push_entry(&mut entries, "pitch", number_value(self.pitch));
        push_entry(&mut entries, "minZoom", zoom_value(self.min_zoom));
        push_entry(&mut entries, "maxZoom", zoom_value(self.max_zoom));
        push_entry(&mut entries, "minPitch", number_value(self.min_pitch));
        push_entry(&mut entries, "maxPitch", number_value(self.max_pitch));
        push_entry(&mut entries, "maxTileCacheSize", count_value(self.max_tile_cache_size));
        push_entry(&mut entries, "boxZoom", bool_value(self.box_zoom));
        push_entry(&mut entries, "doubleClickZoom", bool_value(self.double_click_zoom));
        push_entry(&mut entries, "dragRotate", bool_value(self.drag_rotate));
        push_entry(&mut entries, "keyboard", bool_value(self.keyboard));
        push_entry(&mut entries, "trackResize", bool_value(self.track_resize));
        push_entry(&mut entries, "validateStyle", bool_value(self.validate_style));
        entries
    }
}

/// Whether some entry of the payload is named `key`.
pub open spec fn has_key(p: Seq<(Seq<char>, HostView)>, key: Seq<char>) -> bool {
    exists|i: int| 0 <= i < p.len() && (#[trigger] p[i]).0 == key
}

/// Whether the payload holds the entry `key: h`.
pub open spec fn has_entry(p: Seq<(Seq<char>, HostView)>, key: Seq<char>, h: HostView) -> bool {
    exists|i: int| 0 <= i < p.len() && #[trigger] p[i] == (key, h)
}

broadcast proof fn lemma_has_key_concat(a: Seq<(Seq<char>, HostView)>, b: Seq<(Seq<char>, HostView)>, key: Seq<char>)
    ensures
        #[trigger] has_key(a + b, key) == (has_key(a, key) || has_key(b, key)),
{
    let ab = a + b;
    if has_key(ab, key) {
        let i = choose|i: int| 0 <= i < ab.len() && (#[trigger] ab[i]).0 == key;
        if i >= a.len() {
            assert(b[i - a.len()] == ab[i]);
        }
    }
    if has_key(b, key) {
        let i = choose|i: int| 0 <= i < b.len() && (#[trigger] b[i]).0 == key;
        assert(ab[i + a.len()] == b[i]);
    }
    if has_key(a, key) {
        let i = choose|i: int| 0 <= i < a.len() && (#[trigger] a[i]).0 == key;
        assert(ab[i] == a[i]);
    }
}

broadcast proof fn lemma_has_key_optional(k: Seq<char>, h: Option<HostView>, key: Seq<char>)
    ensures
        #[trigger] has_key(optional_entry(k, h), key) == (h is Some && k == key),
{
    if h is Some {
        assert(optional_entry(k, h)[0] == (k, h->0));
    }
}

proof fn lemma_has_entry_concat(a: Seq<(Seq<char>, HostView)>, b: Seq<(Seq<char>, HostView)>, key: Seq<char>, h: HostView)
    ensures
        has_entry(a, key, h) ==> has_entry(a + b, key, h),
        has_entry(b, key, h) ==> has_entry(a + b, key, h),
{
    let ab = a + b;
    if has_entry(b, key, h) {
        let i = choose|i: int| 0 <= i < b.len() && #[trigger] b[i] == (key, h);
        assert(ab[i + a.len()] == b[i]);
    }
    if has_entry(a, key, h) {
        let i = choose|i: int| 0 <= i < a.len() && #[trigger] a[i] == (key, h);
        assert(ab[i] == a[i]);
    }
}

/// A record made from its container alone is sent as exactly one entry,
/// `container`.
pub proof fn lemma_created_payload(container: MapContainer)
    ensures
        MapOptions::created(container).payload_spec() == seq![("container"@, container.host_view())],
{
    assert(MapOptions::created(container).payload_spec() =~= seq![("container"@, container.host_view())]);
}

/// A record made from its container and then given a zoom level is sent as
/// exactly two entries: `container`, then `zoom` with that level.
pub proof fn lemma_zoom_payload(container: MapContainer, zoom: MapZoom)
    ensures
        (MapOptions { zoom: Some(zoom), ..MapOptions::created(container) }).payload_spec() == seq![
            ("container"@, container.host_view()),
            ("zoom"@, HostView::Primitive(PrimitiveView::Number(zoom.0))),
        ],
{
    let o = MapOptions { zoom: Some(zoom), ..MapOptions::created(container) };
    assert(o.payload_spec() =~= seq![
        ("container"@, container.host_view()),
        ("zoom"@, HostView::Primitive(PrimitiveView::Number(zoom.0))),
    ]);
}

/// Once interactivity is turned off, the payload holds `interactive: false`;
/// a record that never touched the field sends no `interactive` entry at all.
pub proof fn lemma_interactive_entry(options: MapOptions)
    ensures
        options.interactive == Some(false) ==> has_entry(
            options.payload_spec(),
            "interactive"@,
            HostView::Primitive(PrimitiveView::Bool(false)),
        ),
        options.interactive is None ==> !has_key(options.payload_spec(), "interactive"@),
{
    let o = options;
    let front = seq![("container"@, o.container.host_view())]
        + optional_entry("style"@, style_view(o.style))
        + optional_entry("zoom"@, zoom_view(o.zoom))
        + optional_entry("maplibreLogo"@, bool_view(o.maplibre_logo))
        + optional_entry("center"@, center_view(o.center));
    let middle = optional_entry("interactive"@, bool_view(o.interactive));
    let after = o.payload_spec().subrange((front.len() + middle.len()) as int, o.payload_spec().len() as int);
    if o.interactive == Some(false) {
        assert(middle[0] == ("interactive"@, HostView::Primitive(PrimitiveView::Bool(false))));
        assert(has_entry(middle, "interactive"@, HostView::Primitive(PrimitiveView::Bool(false))));
        lemma_has_entry_concat(front, middle, "interactive"@, HostView::Primitive(PrimitiveView::Bool(false)));
        assert(o.payload_spec() =~= (front + middle) + after);
        lemma_has_entry_concat(front + middle, after, "interactive"@, HostView::Primitive(PrimitiveView::Bool(false)));
    }
    if o.interactive is None {
        broadcast use lemma_has_key_concat, lemma_has_key_optional;
        reveal_strlit("interactive");
        reveal_strlit("container");
        reveal_strlit("style");
        reveal_strlit("zoom");
        reveal_strlit("maplibreLogo");
        reveal_strlit("center");
        reveal_strlit("bearing");
        reveal_strlit("pitch");
        reveal_strlit("minZoom");
        reveal_strlit("maxZoom");
        reveal_strlit("minPitch");
        reveal_strlit("maxPitch");
        reveal_strlit("maxTileCacheSize");
        reveal_strlit("boxZoom");
        reveal_strlit("doubleClickZoom");
        reveal_strlit("dragRotate");
        reveal_strlit("keyboard");
        reveal_strlit("trackResize");
        reveal_strlit("validateStyle");
        assert("trackResize"@[0] != "interactive"@[0]);
        let first = seq![("container"@, o.container.host_view())];
        assert(!has_key(first, "interactive"@)) by {
            assert(first[0].0 != "interactive"@);
        }
    }
}

/// Two payloads made from the same record are equal: making a payload
/// depends on the record alone.
pub proof fn lemma_payload_deterministic(options: MapOptions, first: Seq<Entry>, second: Seq<Entry>)
    requires
        payload_view(first) == options.payload_spec(),
        payload_view(second) == options.payload_spec(),
    ensures
        payload_view(first) == payload_view(second),
{
}

} // verus!
