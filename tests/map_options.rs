use maplibre_gl_js::host::{HostValue, Primitive};
use maplibre_gl_js::lng_lat_like::LngLatLike;
use maplibre_gl_js::{Error, MapContainer, MapOptions, MapStyleOption, MapZoom};

fn created() -> MapOptions {
    MapOptions::new(MapContainer::Identifier("identifier_of_map".to_string()))
}

fn keys(payload: &[(String, HostValue)]) -> Vec<&str> {
    payload.iter().map(|(k, _)| k.as_str()).collect()
}

fn value<'a>(payload: &'a [(String, HostValue)], key: &str) -> Option<&'a HostValue> {
    payload.iter().find(|(k, _)| k == key).map(|(_, v)| v)
}

#[test]
fn only_container_gives_one_key() {
    let payload = created().as_js_value();
    assert_eq!(keys(&payload), vec!["container"]);
    assert_eq!(
        value(&payload, "container"),
        Some(&HostValue::Primitive(Primitive::Text("identifier_of_map".to_string())))
    );
}

#[test]
fn zoom_gives_two_keys_and_round_trips() {
    let options = created().with_zoom(MapZoom(32_000_000));
    let payload = options.as_js_value();
    assert_eq!(keys(&payload), vec!["container", "zoom"]);
    let zoom = value(&payload, "zoom").expect("zoom should be sent");
    assert_eq!(zoom, &HostValue::Primitive(Primitive::Number(32_000_000)));
    assert_eq!(MapZoom::from_host(zoom), Ok(MapZoom(32_000_000)));
    assert_eq!(options.zoom, Some(MapZoom(32_000_000)));
}

#[test]
fn without_interactivity_sends_false() {
    let payload = created().without_interactivity().as_js_value();
    assert_eq!(keys(&payload), vec!["container", "interactive"]);
    assert_eq!(value(&payload, "interactive"), Some(&HostValue::Primitive(Primitive::Bool(false))));
    let untouched = created().with_zoom(MapZoom(1)).with_maplibre_logo().as_js_value();
    assert_eq!(value(&untouched, "interactive"), None);
}

#[test]
fn payload_is_the_same_each_time() {
    let options = created()
        .with_style(MapStyleOption::URL("https://demotiles.maplibre.org/globe.json".to_string()))
        .with_center(LngLatLike::Array([11_000_000, 11_000_000]))
        .without_keyboard();
    let first = options.as_js_value();
    let second = options.as_js_value();
    assert_eq!(first, second);
    assert_eq!(keys(&first), vec!["container", "style", "center", "keyboard"]);
}

#[test]
fn maplibre_logo_is_sent_true() {
    let payload = created().with_maplibre_logo().as_js_value();
    assert_eq!(keys(&payload), vec!["container", "maplibreLogo"]);
    assert_eq!(value(&payload, "maplibreLogo"), Some(&HostValue::Primitive(Primitive::Bool(true))));
}

#[test]
fn center_is_sent_in_its_shape() {
    let payload = created().with_center(LngLatLike::Array([12_000_000, 42_000_000])).as_js_value();
    assert_eq!(keys(&payload), vec!["container", "center"]);
    let center = value(&payload, "center").expect("center should be sent");
    assert_eq!(LngLatLike::from_host(center), Ok(LngLatLike::Array([12_000_000, 42_000_000])));
}

#[test]
fn last_write_wins() {
    let options = created().with_zoom(MapZoom(1)).with_zoom(MapZoom(2));
    assert_eq!(options.zoom, Some(MapZoom(2)));
    let payload = options.as_js_value();
    assert_eq!(keys(&payload), vec!["container", "zoom"]);
    assert_eq!(value(&payload, "zoom"), Some(&HostValue::Primitive(Primitive::Number(2))));
}

#[test]
fn every_field_is_sent_under_its_key_in_order() {
    let payload = created()
        .without_style_validation()
        .without_track_resize()
        .without_keyboard()
        .without_drag_rotate()
        .without_double_click_zoom()
        .without_box_zoom()
        .with_max_tile_cache_size(50)
        .with_max_pitch(600_000_000)
        .with_min_pitch(10)
        .with_max_zoom(MapZoom(220_000_000))
        .with_min_zoom(MapZoom(0))
        .with_pitch(450_000_000)
        .with_bearing(-900_000_000)
        .without_interactivity()
        .with_center(LngLatLike::LonLatObject { lon: 1, lat: 2 })
        .with_maplibre_logo()
        .with_zoom(MapZoom(5))
        .with_style(MapStyleOption::URL("style".to_string()))
        .as_js_value();
    assert_eq!(
        keys(&payload),
        vec![
            "container",
            "style",
            "zoom",
            "maplibreLogo",
            "center",
            "interactive",
            "bearing",
            "pitch",
            "minZoom",
            "maxZoom",
            "minPitch",
            "maxPitch",
            "maxTileCacheSize",
            "boxZoom",
            "doubleClickZoom",
            "dragRotate",
            "keyboard",
            "trackResize",
            "validateStyle",
        ]
    );
    assert_eq!(value(&payload, "bearing"), Some(&HostValue::Primitive(Primitive::Number(-900_000_000))));
    assert_eq!(value(&payload, "maxTileCacheSize"), Some(&HostValue::Primitive(Primitive::Number(500_000_000))));
    assert_eq!(value(&payload, "validateStyle"), Some(&HostValue::Primitive(Primitive::Bool(false))));
}

#[test]
fn style_url_round_trips() {
    let style = MapStyleOption::URL("url".to_string());
    let sent = style.as_js_value();
    assert_eq!(sent, HostValue::Primitive(Primitive::Text("url".to_string())));
    assert_eq!(MapStyleOption::from_host(sent), Ok(style));
}

#[test]
fn style_document_is_passed_through() {
    let doc: serde_json::Value = serde_json::from_str(
        r#"{"version": 8, "sources": {"satellite": {"type": "raster", "tileSize": 256}}, "layers": [{"id": "satellite", "type": "raster", "source": "satellite"}]}"#,
    )
    .expect("the document should parse");
    let style = MapStyleOption::JsonStyleSpecification(doc.clone());
    let sent = style.as_js_value();
    assert_eq!(sent, HostValue::Document(doc));
    assert_eq!(MapStyleOption::from_host(sent), Ok(style));
    assert_eq!(
        MapStyleOption::from_host(HostValue::Primitive(Primitive::Number(8))),
        Err(Error::ShapeMismatch)
    );
}

#[test]
fn container_identifier_round_trips() {
    let container = MapContainer::Identifier("identifier_of_map".to_string());
    let sent = container.as_js_value();
    assert_eq!(sent, HostValue::Primitive(Primitive::Text("identifier_of_map".to_string())));
    assert_eq!(MapContainer::from_host(sent), Ok(container));
}

#[test]
fn container_of_another_shape_is_a_shape_mismatch() {
    let object = HostValue::Object(vec![
        ("foo".to_string(), Primitive::Number(1)),
        ("bar".to_string(), Primitive::Number(2)),
    ]);
    assert_eq!(MapContainer::from_host(object), Err(Error::ShapeMismatch));
    assert_eq!(
        MapContainer::from_host(HostValue::Primitive(Primitive::Bool(true))),
        Err(Error::ShapeMismatch)
    );
}

#[test]
fn zoom_of_another_shape_is_a_shape_mismatch() {
    let text = HostValue::Primitive(Primitive::Text("3".to_string()));
    assert_eq!(MapZoom::from_host(&text), Err(Error::ShapeMismatch));
    assert_eq!(MapZoom(7).as_js_value(), HostValue::Primitive(Primitive::Number(7)));
}

#[test]
fn conversions_into_options() {
    assert_eq!(MapContainer::from("map".to_string()), MapContainer::Identifier("map".to_string()));
    assert_eq!(MapStyleOption::from("url".to_string()), MapStyleOption::URL("url".to_string()));
    assert_eq!(
        MapStyleOption::from(serde_json::Value::Bool(true)),
        MapStyleOption::JsonStyleSpecification(serde_json::Value::Bool(true))
    );
    assert_eq!(MapZoom::from(20_000_000), MapZoom(20_000_000));
}
