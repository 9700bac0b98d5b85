use maplibre_gl_js::host::{HostValue, Primitive};
use maplibre_gl_js::lng_lat_like::{normalize, LngLatLike};
use maplibre_gl_js::{Error, LngLat, UNITS_PER_DEGREE};

fn deg(d: i64) -> i64 {
    d * UNITS_PER_DEGREE
}

fn object(entries: &[(&str, Primitive)]) -> HostValue {
    HostValue::Object(entries.iter().map(|(k, v)| (k.to_string(), v.clone())).collect())
}

#[test]
fn new_keeps_both_components() {
    let c = LngLat::new(122_300_000, 144_200_000);
    assert_eq!(c.lng(), 122_300_000);
    assert_eq!(c.lat(), 144_200_000);
    assert_eq!(c.to_array(), [122_300_000, 144_200_000]);
}

#[test]
fn setters_replace_one_component() {
    let mut c = LngLat::new(122_300_000, 144_200_000);
    c.set_lng(12_000_000);
    assert_eq!(c, LngLat::new(12_000_000, 144_200_000));
    c.set_lat(-5);
    assert_eq!(c, LngLat::new(12_000_000, -5));
}

#[test]
fn wrap_181_degrees_gives_minus_179() {
    let w = LngLat::new(deg(181), 0).wrap();
    assert_eq!(w, LngLat::new(deg(-179), 0));
}

#[test]
fn wrap_keeps_latitude_and_range_ends() {
    assert_eq!(LngLat::new(deg(180), 7).wrap(), LngLat::new(deg(180), 7));
    assert_eq!(LngLat::new(deg(-180), 7).wrap(), LngLat::new(deg(180), 7));
    assert_eq!(LngLat::new(deg(541), 3).wrap(), LngLat::new(deg(-179), 3));
    assert_eq!(LngLat::new(deg(-181), 3).wrap(), LngLat::new(deg(179), 3));
    assert_eq!(LngLat::new(12_345, 0).wrap(), LngLat::new(12_345, 0));
}

#[test]
fn wrap_handles_extreme_values() {
    for lng in [i64::MIN, i64::MAX, i64::MIN + 1, i64::MAX - 1] {
        let w = LngLat::new(lng, 1).wrap();
        assert!(w.lng() > -deg(180) && w.lng() <= deg(180));
        assert_eq!((w.lng() as i128 - lng as i128).rem_euclid(deg(360) as i128), 0);
        assert_eq!(w.lat(), 1);
    }
}

#[test]
fn every_shape_reads_its_components() {
    let shapes = [
        LngLatLike::LngLat(LngLat::new(1, 2)),
        LngLatLike::LngLatObject { lng: 1, lat: 2 },
        LngLatLike::LonLatObject { lon: 1, lat: 2 },
        LngLatLike::Array([1, 2]),
    ];
    for s in shapes {
        assert_eq!(s.lng(), 1);
        assert_eq!(s.lat(), 2);
    }
}

#[test]
fn all_shapes_normalize_alike() {
    let shapes = [
        LngLatLike::LngLat(LngLat::new(122_300_000, 144_200_000)),
        LngLatLike::LngLatObject { lng: 122_300_000, lat: 144_200_000 },
        LngLatLike::LonLatObject { lon: 122_300_000, lat: 144_200_000 },
        LngLatLike::Array([122_300_000, 144_200_000]),
    ];
    for s in shapes {
        assert_eq!(s.to_lng_lat(), LngLat::new(122_300_000, 144_200_000));
    }
}

#[test]
fn normalizing_a_lng_lat_is_the_identity() {
    let c = LngLat::new(-deg(73), deg(40));
    assert_eq!(LngLatLike::LngLat(c).to_lng_lat(), c);
}

#[test]
fn set_lat_on_a_lng_lat_changes_the_latitude_only() {
    let mut like = LngLatLike::LngLat(LngLat::new(10, 20));
    like.set_lat(30);
    assert_eq!(like, LngLatLike::LngLat(LngLat::new(10, 30)));
    like.set_lng(40);
    assert_eq!(like, LngLatLike::LngLat(LngLat::new(40, 30)));
}

#[test]
fn setters_keep_the_shape() {
    let mut lon = LngLatLike::LonLatObject { lon: 1, lat: 2 };
    lon.set_lng(5);
    lon.set_lat(6);
    assert_eq!(lon, LngLatLike::LonLatObject { lon: 5, lat: 6 });
    let mut arr = LngLatLike::Array([1, 2]);
    arr.set_lat(9);
    arr.set_lng(8);
    assert_eq!(arr, LngLatLike::Array([8, 9]));
    let mut obj = LngLatLike::LngLatObject { lng: 1, lat: 2 };
    obj.set_lat(3);
    assert_eq!(obj, LngLatLike::LngLatObject { lng: 1, lat: 3 });
}

#[test]
fn shapes_are_sent_with_their_keys() {
    assert_eq!(
        LngLatLike::LonLatObject { lon: 1, lat: 2 }.as_js_value(),
        object(&[("lon", Primitive::Number(1)), ("lat", Primitive::Number(2))])
    );
    assert_eq!(
        LngLatLike::LngLat(LngLat::new(1, 2)).as_js_value(),
        object(&[("lng", Primitive::Number(1)), ("lat", Primitive::Number(2))])
    );
    assert_eq!(
        LngLatLike::Array([1, 2]).as_js_value(),
        HostValue::Array(vec![Primitive::Number(1), Primitive::Number(2)])
    );
}

#[test]
fn shapes_round_trip_through_the_host() {
    let shapes = [
        LngLatLike::LngLatObject { lng: 122_300_000, lat: 144_200_000 },
        LngLatLike::LonLatObject { lon: 122_300_000, lat: 144_200_000 },
        LngLatLike::Array([122_300_000, 144_200_000]),
    ];
    for s in shapes {
        assert_eq!(LngLatLike::from_host(&s.as_js_value()), Ok(s));
    }
    let c = LngLatLike::LngLat(LngLat::new(5, 6));
    assert_eq!(
        LngLatLike::from_host(&c.as_js_value()),
        Ok(LngLatLike::LngLatObject { lng: 5, lat: 6 })
    );
}

#[test]
fn object_without_known_keys_is_a_shape_mismatch() {
    let v = object(&[("foo", Primitive::Number(1)), ("bar", Primitive::Number(2))]);
    assert_eq!(LngLatLike::from_host(&v), Err(Error::ShapeMismatch));
    assert_eq!(normalize(&v), Err(Error::ShapeMismatch));
}

#[test]
fn malformed_coordinates_are_shape_mismatches() {
    let three = HostValue::Array(vec![Primitive::Number(1), Primitive::Number(2), Primitive::Number(3)]);
    let text = HostValue::Array(vec![Primitive::Number(1), Primitive::Text("2".to_string())]);
    let no_lat = object(&[("lng", Primitive::Number(1))]);
    let text_lat = object(&[("lng", Primitive::Number(1)), ("lat", Primitive::Text("x".to_string()))]);
    let scalar = HostValue::Primitive(Primitive::Number(1));
    for v in [three, text, no_lat, text_lat, scalar] {
        assert_eq!(normalize(&v), Err(Error::ShapeMismatch));
    }
}

#[test]
fn object_shapes_are_tried_in_order() {
    let both = object(&[
        ("lon", Primitive::Number(9)),
        ("lng", Primitive::Number(1)),
        ("lat", Primitive::Number(2)),
        ("alt", Primitive::Number(3)),
    ]);
    assert_eq!(LngLatLike::from_host(&both), Ok(LngLatLike::LngLatObject { lng: 1, lat: 2 }));
    let lon = object(&[("lat", Primitive::Number(2)), ("lon", Primitive::Number(1))]);
    assert_eq!(LngLatLike::from_host(&lon), Ok(LngLatLike::LonLatObject { lon: 1, lat: 2 }));
    let first_wins = object(&[
        ("lng", Primitive::Number(1)),
        ("lat", Primitive::Number(2)),
        ("lat", Primitive::Number(3)),
    ]);
    assert_eq!(normalize(&first_wins), Ok(LngLat::new(1, 2)));
}

#[test]
fn conversions_into_coordinates() {
    assert_eq!(LngLat::from([1, 2]), LngLat::new(1, 2));
    assert_eq!(LngLat::from((3, 4)), LngLat::new(3, 4));
    assert_eq!(LngLatLike::from((122_300_000, 144_200_000)), LngLatLike::Array([122_300_000, 144_200_000]));
    assert_eq!(LngLatLike::from([122_300_000, 144_200_000]), LngLatLike::Array([122_300_000, 144_200_000]));
    assert_eq!(LngLatLike::from(LngLat::new(1, 2)), LngLatLike::LngLat(LngLat::new(1, 2)));
}

#[test]
fn text_is_written_in_degrees() {
    assert_eq!(LngLat::new(122_300_000, 144_200_000).to_string(), "LngLat(12.23, 14.42)");
    assert_eq!(LngLat::new(deg(181), 0).wrap().to_string(), "LngLat(-179, 0)");
    assert_eq!(LngLat::new(-5_000_000, 1).to_string(), "LngLat(-0.5, 0.0000001)");
    assert_eq!(LngLat::new(i64::MIN, i64::MAX).to_string(), "LngLat(-922337203685.4775808, 922337203685.4775807)");
}
