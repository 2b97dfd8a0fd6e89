use geobuffer::{kind_label, BufferResult, GeomKind};

#[test]
fn failure_envelope_is_exact() {
    let r = BufferResult::failure("boom".to_string());
    assert_eq!(r.to_json(), "{\"geojson\":\"\",\"error\":\"boom\"}");
}

#[test]
fn success_envelope_is_exact() {
    let r = BufferResult::success("{\"type\":\"Point\"}".to_string());
    assert_eq!(
        r.to_json(),
        "{\"geojson\":\"{\\\"type\\\":\\\"Point\\\"}\",\"error\":null}"
    );
}

#[test]
fn envelope_escapes_metacharacters() {
    let r = BufferResult::failure("a\"b\\c\nd\re\tf".to_string());
    assert_eq!(
        r.to_json(),
        "{\"geojson\":\"\",\"error\":\"a\\\"b\\\\c\\nd\\re\\tf\"}"
    );
}

#[test]
fn envelope_escapes_control_characters() {
    let r = BufferResult::failure("\u{1}\u{1f}".to_string());
    assert_eq!(r.to_json(), "{\"geojson\":\"\",\"error\":\"\\u0001\\u001f\"}");
}

#[test]
fn escaped_envelope_round_trips_through_json() {
    let message = "quote \" slash \\ newline \n tab \t".to_string();
    let r = BufferResult::failure(message.clone());
    let v: serde_json::Value = serde_json::from_str(&r.to_json()).expect("well-formed JSON");
    assert_eq!(v["error"].as_str(), Some(message.as_str()));
    assert_eq!(v["geojson"].as_str(), Some(""));
}

#[test]
fn ten_kind_labels_are_fixed_and_distinct() {
    let labels = [
        (GeomKind::Point, "Point"),
        (GeomKind::Line, "Line"),
        (GeomKind::LineString, "LineString"),
        (GeomKind::Polygon, "Polygon"),
        (GeomKind::MultiPoint, "MultiPoint"),
        (GeomKind::MultiLineString, "MultiLineString"),
        (GeomKind::MultiPolygon, "MultiPolygon"),
        (GeomKind::GeometryCollection, "GeometryCollection"),
        (GeomKind::Rect, "Rect"),
        (GeomKind::Triangle, "Triangle"),
    ];
    for (kind, expected) in labels {
        assert_eq!(kind_label(&kind), expected);
    }
    for i in 0..labels.len() {
        for j in 0..labels.len() {
            if i != j {
                assert_ne!(kind_label(&labels[i].0), kind_label(&labels[j].0));
            }
        }
    }
}
