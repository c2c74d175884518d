use mqtt_source::mapper::map_message;
use mqtt_source::mapper::MappingError;

fn temp_reading(value: f64) -> serde_json::Value {
    let mut doc = serde_json::Map::new();
    doc.insert("tempC".to_string(), serde_json::Value::from(value));
    serde_json::Value::Object(doc)
}

#[test]
fn sensor_reading_maps_to_expected_record() {
    let payload = br#"{"tempC": 21.5}"#;
    let record = map_message("lfx/drasi/sensors/temp-01", payload).unwrap();
    assert_eq!(record.id, "temp-01");
    assert_eq!(record.labels, vec!["Sensor".to_string(), "IoTDevice".to_string()]);
    assert_eq!(record.properties, temp_reading(21.5));
}

#[test]
fn empty_document_on_trailing_slash_topic_maps_with_sentinel() {
    let record = map_message("lfx/drasi/sensors/", b"{}").unwrap();
    assert_eq!(record.id, "unknown");
    assert_eq!(record.properties, serde_json::Value::Object(serde_json::Map::new()));
}

#[test]
fn mapping_round_trips_the_document() {
    let mut inner = serde_json::Map::new();
    inner.insert("unit".to_string(), serde_json::Value::from("celsius"));
    inner.insert("calibrated".to_string(), serde_json::Value::from(true));
    let mut doc = serde_json::Map::new();
    doc.insert("tempC".to_string(), serde_json::Value::from(21.5));
    doc.insert("seq".to_string(), serde_json::Value::from(7));
    doc.insert("meta".to_string(), serde_json::Value::Object(inner));
    doc.insert("tags".to_string(), serde_json::Value::Array(vec![
        serde_json::Value::from("a"),
        serde_json::Value::Null,
    ]));
    let document = serde_json::Value::Object(doc);

    let encoded = serde_json::to_vec(&document).unwrap();
    let record = map_message("lfx/drasi/sensors/temp-01", &encoded).unwrap();
    assert_eq!(record.properties, document);
}

#[test]
fn malformed_payload_is_a_decode_failure() {
    let err = map_message("lfx/drasi/sensors/temp-01", b"not-json").unwrap_err();
    let MappingError::DecodeFailed { topic, payload_prefix, cause: _ } = err;
    assert_eq!(topic, "lfx/drasi/sensors/temp-01");
    assert_eq!(payload_prefix, b"not-json".to_vec());
}

#[test]
fn empty_payload_is_a_decode_failure() {
    assert!(map_message("lfx/drasi/sensors/temp-01", b"").is_err());
}

#[test]
fn decode_failure_diagnostic_is_truncated() {
    let payload = vec![b'x'; 200];
    let err = map_message("lfx/drasi/sensors/temp-01", &payload).unwrap_err();
    let MappingError::DecodeFailed { payload_prefix, .. } = err;
    assert_eq!(payload_prefix, vec![b'x'; 64]);
}
