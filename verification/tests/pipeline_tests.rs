use mqtt_source::pipeline::process_message;
use mqtt_source::pipeline::process_messages;
use mqtt_source::pipeline::Message;
use mqtt_source::sink::EmissionSink;

fn message(topic: &str, payload: &[u8], received_at: u64) -> Message {
    Message { topic: topic.to_string(), payload: payload.to_vec(), received_at }
}

#[test]
fn records_are_emitted_in_delivery_order() {
    let mut sink = EmissionSink::new();
    let msgs = vec![
        message("lfx/drasi/sensors/temp-01", br#"{"tempC": 20.0}"#, 1),
        message("lfx/drasi/sensors/temp-02", br#"{"tempC": 21.0}"#, 2),
        message("lfx/drasi/sensors/temp-03", br#"{"tempC": 22.0}"#, 3),
    ];
    let failures = process_messages(&mut sink, &msgs);
    assert_eq!(failures, 0);
    assert_eq!(sink.len(), 3);
    assert_eq!(sink.get(0).id, "temp-01");
    assert_eq!(sink.get(1).id, "temp-02");
    assert_eq!(sink.get(2).id, "temp-03");
}

#[test]
fn decode_failure_leaves_prior_records_untouched() {
    let mut sink = EmissionSink::new();
    let good = message("lfx/drasi/sensors/temp-01", br#"{"tempC": 20.0}"#, 1);
    let bad = message("lfx/drasi/sensors/temp-02", b"not-json", 2);
    assert!(process_message(&mut sink, &good).is_ok());
    assert!(process_message(&mut sink, &bad).is_err());
    assert_eq!(sink.len(), 1);
    assert_eq!(sink.get(0).id, "temp-01");
    assert_eq!(
        sink.get(0).properties,
        serde_json::from_slice::<serde_json::Value>(br#"{"tempC": 20.0}"#).unwrap()
    );
}

#[test]
fn bad_message_does_not_interrupt_the_batch() {
    let mut sink = EmissionSink::new();
    let msgs = vec![
        message("lfx/drasi/sensors/temp-01", br#"{"tempC": 20.0}"#, 1),
        message("lfx/drasi/sensors/temp-02", b"not-json", 2),
        message("lfx/drasi/sensors/temp-03", br#"{"tempC": 22.0}"#, 3),
    ];
    let failures = process_messages(&mut sink, &msgs);
    assert_eq!(failures, 1);
    assert_eq!(sink.len(), 2);
    assert_eq!(sink.get(0).id, "temp-01");
    assert_eq!(sink.get(1).id, "temp-03");
}
