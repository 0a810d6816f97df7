use serde_json::Value;
use udp_relay::envelope::{decode, decode_text, encode, encode_text, DecodeError, Envelope};

fn object(entries: Vec<(&str, Value)>) -> Value {
    let mut map = serde_json::Map::new();
    for (key, value) in entries {
        map.insert(key.to_string(), value);
    }
    Value::Object(map)
}

fn sample() -> Envelope {
    Envelope {
        kind: "greeting".to_string(),
        payload: object(vec![
            ("text", Value::String("h\u{e9}llo \"world\"".to_string())),
            ("tags", Value::Array(vec![Value::from(1u64), Value::Null, Value::Bool(true)])),
            ("depth", Value::from(-3i64)),
        ]),
        timestamp: 1_700_000_000_123,
    }
}

#[test]
fn encode_writes_the_three_members() {
    let envelope = Envelope {
        kind: "number".to_string(),
        payload: object(vec![("value", Value::from(42u64))]),
        timestamp: 1_700_000_000_000,
    };
    let bytes = encode(&envelope).unwrap();
    assert_eq!(
        String::from_utf8(bytes).unwrap(),
        "{\"data\":{\"value\":42},\"timestamp\":1700000000000,\"type\":\"number\"}"
    );
}

#[test]
fn encode_keeps_the_envelope() {
    let envelope = sample();
    let _ = encode(&envelope).unwrap();
    assert_eq!(envelope, sample());
}

#[test]
fn decode_reads_what_encode_wrote() {
    let envelope = sample();
    let bytes = encode(&envelope).unwrap();
    let back = decode(&bytes).unwrap();
    assert_eq!(back.kind, envelope.kind);
    assert_eq!(back.payload, envelope.payload);
    assert_eq!(back.timestamp, envelope.timestamp);
}

#[test]
fn round_trip_at_the_edges() {
    for (kind, payload, timestamp) in vec![
        ("", Value::Null, 0u64),
        ("k", Value::String(String::new()), u64::MAX),
        ("type", object(vec![("type", Value::from(1u64)), ("data", Value::Null)]), 1u64),
        ("\u{1F600}", Value::Array(vec![]), 9_007_199_254_740_993u64),
    ] {
        let envelope = Envelope { kind: kind.to_string(), payload, timestamp };
        let back = decode(&encode(&envelope).unwrap()).unwrap();
        assert_eq!(back, envelope);
    }
}

#[test]
fn to_value_and_from_value_agree() {
    let envelope = sample();
    let value = envelope.to_value();
    assert_eq!(
        value,
        object(vec![
            ("type", Value::String("greeting".to_string())),
            ("data", envelope.payload.clone()),
            ("timestamp", Value::from(1_700_000_000_123u64)),
        ])
    );
    assert_eq!(Envelope::from_value(&value).unwrap(), envelope);
}

#[test]
fn decode_reads_a_plain_datagram() {
    let text = "{ \"type\": \"note\", \"data\": [1, \"two\"], \"timestamp\": 12 }";
    let envelope = decode(text.as_bytes()).unwrap();
    assert_eq!(envelope.kind, "note");
    assert_eq!(
        envelope.payload,
        Value::Array(vec![Value::from(1u64), Value::String("two".to_string())])
    );
    assert_eq!(envelope.timestamp, 12);
}

#[test]
fn decode_ignores_other_members() {
    let text = "{\"extra\":true,\"type\":\"a\",\"data\":null,\"timestamp\":7,\"more\":[]}";
    let envelope = decode(text.as_bytes()).unwrap();
    assert_eq!(envelope.kind, "a");
    assert_eq!(envelope.payload, Value::Null);
    assert_eq!(envelope.timestamp, 7);
}

#[test]
fn decode_rejects_bytes_that_are_no_text() {
    assert_eq!(decode(&[0xff, 0xfe, 0x7b]).unwrap_err(), DecodeError::NotText);
    assert_eq!(decode(&[0xc3]).unwrap_err(), DecodeError::NotText);
}

#[test]
fn decode_rejects_text_that_is_no_json() {
    assert_eq!(decode(b"hello").unwrap_err(), DecodeError::NotJson);
    assert_eq!(decode(b"").unwrap_err(), DecodeError::NotJson);
    assert_eq!(decode(b"{\"type\":\"a\",").unwrap_err(), DecodeError::NotJson);
    assert_eq!(decode(b"{} {}").unwrap_err(), DecodeError::NotJson);
}

#[test]
fn decode_rejects_a_missing_kind() {
    assert_eq!(decode(b"{\"data\":1,\"timestamp\":2}").unwrap_err(), DecodeError::MissingKind);
    assert_eq!(
        decode(b"{\"type\":5,\"data\":1,\"timestamp\":2}").unwrap_err(),
        DecodeError::MissingKind
    );
    assert_eq!(decode(b"{}").unwrap_err(), DecodeError::MissingKind);
}

#[test]
fn decode_rejects_a_value_that_is_no_object() {
    assert_eq!(decode(b"42").unwrap_err(), DecodeError::MissingKind);
    assert_eq!(decode(b"[\"a\", null, 3]").unwrap_err(), DecodeError::MissingKind);
    assert_eq!(decode(b"null").unwrap_err(), DecodeError::MissingKind);
}

#[test]
fn decode_rejects_a_missing_payload() {
    assert_eq!(decode(b"{\"type\":\"a\",\"timestamp\":2}").unwrap_err(), DecodeError::MissingPayload);
    assert_eq!(decode(b"{\"type\":\"a\"}").unwrap_err(), DecodeError::MissingPayload);
}

#[test]
fn decode_rejects_a_missing_timestamp() {
    assert_eq!(decode(b"{\"type\":\"a\",\"data\":1}").unwrap_err(), DecodeError::MissingTimestamp);
    for bad in ["-1", "1.5", "\"12\"", "null", "18446744073709551616"] {
        let text = format!("{{\"type\":\"a\",\"data\":1,\"timestamp\":{}}}", bad);
        assert_eq!(decode(text.as_bytes()).unwrap_err(), DecodeError::MissingTimestamp);
    }
}

#[test]
fn decode_takes_the_largest_timestamp() {
    let text = "{\"type\":\"a\",\"data\":1,\"timestamp\":18446744073709551615}";
    assert_eq!(decode(text.as_bytes()).unwrap().timestamp, u64::MAX);
}

#[test]
fn from_value_reports_the_first_fault() {
    assert_eq!(Envelope::from_value(&Value::Null).unwrap_err(), DecodeError::MissingKind);
    let no_payload = object(vec![("type", Value::String("a".to_string()))]);
    assert_eq!(Envelope::from_value(&no_payload).unwrap_err(), DecodeError::MissingPayload);
    let bad_stamp = object(vec![
        ("type", Value::String("a".to_string())),
        ("data", Value::Null),
        ("timestamp", Value::Bool(true)),
    ]);
    assert_eq!(Envelope::from_value(&bad_stamp).unwrap_err(), DecodeError::MissingTimestamp);
}

#[test]
fn encode_text_is_the_text_of_the_datagram() {
    let envelope = sample();
    let text = encode_text(&envelope).unwrap();
    assert_eq!(text.as_bytes(), encode(&envelope).unwrap().as_slice());
    assert_eq!(
        text,
        "{\"data\":{\"depth\":-3,\"tags\":[1,null,true],\"text\":\"h\u{e9}llo \\\"world\\\"\"},\"timestamp\":1700000000123,\"type\":\"greeting\"}"
    );
}

#[test]
fn decode_text_reads_an_envelope() {
    let envelope = decode_text("{\"timestamp\":1,\"data\":\"x\",\"type\":\"t\"}").unwrap();
    assert_eq!(envelope.kind, "t");
    assert_eq!(envelope.payload, Value::String("x".to_string()));
    assert_eq!(envelope.timestamp, 1);
    assert_eq!(decode_text("{").unwrap_err(), DecodeError::NotJson);
    assert_eq!(decode_text("{\"type\":\"t\"}").unwrap_err(), DecodeError::MissingPayload);
}
