use serde_json::Value;
use udp_relay::envelope::decode;
use udp_relay::sender::{
    check_number, datagram, loopback_address, message_datagram, message_envelope, number_datagram,
    number_envelope, number_payload, number_route, route, send_reply, sent_ack, Route, SendError,
    MAX_NUMBER,
};
use udp_relay::text::{joined, port_text};

fn value_object(n: u64) -> Value {
    let mut map = serde_json::Map::new();
    map.insert("value".to_string(), Value::from(n));
    Value::Object(map)
}

#[test]
fn the_limit_is_one_million() {
    assert_eq!(MAX_NUMBER, 1_000_000);
}

#[test]
fn check_number_accepts_the_range() {
    assert!(check_number(0).is_ok());
    assert!(check_number(42).is_ok());
    assert!(check_number(1_000_000).is_ok());
}

#[test]
fn check_number_rejects_above_the_limit() {
    assert!(matches!(check_number(1_000_001), Err(SendError::Validation)));
    assert!(matches!(check_number(u32::MAX), Err(SendError::Validation)));
}

#[test]
fn number_datagram_at_the_boundary() {
    assert!(number_datagram(1_000_000, 1).is_ok());
    assert!(number_datagram(0, 1).is_ok());
    assert!(matches!(number_datagram(1_000_001, 1), Err(SendError::Validation)));
}

#[test]
fn number_datagram_is_the_wire_form() {
    let bytes = number_datagram(42, 1_700_000_000_000).unwrap();
    assert_eq!(
        String::from_utf8(bytes).unwrap(),
        "{\"data\":{\"value\":42},\"timestamp\":1700000000000,\"type\":\"number\"}"
    );
    let zero = number_datagram(0, 0).unwrap();
    assert_eq!(
        String::from_utf8(zero).unwrap(),
        "{\"data\":{\"value\":0},\"timestamp\":0,\"type\":\"number\"}"
    );
}

#[test]
fn number_payload_holds_the_value() {
    assert_eq!(number_payload(42), value_object(42));
    assert_eq!(number_payload(1_000_000), value_object(1_000_000));
}

#[test]
fn number_envelope_is_stamped_by_the_sender() {
    let envelope = number_envelope(7, 99).unwrap();
    assert_eq!(envelope.kind, "number");
    assert_eq!(envelope.payload, value_object(7));
    assert_eq!(envelope.timestamp, 99);
    assert!(matches!(number_envelope(2_000_000, 99), Err(SendError::Validation)));
}

#[test]
fn message_envelope_keeps_its_parts() {
    let envelope = message_envelope("chat".to_string(), Value::String("hi".to_string()), 5);
    assert_eq!(envelope.kind, "chat");
    assert_eq!(envelope.payload, Value::String("hi".to_string()));
    assert_eq!(envelope.timestamp, 5);
}

#[test]
fn message_datagram_decodes_to_the_message() {
    let payload = Value::Array(vec![Value::from(1u64), Value::Null]);
    let bytes = message_datagram("list".to_string(), payload.clone(), 1234).unwrap();
    assert_eq!(
        String::from_utf8(bytes.clone()).unwrap(),
        "{\"data\":[1,null],\"timestamp\":1234,\"type\":\"list\"}"
    );
    let back = decode(&bytes).unwrap();
    assert_eq!(back.kind, "list");
    assert_eq!(back.payload, payload);
    assert_eq!(back.timestamp, 1234);
}

#[test]
fn datagram_matches_message_datagram() {
    let envelope = message_envelope("a".to_string(), Value::Bool(false), 3);
    let one = datagram(&envelope).unwrap();
    let two = message_datagram("a".to_string(), Value::Bool(false), 3).unwrap();
    assert_eq!(one, two);
}

#[test]
fn send_errors_say_what_failed() {
    assert_eq!(SendError::Validation.message(), "Number must be between 0-1000000");
    assert_eq!(
        SendError::Bind("address in use".to_string()).message(),
        "Failed to create socket: address in use"
    );
    assert_eq!(
        SendError::Encode("key must be a string".to_string()).message(),
        "Failed to serialize: key must be a string"
    );
    assert_eq!(
        SendError::Transport("network unreachable".to_string()).message(),
        "Failed to send: network unreachable"
    );
}

#[test]
fn sent_ack_is_sent() {
    assert_eq!(sent_ack(), "Sent");
}

#[test]
fn loopback_address_names_the_port() {
    assert_eq!(loopback_address(0), "127.0.0.1:0");
    assert_eq!(loopback_address(8080), "127.0.0.1:8080");
    assert_eq!(loopback_address(65535), "127.0.0.1:65535");
}

#[test]
fn port_text_is_decimal() {
    assert_eq!(port_text(0), "0");
    assert_eq!(port_text(9), "9");
    assert_eq!(port_text(10), "10");
    assert_eq!(port_text(100), "100");
    assert_eq!(port_text(1234), "1234");
    assert_eq!(port_text(56789), "56789");
    assert_eq!(port_text(65535), "65535");
}

#[test]
fn port_text_agrees_with_std() {
    for port in [1u16, 19, 20, 99, 101, 999, 1000, 4096, 40000, 65534] {
        assert_eq!(port_text(port), port.to_string());
    }
}

#[test]
fn joined_puts_head_before_tail() {
    assert_eq!(joined("ab", "cd"), "abcd");
    assert_eq!(joined("", "x"), "x");
    assert_eq!(joined("x", ""), "x");
}

#[test]
fn a_route_leaves_from_an_ephemeral_port() {
    assert_eq!(
        route(9000),
        Route { local: "127.0.0.1:0".to_string(), target: "127.0.0.1:9000".to_string() }
    );
}

#[test]
fn no_route_for_a_number_out_of_range() {
    assert!(matches!(number_route(1_000_001, 9000), Err(SendError::Validation)));
    assert_eq!(number_route(1_000_000, 9000).unwrap(), route(9000));
    assert_eq!(number_route(0, 1).unwrap().target, "127.0.0.1:1");
}

#[test]
fn send_reply_acknowledges_or_explains() {
    assert_eq!(send_reply(Ok(())), Ok("Sent".to_string()));
    assert_eq!(
        send_reply(Err(SendError::Validation)),
        Err("Number must be between 0-1000000".to_string())
    );
    assert_eq!(
        send_reply(Err(SendError::Transport("refused".to_string()))),
        Err("Failed to send: refused".to_string())
    );
}
