use gitrs_server::codec::{
    deserialize, deserialize_outbound, serialize_hello, serialize_inbound, serialize_outbound,
};
use gitrs_server::messages::{
    BisectError, DeserializationError, InboundMessage, OutboundMessage, PayloadText, ProtocolError,
};

fn payload(s: &str) -> PayloadText {
    PayloadText::from_str(s).expect("payload text should need no escaping")
}

#[test]
fn step_frame_bytes_are_exact() {
    let frame = serialize_outbound(&OutboundMessage::Step(payload("abc")));
    assert_eq!(frame, b"{\"type\":\"Step\",\"payload\":\"abc\"}".to_vec());
}

#[test]
fn finish_frame_bytes_are_exact() {
    let frame = serialize_outbound(&OutboundMessage::Finish(payload("culprit 1234")));
    assert_eq!(
        frame,
        b"{\"type\":\"Finish\",\"payload\":\"culprit 1234\"}".to_vec()
    );
}

#[test]
fn error_frame_bytes_are_exact() {
    let frame = serialize_outbound(&OutboundMessage::Error(BisectError::RepoPathNotSet));
    assert_eq!(
        frame,
        b"{\"type\":\"Error\",\"reason\":\"RepoPathNotSet\"}".to_vec()
    );
}

#[test]
fn outbound_frames_are_json_to_an_off_the_shelf_codec() {
    let frame = serialize_outbound(&OutboundMessage::Step(payload("at point 7")));
    let v: serde_json::Value = serde_json::from_slice(&frame).expect("frame should be JSON");
    assert_eq!(v["type"], "Step");
    assert_eq!(v["payload"], "at point 7");

    let frame = serialize_outbound(&OutboundMessage::Error(BisectError::RepoPathNotSet));
    let v: serde_json::Value = serde_json::from_slice(&frame).expect("frame should be JSON");
    assert_eq!(v["type"], "Error");
    assert_eq!(v["reason"], "RepoPathNotSet");
}

#[test]
fn hello_frame_carries_the_version() {
    let frame = serialize_hello(0, 1, 0);
    assert_eq!(frame, b"{\"type\":\"Hello\",\"version\":\"0.1.0\"}".to_vec());
    let v: serde_json::Value = serde_json::from_slice(&frame).expect("frame should be JSON");
    assert_eq!(v["type"], "Hello");
    assert_eq!(v["version"], "0.1.0");
}

#[test]
fn hello_frame_renders_multi_digit_components() {
    let frame = serialize_hello(12, 340, 5);
    assert_eq!(frame, b"{\"type\":\"Hello\",\"version\":\"12.340.5\"}".to_vec());
}

#[test]
fn inbound_frames_deserialize() {
    assert_eq!(
        deserialize(b"{\"type\":\"Good\"}"),
        Ok(InboundMessage::Good)
    );
    assert_eq!(deserialize(b"{\"type\":\"Bad\"}"), Ok(InboundMessage::Bad));
}

#[test]
fn inbound_round_trip() {
    for m in [InboundMessage::Good, InboundMessage::Bad] {
        let frame = serialize_inbound(&m);
        assert_eq!(deserialize(&frame), Ok(m));
    }
}

#[test]
fn invalid_text_is_an_encoding_error() {
    let r = deserialize(&[0xff, 0xfe, 0x22]);
    assert_eq!(
        r,
        Err(ProtocolError::Deserialization(DeserializationError::Encoding))
    );
    let r = deserialize_outbound(&[0xff, 0xfe, 0x22]);
    assert!(matches!(
        r,
        Err(ProtocolError::Deserialization(DeserializationError::Encoding))
    ));
}

#[test]
fn unknown_type_is_a_structural_error() {
    let r = deserialize(b"{\"type\":\"Shrug\"}");
    assert_eq!(
        r,
        Err(ProtocolError::Deserialization(DeserializationError::Schema))
    );
    let r = deserialize_outbound(b"{\"type\":\"Shrug\",\"payload\":\"x\"}");
    assert!(matches!(
        r,
        Err(ProtocolError::Deserialization(DeserializationError::Schema))
    ));
}

#[test]
fn valid_json_of_the_wrong_shape_is_a_structural_error() {
    let r = deserialize(b"[1,2,3]");
    assert_eq!(
        r,
        Err(ProtocolError::Deserialization(DeserializationError::Schema))
    );
}

#[test]
fn outbound_round_trip() {
    let m = OutboundMessage::Step(payload("first candidate"));
    let frame = serialize_outbound(&m);
    assert_eq!(deserialize_outbound(&frame), Ok(m));

    let m = OutboundMessage::Finish(payload("done"));
    let frame = serialize_outbound(&m);
    assert_eq!(deserialize_outbound(&frame), Ok(m));

    let m = OutboundMessage::Error(BisectError::RepoPathNotSet);
    let frame = serialize_outbound(&m);
    assert_eq!(deserialize_outbound(&frame), Ok(m));
}

#[test]
fn empty_payload_round_trips() {
    let m = OutboundMessage::Step(payload(""));
    let frame = serialize_outbound(&m);
    assert_eq!(frame, b"{\"type\":\"Step\",\"payload\":\"\"}".to_vec());
    assert_eq!(deserialize_outbound(&frame), Ok(m));
}

#[test]
fn payload_text_refuses_what_would_need_escaping() {
    assert!(PayloadText::from_str("plain text 123").is_some());
    assert!(PayloadText::from_str("has \"quotes\"").is_none());
    assert!(PayloadText::from_str("back\\slash").is_none());
    assert!(PayloadText::from_str("line\nbreak").is_none());
}

#[test]
fn payload_text_keeps_its_bytes() {
    let p = payload("kept as is");
    assert_eq!(p.bytes().as_slice(), b"kept as is");
}
