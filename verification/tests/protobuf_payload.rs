use fnsd::protocol::payload::{
    decode_fields, decode_nested, decode_response_payload, encode_nested, encode_request_payload,
    request_message_kinds, request_payload_fits, Field, NestedMessage, RequestPayload, Scalar,
};
use fnsd::protocol::{ProtocolError, RequestMessage, ResponseMessage};

fn text(s: &str) -> Field {
    Field::Scalar(Scalar::Text(s.to_string()))
}

#[test]
fn ack_payload_fields_by_number() {
    let bytes = [0x08, 5, 0x12, 1, b'a'];
    let p = decode_response_payload(ResponseMessage::Ack, &bytes).unwrap();
    assert_eq!(p.message, ResponseMessage::Ack);
    assert_eq!(p.fields, vec![Field::Scalar(Scalar::Int64(5)), text("a"), text("")]);
}

#[test]
fn payload_defaults_negative_numbers_and_last_value_wins() {
    let mut bytes = vec![0x08, 0xff, 0xff, 0xff, 0xff, 0xff, 0xff, 0xff, 0xff, 0xff, 0x01];
    bytes.extend([0x1a, 1, b'x', 0x1a, 1, b'y']);
    let p = decode_response_payload(ResponseMessage::Ack, &bytes).unwrap();
    assert_eq!(p.fields, vec![Field::Scalar(Scalar::Int64(-1)), text(""), text("y")]);
    let empty = decode_response_payload(ResponseMessage::FolderSyncEnd, &[]).unwrap();
    assert_eq!(empty.fields, vec![Field::Scalar(Scalar::Int64(0)); 3]);
}

#[test]
fn repeated_nested_messages_are_collected_in_order() {
    // CheckVersionInfo field 7 holds historical versions.
    let bytes = [0x3a, 3, 0x0a, 1, b'1', 0x08, 1, 0x3a, 3, 0x12, 1, b'c'];
    let p = decode_response_payload(ResponseMessage::CheckVersionInfo, &bytes).unwrap();
    assert_eq!(p.fields[0], Field::Scalar(Scalar::Bool(true)));
    assert_eq!(
        p.fields[6],
        Field::Repeated(vec![
            vec![Scalar::Text("1".into()), Scalar::Text(String::new())],
            vec![Scalar::Text(String::new()), Scalar::Text("c".into())],
        ])
    );
    assert_eq!(p.fields[12], Field::Repeated(vec![]));
}

#[test]
fn payload_errors() {
    // A string field sent as a varint.
    assert!(matches!(
        decode_response_payload(ResponseMessage::Ack, &[0x10, 1]),
        Err(ProtocolError::Protobuf(_))
    ));
    // A nested message that is cut short.
    assert!(matches!(
        decode_response_payload(ResponseMessage::CheckVersionInfo, &[0x3a, 2, 0x0a, 5]),
        Err(ProtocolError::Protobuf(_))
    ));
    // Unknown fields are passed over.
    let p = decode_response_payload(ResponseMessage::SettingSyncNeedUpload, &[0x48, 7, 0x0a, 1, b'p']).unwrap();
    assert_eq!(p.fields, vec![text("p")]);
}

#[test]
fn request_payload_encoding_leaves_out_defaults() {
    let req = RequestPayload {
        message: RequestMessage::NoteDelete,
        fields: vec![text("v"), text(""), text("h")],
    };
    assert!(request_payload_fits(&req));
    assert_eq!(encode_request_payload(&req), vec![0x0a, 1, b'v', 0x1a, 1, b'h']);
    let get = RequestPayload {
        message: RequestMessage::NoteGet,
        fields: vec![text(""), text(""), text(""), Field::Scalar(Scalar::Bool(true))],
    };
    assert_eq!(encode_request_payload(&get), vec![0x20, 1]);
}

#[test]
fn request_payload_shape_is_checked() {
    let wrong_count = RequestPayload { message: RequestMessage::NoteDelete, fields: vec![text("v")] };
    assert!(!request_payload_fits(&wrong_count));
    let wrong_type = RequestPayload {
        message: RequestMessage::NoteDelete,
        fields: vec![text("v"), Field::Scalar(Scalar::Bool(true)), text("h")],
    };
    assert!(!request_payload_fits(&wrong_type));
}

#[test]
fn request_payload_roundtrip_with_nested_messages() {
    let check = vec![Scalar::Text("a".into()), Scalar::Text("h".into()), Scalar::Int64(-7)];
    let del = vec![Scalar::Text("b".into()), Scalar::Text(String::new())];
    let fields = vec![
        text(""),
        text("vault"),
        Field::Scalar(Scalar::Int64(1_700_000_000_000)),
        Field::Repeated(vec![check.clone()]),
        Field::Repeated(vec![del.clone(), del.clone()]),
        Field::Repeated(vec![]),
    ];
    let req = RequestPayload { message: RequestMessage::FolderSync, fields: fields.clone() };
    assert!(request_payload_fits(&req));
    let bytes = encode_request_payload(&req);
    let kinds = request_message_kinds(RequestMessage::FolderSync);
    assert_eq!(decode_fields(&kinds, &bytes).unwrap(), fields);
    let nested = encode_nested(&check);
    assert_eq!(decode_nested(NestedMessage::FolderSyncCheck, &nested).unwrap(), check);
}
