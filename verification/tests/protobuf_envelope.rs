use fnsd::protocol::envelope::encode_ws_envelope;
use fnsd::protocol::{
    decode_protobuf_frame, decode_ws_message, decode_ws_response, encode_protobuf_frame,
    encode_ws_message, Action, ProtocolError, ResponseMessage,
};

/// A length-delimited field: key, one-byte length, payload.
fn field(tag: u8, payload: &[u8]) -> Vec<u8> {
    assert!(payload.len() < 128);
    let mut out = vec![(tag << 3) | 2, payload.len() as u8];
    out.extend_from_slice(payload);
    out
}

fn response_bytes(code: u8, status: bool, message: &str, data: &[u8], vault: &str) -> Vec<u8> {
    assert!(code < 128);
    let mut out = vec![0x08, code, 0x10, status as u8];
    out.extend(field(3, message.as_bytes()));
    out.extend(field(4, data));
    out.extend(field(6, vault.as_bytes()));
    out
}

#[test]
fn ws_message_encoding_is_prefix_then_fields() {
    let frame = encode_ws_message(Action::NoteSync, vec![7, 8]);
    let mut expected = b"pb".to_vec();
    expected.extend(field(1, b"NoteSync"));
    expected.extend(field(2, &[7, 8]));
    assert_eq!(frame, expected);
}

#[test]
fn ws_envelope_leaves_out_empty_fields() {
    assert_eq!(encode_ws_envelope(&String::new(), &Vec::new()), Vec::<u8>::new());
    assert_eq!(encode_ws_envelope(&"A".to_string(), &Vec::new()), vec![0x0a, 1, b'A']);
    assert_eq!(encode_ws_envelope(&String::new(), &vec![5]), vec![0x12, 1, 5]);
}

#[test]
fn ws_message_roundtrip() {
    let name = "FileUploadCheck".to_string();
    let data: Vec<u8> = (0..200u8).collect();
    let envelope = encode_ws_envelope(&name, &data);
    // The 200-byte payload takes a two-byte length.
    assert_eq!(&envelope[17..20], &[0x12, 0xc8, 0x01]);
    assert_eq!(decode_ws_message(&envelope).unwrap(), (name, data));
}

#[test]
fn ws_message_later_fields_win_and_unknown_fields_are_skipped() {
    let mut bytes = field(1, b"Old");
    bytes.extend([0x18, 0x96, 0x01]); // field 3, varint 150
    bytes.extend([0x25, 1, 2, 3, 4]); // field 4, 32-bit
    bytes.extend(field(1, b"New"));
    bytes.extend(field(9, b"ignored"));
    assert_eq!(decode_ws_message(&bytes).unwrap(), ("New".to_string(), vec![]));
}

#[test]
fn ws_message_errors() {
    // Truncated payload.
    assert!(matches!(decode_ws_message(&[0x0a, 5, b'a']), Err(ProtocolError::Protobuf(_))));
    // Invalid UTF-8 in the action name.
    assert!(matches!(decode_ws_message(&[0x0a, 1, 0xff]), Err(ProtocolError::Protobuf(_))));
    // Tag zero.
    assert!(matches!(decode_ws_message(&[0x02, 0]), Err(ProtocolError::Protobuf(_))));
    // Wire type 7 does not exist.
    assert!(matches!(decode_ws_message(&[0x0f]), Err(ProtocolError::Protobuf(_))));
    // Action name sent with the varint wire type.
    assert!(matches!(decode_ws_message(&[0x08, 1]), Err(ProtocolError::Protobuf(_))));
    assert_eq!(decode_ws_message(&[]).unwrap(), (String::new(), vec![]));
}

#[test]
fn ws_response_fields() {
    let mut bytes = response_bytes(100, true, "ok", &[1, 2], "main");
    bytes.extend(field(5, b"more"));
    bytes.extend(field(7, b"ctx"));
    let r = decode_ws_response(&bytes).unwrap();
    assert_eq!(r.code, 100);
    assert!(r.status);
    assert_eq!(r.message, "ok");
    assert_eq!(r.data, vec![1, 2]);
    assert_eq!(r.details, "more");
    assert_eq!(r.vault, "main");
    assert_eq!(r.context, "ctx");
}

#[test]
fn ws_response_negative_code_and_bad_status() {
    // -1 as int32 is ten varint bytes.
    let bytes = [0x08, 0xff, 0xff, 0xff, 0xff, 0xff, 0xff, 0xff, 0xff, 0xff, 0x01];
    assert_eq!(decode_ws_response(&bytes).unwrap().code, -1);
    // Status sent length-delimited.
    assert!(matches!(decode_ws_response(&[0x12, 0]), Err(ProtocolError::Protobuf(_))));
    // An eleven-byte varint is refused.
    let long = [0x08, 0x80, 0x80, 0x80, 0x80, 0x80, 0x80, 0x80, 0x80, 0x80, 0x80, 0x01];
    assert!(matches!(decode_ws_response(&long), Err(ProtocolError::Protobuf(_))));
}

fn frame(action: &str, response: &[u8]) -> Vec<u8> {
    let mut bytes = field(1, action.as_bytes());
    bytes.extend(field(2, response));
    bytes
}

#[test]
fn protobuf_frame_decodes_response_and_payload_kind() {
    let bytes = frame("NoteSyncModify", &response_bytes(1, true, "m", &[9], ""));
    let r = decode_protobuf_frame(&bytes).unwrap();
    assert_eq!(r.action, Action::NoteSyncModify);
    assert_eq!(r.code, 1);
    assert!(r.status);
    assert_eq!(r.message, "m");
    assert_eq!(r.payload, Some(ResponseMessage::NoteSyncModify));
    assert_eq!(r.data, vec![9]);
    assert_eq!(r.details, None);
    assert_eq!(r.vault, None);
    assert_eq!(r.context, None);
}

#[test]
fn protobuf_frame_optional_strings_and_empty_payload() {
    let bytes = frame("Authorization", &response_bytes(0, false, "", &[], "v1"));
    let r = decode_protobuf_frame(&bytes).unwrap();
    assert_eq!(r.action, Action::Authorization);
    assert_eq!(r.payload, None);
    assert_eq!(r.vault, Some("v1".to_string()));
}

#[test]
fn protobuf_frame_errors() {
    assert!(matches!(
        decode_protobuf_frame(&frame("NoSuchAction", &[])),
        Err(ProtocolError::UnknownAction(name)) if name == "NoSuchAction"
    ));
    assert!(matches!(
        decode_protobuf_frame(&frame("Authorization", &response_bytes(0, true, "", &[1], ""))),
        Err(ProtocolError::UnsupportedProtobufAction(name)) if name == "Authorization"
    ));
    assert!(matches!(
        decode_protobuf_frame(&frame("NoteSync", &[0x0a, 3])),
        Err(ProtocolError::Protobuf(_))
    ));
    assert!(matches!(decode_protobuf_frame(&[0xff]), Err(ProtocolError::Protobuf(_))));
}

#[test]
fn protobuf_request_frames() {
    let framed = encode_protobuf_frame(Action::FolderSync, vec![1]).unwrap();
    assert_eq!(framed, encode_ws_message(Action::FolderSync, vec![1]));
    assert!(matches!(
        encode_protobuf_frame(Action::NoteSyncEnd, vec![]),
        Err(ProtocolError::UnsupportedProtobufAction(name)) if name == "NoteSyncEnd"
    ));
    let decoded = decode_ws_message(&framed[2..]).unwrap();
    assert_eq!(decoded, ("FolderSync".to_string(), vec![1]));
}

#[test]
fn ws_message_skips_unknown_groups() {
    // Field 5 as a group holding a varint field, then the action name.
    let mut bytes = vec![0x2b, 0x08, 0x01, 0x2c];
    bytes.extend(field(1, b"NoteSync"));
    assert_eq!(decode_ws_message(&bytes).unwrap(), ("NoteSync".to_string(), vec![]));
    // A group closed under another tag is refused.
    assert!(matches!(decode_ws_message(&[0x2b, 0x34]), Err(ProtocolError::Protobuf(_))));
    // An end-group key on its own is refused.
    assert!(matches!(decode_ws_message(&[0x2c]), Err(ProtocolError::Protobuf(_))));
    // A group that is never closed is refused.
    assert!(matches!(decode_ws_message(&[0x2b, 0x08, 0x01]), Err(ProtocolError::Protobuf(_))));
}
