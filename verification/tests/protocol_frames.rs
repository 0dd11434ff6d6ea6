use fnsd::protocol::binary::{FILE_CHUNK_HEADER_LEN, FILE_CHUNK_SESSION_ID_LEN};
use fnsd::protocol::session::offline_sync_strategy_field;
use fnsd::protocol::{
    decode_binary_frame, decode_file_chunk_payload, encode_binary_frame,
    encode_file_chunk_payload, frame_ws_message, optional_string, request_message,
    response_message, Action, BinaryFrame, FileChunkFrame, OfflineSyncStrategy, ProtocolError,
    RequestMessage, ResponseMessage, BINARY_PREFIX_FILE_SYNC, PROTOBUF_BINARY_PREFIX,
};

const SESSION: &str = "0123456789abcdef0123456789abcdef0123";

#[test]
fn binary_frame_roundtrip() {
    let frame = encode_binary_frame(BINARY_PREFIX_FILE_SYNC, &[1, 2, 3]).unwrap();
    assert_eq!(frame, vec![b'0', b'0', 1, 2, 3]);
    let decoded = decode_binary_frame(&frame).unwrap();
    assert_eq!(decoded.prefix(), *b"00");
    assert_eq!(decoded.prefix_str(), "00");
    assert_eq!(decoded.payload(), &[1, 2, 3]);
    assert_eq!(decoded, BinaryFrame::new("00", vec![1, 2, 3]).unwrap());
    assert_eq!(decoded.into_parts(), (*b"00", vec![1, 2, 3]));
}

#[test]
fn binary_frame_prefix_must_be_two_bytes() {
    assert_eq!(encode_binary_frame("0", &[]), Err(ProtocolError::InvalidBinaryPrefix));
    assert_eq!(encode_binary_frame("000", &[]), Err(ProtocolError::InvalidBinaryPrefix));
    // One two-byte character is a valid prefix.
    assert_eq!(encode_binary_frame("é", &[9]).unwrap(), vec![0xc3, 0xa9, 9]);
    assert_eq!(BinaryFrame::new("x", vec![]), Err(ProtocolError::InvalidBinaryPrefix));
}

#[test]
fn short_binary_frames_are_refused() {
    assert_eq!(decode_binary_frame(&[]), Err(ProtocolError::InvalidBinaryPrefix));
    assert_eq!(decode_binary_frame(&[b'0']), Err(ProtocolError::InvalidBinaryPrefix));
    assert_eq!(decode_binary_frame(b"pb").unwrap().payload(), &[] as &[u8]);
}

#[test]
fn binary_frame_prefix_str_replaces_invalid_utf8() {
    let frame = decode_binary_frame(&[0xff, b'a', 7]).unwrap();
    assert_eq!(frame.prefix_str(), "\u{fffd}a");
}

#[test]
fn file_chunk_roundtrip() {
    let chunk = FileChunkFrame::new(SESSION.to_string(), 0x01020304, vec![9, 8, 7]).unwrap();
    let payload = encode_file_chunk_payload(&chunk);
    assert_eq!(payload.len(), FILE_CHUNK_HEADER_LEN + 3);
    assert_eq!(&payload[..FILE_CHUNK_SESSION_ID_LEN], SESSION.as_bytes());
    assert_eq!(&payload[36..40], &[1, 2, 3, 4]);
    let decoded = decode_file_chunk_payload(&payload).unwrap();
    assert_eq!(decoded, chunk);
    assert_eq!(decoded.session_id(), SESSION);
    assert_eq!(decoded.chunk_index(), 0x01020304);
    assert_eq!(decoded.chunk_data(), &[9, 8, 7]);
    assert_eq!(decoded.into_parts(), (SESSION.to_string(), 0x01020304, vec![9, 8, 7]));
}

#[test]
fn file_chunk_inside_binary_frame_roundtrip() {
    let chunk = FileChunkFrame::new(SESSION.to_string(), 7, b"data".to_vec()).unwrap();
    let frame = encode_binary_frame("00", &encode_file_chunk_payload(&chunk)).unwrap();
    let outer = decode_binary_frame(&frame).unwrap();
    assert_eq!(outer.prefix_str(), "00");
    assert_eq!(decode_file_chunk_payload(outer.payload()).unwrap(), chunk);
}

#[test]
fn file_chunk_session_id_must_be_36_bytes() {
    assert_eq!(
        FileChunkFrame::new("short".to_string(), 1, vec![]),
        Err(ProtocolError::InvalidFileChunkSessionId)
    );
}

#[test]
fn file_chunk_payload_errors() {
    assert_eq!(decode_file_chunk_payload(&[0; 39]), Err(ProtocolError::InvalidFileChunkFrame));
    let mut bad = vec![b'a'; 40];
    bad[0] = 0xff;
    assert_eq!(decode_file_chunk_payload(&bad), Err(ProtocolError::InvalidFileChunkSessionIdUtf8));
    let ok = decode_file_chunk_payload(&[b'a'; 40]).unwrap();
    assert_eq!(ok.chunk_index(), 0x61616161);
    assert!(ok.chunk_data().is_empty());
}

#[test]
fn action_names_roundtrip() {
    for action in [Action::Authorization, Action::NoteSync, Action::FileSyncChunkDownload, Action::SettingDeleteAck] {
        assert_eq!(Action::parse(action.as_str()), Ok(action));
        assert_eq!(Action::try_from(action.as_str()), Ok(action));
        assert_eq!(Action::try_from(action.as_str().to_string()), Ok(action));
        assert_eq!(action.as_str().parse::<Action>(), Ok(action));
    }
    assert_eq!(Action::FolderSyncRename.as_str(), "FolderSyncRename");
}

#[test]
fn unknown_action_is_refused() {
    assert_eq!(Action::parse("NoSuchAction"), Err(ProtocolError::UnknownAction("NoSuchAction".to_string())));
    assert_eq!(Action::parse("notesync"), Err(ProtocolError::UnknownAction("notesync".to_string())));
}

#[test]
fn protobuf_request_dispatch() {
    assert_eq!(request_message(Action::NoteModify), Ok(RequestMessage::NoteModifyOrCreate));
    assert_eq!(request_message(Action::FolderModify), Ok(RequestMessage::FolderCreate));
    assert_eq!(request_message(Action::FileChunkDownload), Ok(RequestMessage::FileChunkDownload));
    assert_eq!(request_message(Action::FileRePush), Ok(RequestMessage::FileGet));
    assert_eq!(
        request_message(Action::NoteSyncEnd),
        Err(ProtocolError::UnsupportedProtobufAction("NoteSyncEnd".to_string()))
    );
}

#[test]
fn protobuf_response_dispatch() {
    assert_eq!(response_message(Action::NoteSyncEnd, &[]), Ok(None));
    assert_eq!(response_message(Action::Authorization, &[]), Ok(None));
    assert_eq!(response_message(Action::ClientInfo, &[1]), Ok(Some(ResponseMessage::CheckVersionInfo)));
    assert_eq!(response_message(Action::FileSyncEnd, &[1]), Ok(Some(ResponseMessage::NoteSyncEnd)));
    assert_eq!(response_message(Action::FolderDeleteAck, &[1]), Ok(Some(ResponseMessage::Ack)));
    assert_eq!(response_message(Action::SettingSyncClear, &[1]), Ok(None));
    assert_eq!(
        response_message(Action::NoteModify, &[1]),
        Err(ProtocolError::UnsupportedProtobufAction("NoteModify".to_string()))
    );
}

#[test]
fn protobuf_framing_and_optional_strings() {
    assert_eq!(frame_ws_message(&[5, 6]), vec![b'p', b'b', 5, 6]);
    assert_eq!(PROTOBUF_BINARY_PREFIX, "pb");
    assert_eq!(optional_string(String::new()), None);
    assert_eq!(optional_string("vault".to_string()), Some("vault".to_string()));
}

#[test]
fn offline_strategy_wire_names() {
    assert_eq!(offline_sync_strategy_field(Some(OfflineSyncStrategy::NewTimeMerge)), "newTimeMerge");
    assert_eq!(offline_sync_strategy_field(Some(OfflineSyncStrategy::IgnoreTimeMerge)), "ignoreTimeMerge");
    assert_eq!(offline_sync_strategy_field(None), "");
}
