//! The transport protocol of the sync client: action names, binary frame
//! layouts, request and event messages, the protobuf envelopes, and the
//! protobuf payloads of requests and responses.

pub mod action;
pub mod binary;
pub mod envelope;
pub mod error;
pub mod folder;
pub mod payload;
pub mod protobuf;
pub mod session;
pub mod wire;

pub use action::Action;
pub use binary::{
    decode_binary_frame, decode_file_chunk_payload, encode_binary_frame,
    encode_file_chunk_payload, BinaryFrame, FileChunkFrame, BINARY_PREFIX_FILE_SYNC,
};
pub use envelope::{
    decode_protobuf_frame, decode_ws_message, decode_ws_response, encode_protobuf_frame,
    encode_ws_message, ProtobufResponse, WsResponseMessage,
};
pub use error::ProtocolError;
pub use payload::{
    decode_response_payload, encode_request_payload, request_payload_fits, RequestPayload,
    ResponsePayload,
};
pub use folder::{
    FolderCreateRequest, FolderDeleteAckMessage, FolderDeleteRequest, FolderModifyAckMessage,
    FolderRenameAckMessage, FolderRenameRequest, FolderSyncCheckRequest, FolderSyncDelFolder,
    FolderSyncDeleteMessage, FolderSyncEndMessage, FolderSyncModifyMessage,
    FolderSyncRenameMessage, FolderSyncRequest,
};
pub use protobuf::{
    frame_ws_message, optional_string, request_message, response_message, RequestMessage,
    ResponseMessage, PROTOBUF_BINARY_PREFIX,
};
pub use session::{ClientInfoMessage, OfflineSyncStrategy};
