use vstd::prelude::*;
use vstd::utf8::encode_utf8;

use crate::protocol::action::{action_name, Action};
use crate::protocol::binary::append_bytes;
use crate::protocol::error::ProtocolError;

verus! {

/// The binary prefix of protobuf frames.
pub const PROTOBUF_BINARY_PREFIX: &'static str = "pb";

/// The protobuf message that carries the request payload of an action.
#[derive(Debug, Clone, Copy, PartialEq, Eq, Structural)]
pub enum RequestMessage {
    ClientInfo,
    FolderSync,
    FolderCreate,
    FolderDelete,
    FolderRename,
    NoteSync,
    NoteModifyOrCreate,
    NoteUpdateCheck,
    NoteDelete,
    NoteRename,
    NoteGet,
    FileSync,
    FileUploadCheck,
    FileDelete,
    FileRename,
    FileChunkDownload,
    FileGet,
    SettingSync,
    SettingModifyOrCreate,
    SettingUpdateCheck,
    SettingDelete,
    SettingClear,
    SettingGet,
}

/// The protobuf message that carries the response payload of an action.
#[derive(Debug, Clone, Copy, PartialEq, Eq, Structural)]
pub enum ResponseMessage {
    CheckVersionInfo,
    NoteSyncModify,
    NoteSyncDelete,
    NoteSyncRename,
    NoteSyncMtime,
    NoteSyncEnd,
    NoteSyncNeedPush,
    Ack,
    FileSyncModify,
    FileSyncDelete,
    FileSyncRename,
    FileSyncMtime,
    FileSyncUpload,
    FileSyncDownload,
    SettingSyncModify,
    SettingSyncDelete,
    SettingSyncMtime,
    SettingSyncNeedUpload,
    FolderSyncModify,
    FolderSyncDelete,
    FolderSyncRename,
    FolderSyncEnd,
}

/// The request message of `action`, if requests of that action can be sent as protobuf.
pub open spec fn spec_request_message(action: Action) -> Option<RequestMessage> {
    match action {
        Action::ClientInfo => Some(RequestMessage::ClientInfo),
        Action::FolderSync => Some(RequestMessage::FolderSync),
        Action::FolderModify => Some(RequestMessage::FolderCreate),
        Action::FolderDelete => Some(RequestMessage::FolderDelete),
        Action::FolderRename => Some(RequestMessage::FolderRename),
        Action::NoteSync => Some(RequestMessage::NoteSync),
        Action::NoteModify => Some(RequestMessage::NoteModifyOrCreate),
        Action::NoteCheck => Some(RequestMessage::NoteUpdateCheck),
        Action::NoteDelete => Some(RequestMessage::NoteDelete),
        Action::NoteRename => Some(RequestMessage::NoteRename),
        Action::NoteRePush => Some(RequestMessage::NoteGet),
        Action::FileSync => Some(RequestMessage::FileSync),
        Action::FileUploadCheck => Some(RequestMessage::FileUploadCheck),
        Action::FileDelete => Some(RequestMessage::FileDelete),
        Action::FileRename => Some(RequestMessage::FileRename),
        Action::FileChunkDownload => Some(RequestMessage::FileChunkDownload),
        Action::FileRePush => Some(RequestMessage::FileGet),
        Action::SettingSync => Some(RequestMessage::SettingSync),
        Action::SettingModify => Some(RequestMessage::SettingModifyOrCreate),
        Action::SettingCheck => Some(RequestMessage::SettingUpdateCheck),
        Action::SettingDelete => Some(RequestMessage::SettingDelete),
        Action::SettingClear => Some(RequestMessage::SettingClear),
        Action::SettingRePush => Some(RequestMessage::SettingGet),
        _ => None,
    }
}

/// How the response data of `action` is read: `None` when protobuf
/// responses of that action are not supported, `Some(None)` when the
/// response carries no payload, else the message that carries it.
pub open spec fn spec_response_message(action: Action) -> Option<Option<ResponseMessage>> {
    match action {
        Action::ClientInfo => Some(Some(ResponseMessage::CheckVersionInfo)),
        Action::NoteSyncModify => Some(Some(ResponseMessage::NoteSyncModify)),
        Action::NoteSyncDelete => Some(Some(ResponseMessage::NoteSyncDelete)),
        Action::NoteSyncRename => Some(Some(ResponseMessage::NoteSyncRename)),
        Action::NoteSyncMtime => Some(Some(ResponseMessage::NoteSyncMtime)),
        Action::NoteSyncEnd => Some(Some(ResponseMessage::NoteSyncEnd)),
        Action::NoteSyncNeedPush => Some(Some(ResponseMessage::NoteSyncNeedPush)),
        Action::NoteModifyAck => Some(Some(ResponseMessage::Ack)),
        Action::NoteRenameAck => Some(Some(ResponseMessage::Ack)),
        Action::NoteDeleteAck => Some(Some(ResponseMessage::Ack)),
        Action::FileSyncUpdate => Some(Some(ResponseMessage::FileSyncModify)),
        Action::FileSyncDelete => Some(Some(ResponseMessage::FileSyncDelete)),
        Action::FileSyncRename => Some(Some(ResponseMessage::FileSyncRename)),
        Action::FileSyncMtime => Some(Some(ResponseMessage::FileSyncMtime)),
        Action::FileSyncEnd => Some(Some(ResponseMessage::NoteSyncEnd)),
        Action::FileUpload => Some(Some(ResponseMessage::FileSyncUpload)),
        Action::FileSyncChunkDownload => Some(Some(ResponseMessage::FileSyncDownload)),
        Action::FileUploadAck => Some(Some(ResponseMessage::Ack)),
        Action::FileRenameAck => Some(Some(ResponseMessage::Ack)),
        Action::FileDeleteAck => Some(Some(ResponseMessage::Ack)),
        Action::SettingSyncModify => Some(Some(ResponseMessage::SettingSyncModify)),
        Action::SettingSyncDelete => Some(Some(ResponseMessage::SettingSyncDelete)),
        Action::SettingSyncMtime => Some(Some(ResponseMessage::SettingSyncMtime)),
        Action::SettingSyncEnd => Some(Some(ResponseMessage::NoteSyncEnd)),
        Action::SettingSyncNeedUpload => Some(Some(ResponseMessage::SettingSyncNeedUpload)),
        Action::SettingModifyAck => Some(Some(ResponseMessage::Ack)),
        Action::SettingDeleteAck => Some(Some(ResponseMessage::Ack)),
        Action::FolderSyncModify => Some(Some(ResponseMessage::FolderSyncModify)),
        Action::FolderSyncDelete => Some(Some(ResponseMessage::FolderSyncDelete)),
        Action::FolderSyncRename => Some(Some(ResponseMessage::FolderSyncRename)),
        Action::FolderSyncEnd => Some(Some(ResponseMessage::FolderSyncEnd)),
        Action::FolderModifyAck => Some(Some(ResponseMessage::Ack)),
        Action::FolderRenameAck => Some(Some(ResponseMessage::Ack)),
        Action::FolderDeleteAck => Some(Some(ResponseMessage::Ack)),
        Action::SettingSyncClear => Some(None),
        _ => None,
    }
}

fn unsupported(action: Action) -> (e: ProtocolError)
    ensures
        e matches ProtocolError::UnsupportedProtobufAction(s) && s@ == action_name(action),
{
    ProtocolError::UnsupportedProtobufAction(action.as_str().to_owned())
}

/// The message that encodes a request of `action`; actions that are not
/// sent as protobuf are refused.
pub fn request_message(action: Action) -> (r: Result<RequestMessage, ProtocolError>)
    ensures
        match spec_request_message(action) {
            Some(m) => r == Ok::<RequestMessage, ProtocolError>(m),
            None => r matches Err(e) && e matches ProtocolError::UnsupportedProtobufAction(s) && s@
                == action_name(action),
        },
{
    match action {
        Action::ClientInfo => Ok(RequestMessage::ClientInfo),
        Action::FolderSync => Ok(RequestMessage::FolderSync),
        Action::FolderModify => Ok(RequestMessage::FolderCreate),
        Action::FolderDelete => Ok(RequestMessage::FolderDelete),
        Action::FolderRename => Ok(RequestMessage::FolderRename),
        Action::NoteSync => Ok(RequestMessage::NoteSync),
        Action::NoteModify => Ok(RequestMessage::NoteModifyOrCreate),
        Action::NoteCheck => Ok(RequestMessage::NoteUpdateCheck),
        Action::NoteDelete => Ok(RequestMessage::NoteDelete),
        Action::NoteRename => Ok(RequestMessage::NoteRename),
        Action::NoteRePush => Ok(RequestMessage::NoteGet),
        Action::FileSync => Ok(RequestMessage::FileSync),
        Action::FileUploadCheck => Ok(RequestMessage::FileUploadCheck),
        Action::FileDelete => Ok(RequestMessage::FileDelete),
        Action::FileRename => Ok(RequestMessage::FileRename),
        Action::FileChunkDownload => Ok(RequestMessage::FileChunkDownload),
        Action::FileRePush => Ok(RequestMessage::FileGet),
        Action::SettingSync => Ok(RequestMessage::SettingSync),
        Action::SettingModify => Ok(RequestMessage::SettingModifyOrCreate),
        Action::SettingCheck => Ok(RequestMessage::SettingUpdateCheck),
        Action::SettingDelete => Ok(RequestMessage::SettingDelete),
        Action::SettingClear => Ok(RequestMessage::SettingClear),
        Action::SettingRePush => Ok(RequestMessage::SettingGet),
        _ => Err(unsupported(action)),
    }
}

/// The message that decodes the response data of `action`: none for empty
/// data; actions that are not received as protobuf are refused.
pub fn response_message(action: Action, data: &[u8]) -> (r: Result<
    Option<ResponseMessage>,
    ProtocolError,
>)
    ensures
        data@.len() == 0 ==> r == Ok::<Option<ResponseMessage>, ProtocolError>(None),
        data@.len() > 0 ==> match spec_response_message(action) {
            Some(m) => r == Ok::<Option<ResponseMessage>, ProtocolError>(m),
            None => r matches Err(e) && e matches ProtocolError::UnsupportedProtobufAction(s) && s@
                == action_name(action),
        },
{
    if data.len() == 0 {
        return Ok(None);
    }
    match action {
        Action::ClientInfo => Ok(Some(ResponseMessage::CheckVersionInfo)),
        Action::NoteSyncModify => Ok(Some(ResponseMessage::NoteSyncModify)),
        Action::NoteSyncDelete => Ok(Some(ResponseMessage::NoteSyncDelete)),
        Action::NoteSyncRename => Ok(Some(ResponseMessage::NoteSyncRename)),
        Action::NoteSyncMtime => Ok(Some(ResponseMessage::NoteSyncMtime)),
        Action::NoteSyncEnd => Ok(Some(ResponseMessage::NoteSyncEnd)),
        Action::NoteSyncNeedPush => Ok(Some(ResponseMessage::NoteSyncNeedPush)),
        Action::NoteModifyAck => Ok(Some(ResponseMessage::Ack)),
        Action::NoteRenameAck => Ok(Some(ResponseMessage::Ack)),
        Action::NoteDeleteAck => Ok(Some(ResponseMessage::Ack)),
        Action::FileSyncUpdate => Ok(Some(ResponseMessage::FileSyncModify)),
        Action::FileSyncDelete => Ok(Some(ResponseMessage::FileSyncDelete)),
        Action::FileSyncRename => Ok(Some(ResponseMessage::FileSyncRename)),
        Action::FileSyncMtime => Ok(Some(ResponseMessage::FileSyncMtime)),
        Action::FileSyncEnd => Ok(Some(ResponseMessage::NoteSyncEnd)),
        Action::FileUpload => Ok(Some(ResponseMessage::FileSyncUpload)),
        Action::FileSyncChunkDownload => Ok(Some(ResponseMessage::FileSyncDownload)),
        Action::FileUploadAck => Ok(Some(ResponseMessage::Ack)),
        Action::FileRenameAck => Ok(Some(ResponseMessage::Ack)),
        Action::FileDeleteAck => Ok(Some(ResponseMessage::Ack)),
        Action::SettingSyncModify => Ok(Some(ResponseMessage::SettingSyncModify)),
        Action::SettingSyncDelete => Ok(Some(ResponseMessage::SettingSyncDelete)),
        Action::SettingSyncMtime => Ok(Some(ResponseMessage::SettingSyncMtime)),
        Action::SettingSyncEnd => Ok(Some(ResponseMessage::NoteSyncEnd)),
        Action::SettingSyncNeedUpload => Ok(Some(ResponseMessage::SettingSyncNeedUpload)),
        Action::SettingModifyAck => Ok(Some(ResponseMessage::Ack)),
        Action::SettingDeleteAck => Ok(Some(ResponseMessage::Ack)),
        Action::FolderSyncModify => Ok(Some(ResponseMessage::FolderSyncModify)),
        Action::FolderSyncDelete => Ok(Some(ResponseMessage::FolderSyncDelete)),
        Action::FolderSyncRename => Ok(Some(ResponseMessage::FolderSyncRename)),
        Action::FolderSyncEnd => Ok(Some(ResponseMessage::FolderSyncEnd)),
        Action::FolderModifyAck => Ok(Some(ResponseMessage::Ack)),
        Action::FolderRenameAck => Ok(Some(ResponseMessage::Ack)),
        Action::FolderDeleteAck => Ok(Some(ResponseMessage::Ack)),
        Action::SettingSyncClear => Ok(None),
        _ => Err(unsupported(action)),
    }
}

/// A string field of a protobuf message read as optional: empty means absent.
pub fn optional_string(value: String) -> (r: Option<String>)
    ensures
        value@.len() == 0 ==> r is None,
        value@.len() > 0 ==> (r matches Some(s) && s@ == value@),
{
    if value.as_str().is_empty() {
        None
    } else {
        Some(value)
    }
}

/// A protobuf frame: the protobuf prefix, then the encoded envelope.
pub fn frame_ws_message(envelope: &[u8]) -> (frame: Vec<u8>)
    ensures
        frame@ == encode_utf8(PROTOBUF_BINARY_PREFIX@) + envelope@,
{
    let mut frame: Vec<u8> = Vec::new();
    append_bytes(&mut frame, PROTOBUF_BINARY_PREFIX.as_bytes());
    append_bytes(&mut frame, envelope);
    frame
}

} // verus!

verus! {

/// Law: each request the client sends as protobuf is carried by the
/// request message of its own kind: sync requests by the sync request,
/// folder creation (`FolderModify`) by the folder creation message, note
/// and file checks by the update-check messages, re-pushes by the get
/// messages, and so on; `request_message` follows it.
pub proof fn lemma_request_messages()
    ensures
        spec_request_message(Action::ClientInfo) == Some(RequestMessage::ClientInfo),
        spec_request_message(Action::FolderSync) == Some(RequestMessage::FolderSync),
        spec_request_message(Action::FolderModify) == Some(RequestMessage::FolderCreate),
        spec_request_message(Action::FolderDelete) == Some(RequestMessage::FolderDelete),
        spec_request_message(Action::FolderRename) == Some(RequestMessage::FolderRename),
        spec_request_message(Action::NoteSync) == Some(RequestMessage::NoteSync),
        spec_request_message(Action::NoteModify) == Some(RequestMessage::NoteModifyOrCreate),
        spec_request_message(Action::NoteCheck) == Some(RequestMessage::NoteUpdateCheck),
        spec_request_message(Action::NoteDelete) == Some(RequestMessage::NoteDelete),
        spec_request_message(Action::NoteRename) == Some(RequestMessage::NoteRename),
        spec_request_message(Action::NoteRePush) == Some(RequestMessage::NoteGet),
        spec_request_message(Action::FileSync) == Some(RequestMessage::FileSync),
        spec_request_message(Action::FileUploadCheck) == Some(RequestMessage::FileUploadCheck),
        spec_request_message(Action::FileDelete) == Some(RequestMessage::FileDelete),
        spec_request_message(Action::FileRename) == Some(RequestMessage::FileRename),
        spec_request_message(Action::FileChunkDownload) == Some(RequestMessage::FileChunkDownload),
        spec_request_message(Action::FileRePush) == Some(RequestMessage::FileGet),
        spec_request_message(Action::SettingSync) == Some(RequestMessage::SettingSync),
        spec_request_message(Action::SettingModify) == Some(RequestMessage::SettingModifyOrCreate),
        spec_request_message(Action::SettingCheck) == Some(RequestMessage::SettingUpdateCheck),
        spec_request_message(Action::SettingDelete) == Some(RequestMessage::SettingDelete),
        spec_request_message(Action::SettingClear) == Some(RequestMessage::SettingClear),
        spec_request_message(Action::SettingRePush) == Some(RequestMessage::SettingGet),
{
}

/// Law: each server event received as protobuf is read with the message
/// of its own event: every sync event with its own sync message, the end
/// of every sync with the sync end message, every acknowledgement with the
/// acknowledgement message, and a setting clear without a payload;
/// `response_message` follows it.
pub proof fn lemma_response_messages()
    ensures
        spec_response_message(Action::ClientInfo) == Some(Some(ResponseMessage::CheckVersionInfo)),
        spec_response_message(Action::NoteSyncModify) == Some(Some(ResponseMessage::NoteSyncModify)),
        spec_response_message(Action::NoteSyncDelete) == Some(Some(ResponseMessage::NoteSyncDelete)),
        spec_response_message(Action::NoteSyncRename) == Some(Some(ResponseMessage::NoteSyncRename)),
        spec_response_message(Action::NoteSyncMtime) == Some(Some(ResponseMessage::NoteSyncMtime)),
        spec_response_message(Action::NoteSyncEnd) == Some(Some(ResponseMessage::NoteSyncEnd)),
        spec_response_message(Action::NoteSyncNeedPush) == Some(Some(ResponseMessage::NoteSyncNeedPush)),
        spec_response_message(Action::NoteModifyAck) == Some(Some(ResponseMessage::Ack)),
        spec_response_message(Action::NoteRenameAck) == Some(Some(ResponseMessage::Ack)),
        spec_response_message(Action::NoteDeleteAck) == Some(Some(ResponseMessage::Ack)),
        spec_response_message(Action::FileSyncUpdate) == Some(Some(ResponseMessage::FileSyncModify)),
        spec_response_message(Action::FileSyncDelete) == Some(Some(ResponseMessage::FileSyncDelete)),
        spec_response_message(Action::FileSyncRename) == Some(Some(ResponseMessage::FileSyncRename)),
        spec_response_message(Action::FileSyncMtime) == Some(Some(ResponseMessage::FileSyncMtime)),
        spec_response_message(Action::FileSyncEnd) == Some(Some(ResponseMessage::NoteSyncEnd)),
        spec_response_message(Action::FileUpload) == Some(Some(ResponseMessage::FileSyncUpload)),
        spec_response_message(Action::FileSyncChunkDownload) == Some(Some(ResponseMessage::FileSyncDownload)),
        spec_response_message(Action::FileUploadAck) == Some(Some(ResponseMessage::Ack)),
        spec_response_message(Action::FileRenameAck) == Some(Some(ResponseMessage::Ack)),
        spec_response_message(Action::FileDeleteAck) == Some(Some(ResponseMessage::Ack)),
        spec_response_message(Action::SettingSyncModify) == Some(Some(ResponseMessage::SettingSyncModify)),
        spec_response_message(Action::SettingSyncDelete) == Some(Some(ResponseMessage::SettingSyncDelete)),
        spec_response_message(Action::SettingSyncMtime) == Some(Some(ResponseMessage::SettingSyncMtime)),
        spec_response_message(Action::SettingSyncEnd) == Some(Some(ResponseMessage::NoteSyncEnd)),
        spec_response_message(Action::SettingSyncNeedUpload) == Some(Some(ResponseMessage::SettingSyncNeedUpload)),
        spec_response_message(Action::SettingModifyAck) == Some(Some(ResponseMessage::Ack)),
        spec_response_message(Action::SettingDeleteAck) == Some(Some(ResponseMessage::Ack)),
        spec_response_message(Action::FolderSyncModify) == Some(Some(ResponseMessage::FolderSyncModify)),
        spec_response_message(Action::FolderSyncDelete) == Some(Some(ResponseMessage::FolderSyncDelete)),
        spec_response_message(Action::FolderSyncRename) == Some(Some(ResponseMessage::FolderSyncRename)),
        spec_response_message(Action::FolderSyncEnd) == Some(Some(ResponseMessage::FolderSyncEnd)),
        spec_response_message(Action::FolderModifyAck) == Some(Some(ResponseMessage::Ack)),
        spec_response_message(Action::FolderRenameAck) == Some(Some(ResponseMessage::Ack)),
        spec_response_message(Action::FolderDeleteAck) == Some(Some(ResponseMessage::Ack)),
        spec_response_message(Action::SettingSyncClear) == Some(None::<ResponseMessage>),
{
}

} // verus!
