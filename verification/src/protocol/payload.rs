//! The protobuf payloads carried inside the envelopes: each request and
//! response message is a list of fields numbered from 1, each a string, a
//! bool, an `int64`, or a repeated nested message of such scalars. They are
//! read and written with prost's encoding primitives.

use vstd::prelude::*;
use vstd::utf8::encode_utf8;

use crate::protocol::error::ProtocolError;
use crate::protocol::protobuf::{RequestMessage, ResponseMessage};
use crate::protocol::wire::{
    key_bytes, lemma_decode_key_len, lemma_len_field_roundtrip, lemma_varint_cap_ten,
    lemma_varint_roundtrip, lemma_varint_within_len, len_field, read_bool, read_bytes, read_int64,
    read_key, read_string, skip_unknown_field, spec_decode_key, spec_skip_field,
    spec_take_len_delimited, spec_take_string, spec_take_varint, varint_bytes, write_bool_field,
    write_bytes_field, write_int64_field, write_string_field, MAX_TAG, WIRE_LENGTH_DELIMITED,
    WIRE_VARINT,
};

verus! {

/// The type of a scalar field.
#[derive(Debug, Clone, Copy, PartialEq, Eq, Structural)]
pub enum ScalarKind {
    Text,
    Bool,
    Int64,
}

/// The nested messages that payloads repeat.
#[derive(Debug, Clone, Copy, PartialEq, Eq, Structural)]
pub enum NestedMessage {
    HistoricalVersion,
    NoteSyncCheck,
    NoteSyncDel,
    FileSyncCheck,
    FileSyncDel,
    SettingSyncCheck,
    SettingSyncDel,
    FolderSyncCheck,
    FolderSyncDel,
}

/// The type of a payload field.
#[derive(Debug, Clone, Copy, PartialEq, Eq, Structural)]
pub enum FieldKind {
    Scalar(ScalarKind),
    Repeated(NestedMessage),
}

/// The field types of a nested message, field 1 first.
pub open spec fn nested_kinds(n: NestedMessage) -> Seq<ScalarKind> {
    match n {
        NestedMessage::HistoricalVersion => seq![ScalarKind::Text, ScalarKind::Text],
        NestedMessage::NoteSyncCheck => seq![ScalarKind::Text, ScalarKind::Text, ScalarKind::Text, ScalarKind::Int64, ScalarKind::Int64],
        NestedMessage::NoteSyncDel => seq![ScalarKind::Text, ScalarKind::Text],
        NestedMessage::FileSyncCheck => seq![ScalarKind::Text, ScalarKind::Text, ScalarKind::Text, ScalarKind::Int64, ScalarKind::Int64, ScalarKind::Int64],
        NestedMessage::FileSyncDel => seq![ScalarKind::Text, ScalarKind::Text],
        NestedMessage::SettingSyncCheck => seq![ScalarKind::Text, ScalarKind::Text, ScalarKind::Text, ScalarKind::Int64, ScalarKind::Int64],
        NestedMessage::SettingSyncDel => seq![ScalarKind::Text, ScalarKind::Text],
        NestedMessage::FolderSyncCheck => seq![ScalarKind::Text, ScalarKind::Text, ScalarKind::Int64],
        NestedMessage::FolderSyncDel => seq![ScalarKind::Text, ScalarKind::Text],
    }
}

/// The field types of a response message, field 1 first.
pub open spec fn response_kinds(m: ResponseMessage) -> Seq<FieldKind> {
    match m {
        ResponseMessage::CheckVersionInfo => seq![FieldKind::Scalar(ScalarKind::Bool), FieldKind::Scalar(ScalarKind::Bool), FieldKind::Scalar(ScalarKind::Text), FieldKind::Scalar(ScalarKind::Text), FieldKind::Scalar(ScalarKind::Text), FieldKind::Scalar(ScalarKind::Text), FieldKind::Repeated(NestedMessage::HistoricalVersion), FieldKind::Scalar(ScalarKind::Bool), FieldKind::Scalar(ScalarKind::Text), FieldKind::Scalar(ScalarKind::Text), FieldKind::Scalar(ScalarKind::Text), FieldKind::Scalar(ScalarKind::Text), FieldKind::Repeated(NestedMessage::HistoricalVersion)],
        ResponseMessage::NoteSyncModify => seq![FieldKind::Scalar(ScalarKind::Text), FieldKind::Scalar(ScalarKind::Text), FieldKind::Scalar(ScalarKind::Text), FieldKind::Scalar(ScalarKind::Text), FieldKind::Scalar(ScalarKind::Int64), FieldKind::Scalar(ScalarKind::Int64), FieldKind::Scalar(ScalarKind::Int64)],
        ResponseMessage::NoteSyncDelete => seq![FieldKind::Scalar(ScalarKind::Text), FieldKind::Scalar(ScalarKind::Text), FieldKind::Scalar(ScalarKind::Int64), FieldKind::Scalar(ScalarKind::Int64), FieldKind::Scalar(ScalarKind::Int64), FieldKind::Scalar(ScalarKind::Int64)],
        ResponseMessage::NoteSyncRename => seq![FieldKind::Scalar(ScalarKind::Text), FieldKind::Scalar(ScalarKind::Text), FieldKind::Scalar(ScalarKind::Text), FieldKind::Scalar(ScalarKind::Int64), FieldKind::Scalar(ScalarKind::Int64), FieldKind::Scalar(ScalarKind::Int64), FieldKind::Scalar(ScalarKind::Text), FieldKind::Scalar(ScalarKind::Text), FieldKind::Scalar(ScalarKind::Int64)],
        ResponseMessage::NoteSyncMtime => seq![FieldKind::Scalar(ScalarKind::Text), FieldKind::Scalar(ScalarKind::Int64), FieldKind::Scalar(ScalarKind::Int64), FieldKind::Scalar(ScalarKind::Int64)],
        ResponseMessage::NoteSyncEnd => seq![FieldKind::Scalar(ScalarKind::Int64), FieldKind::Scalar(ScalarKind::Int64), FieldKind::Scalar(ScalarKind::Int64), FieldKind::Scalar(ScalarKind::Int64), FieldKind::Scalar(ScalarKind::Int64)],
        ResponseMessage::NoteSyncNeedPush => seq![FieldKind::Scalar(ScalarKind::Text), FieldKind::Scalar(ScalarKind::Text)],
        ResponseMessage::Ack => seq![FieldKind::Scalar(ScalarKind::Int64), FieldKind::Scalar(ScalarKind::Text), FieldKind::Scalar(ScalarKind::Text)],
        ResponseMessage::FileSyncModify => seq![FieldKind::Scalar(ScalarKind::Text), FieldKind::Scalar(ScalarKind::Text), FieldKind::Scalar(ScalarKind::Text), FieldKind::Scalar(ScalarKind::Int64), FieldKind::Scalar(ScalarKind::Int64), FieldKind::Scalar(ScalarKind::Int64), FieldKind::Scalar(ScalarKind::Int64)],
        ResponseMessage::FileSyncDelete => seq![FieldKind::Scalar(ScalarKind::Text), FieldKind::Scalar(ScalarKind::Text), FieldKind::Scalar(ScalarKind::Int64), FieldKind::Scalar(ScalarKind::Int64), FieldKind::Scalar(ScalarKind::Int64), FieldKind::Scalar(ScalarKind::Int64)],
        ResponseMessage::FileSyncRename => seq![FieldKind::Scalar(ScalarKind::Text), FieldKind::Scalar(ScalarKind::Text), FieldKind::Scalar(ScalarKind::Text), FieldKind::Scalar(ScalarKind::Int64), FieldKind::Scalar(ScalarKind::Int64), FieldKind::Scalar(ScalarKind::Int64), FieldKind::Scalar(ScalarKind::Int64), FieldKind::Scalar(ScalarKind::Text), FieldKind::Scalar(ScalarKind::Text)],
        ResponseMessage::FileSyncMtime => seq![FieldKind::Scalar(ScalarKind::Text), FieldKind::Scalar(ScalarKind::Int64), FieldKind::Scalar(ScalarKind::Int64), FieldKind::Scalar(ScalarKind::Int64)],
        ResponseMessage::FileSyncUpload => seq![FieldKind::Scalar(ScalarKind::Text), FieldKind::Scalar(ScalarKind::Text), FieldKind::Scalar(ScalarKind::Text), FieldKind::Scalar(ScalarKind::Int64)],
        ResponseMessage::FileSyncDownload => seq![FieldKind::Scalar(ScalarKind::Text), FieldKind::Scalar(ScalarKind::Text), FieldKind::Scalar(ScalarKind::Int64), FieldKind::Scalar(ScalarKind::Int64), FieldKind::Scalar(ScalarKind::Text), FieldKind::Scalar(ScalarKind::Int64), FieldKind::Scalar(ScalarKind::Int64), FieldKind::Scalar(ScalarKind::Int64)],
        ResponseMessage::SettingSyncModify => seq![FieldKind::Scalar(ScalarKind::Text), FieldKind::Scalar(ScalarKind::Text), FieldKind::Scalar(ScalarKind::Text), FieldKind::Scalar(ScalarKind::Text), FieldKind::Scalar(ScalarKind::Text), FieldKind::Scalar(ScalarKind::Int64), FieldKind::Scalar(ScalarKind::Int64), FieldKind::Scalar(ScalarKind::Int64)],
        ResponseMessage::SettingSyncDelete => seq![FieldKind::Scalar(ScalarKind::Text), FieldKind::Scalar(ScalarKind::Text), FieldKind::Scalar(ScalarKind::Int64), FieldKind::Scalar(ScalarKind::Int64), FieldKind::Scalar(ScalarKind::Int64)],
        ResponseMessage::SettingSyncMtime => seq![FieldKind::Scalar(ScalarKind::Text), FieldKind::Scalar(ScalarKind::Int64), FieldKind::Scalar(ScalarKind::Int64), FieldKind::Scalar(ScalarKind::Int64)],
        ResponseMessage::SettingSyncNeedUpload => seq![FieldKind::Scalar(ScalarKind::Text)],
        ResponseMessage::FolderSyncModify => seq![FieldKind::Scalar(ScalarKind::Text), FieldKind::Scalar(ScalarKind::Text), FieldKind::Scalar(ScalarKind::Int64), FieldKind::Scalar(ScalarKind::Int64), FieldKind::Scalar(ScalarKind::Int64)],
        ResponseMessage::FolderSyncDelete => seq![FieldKind::Scalar(ScalarKind::Text), FieldKind::Scalar(ScalarKind::Text), FieldKind::Scalar(ScalarKind::Int64), FieldKind::Scalar(ScalarKind::Int64), FieldKind::Scalar(ScalarKind::Int64)],
        ResponseMessage::FolderSyncRename => seq![FieldKind::Scalar(ScalarKind::Text), FieldKind::Scalar(ScalarKind::Text), FieldKind::Scalar(ScalarKind::Int64), FieldKind::Scalar(ScalarKind::Int64), FieldKind::Scalar(ScalarKind::Text), FieldKind::Scalar(ScalarKind::Text), FieldKind::Scalar(ScalarKind::Int64)],
        ResponseMessage::FolderSyncEnd => seq![FieldKind::Scalar(ScalarKind::Int64), FieldKind::Scalar(ScalarKind::Int64), FieldKind::Scalar(ScalarKind::Int64)],
    }
}

/// The field types of a request message, field 1 first.
pub open spec fn request_kinds(m: RequestMessage) -> Seq<FieldKind> {
    match m {
        RequestMessage::ClientInfo => seq![FieldKind::Scalar(ScalarKind::Text), FieldKind::Scalar(ScalarKind::Text), FieldKind::Scalar(ScalarKind::Text), FieldKind::Scalar(ScalarKind::Bool), FieldKind::Scalar(ScalarKind::Bool), FieldKind::Scalar(ScalarKind::Bool), FieldKind::Scalar(ScalarKind::Bool), FieldKind::Scalar(ScalarKind::Bool), FieldKind::Scalar(ScalarKind::Bool), FieldKind::Scalar(ScalarKind::Bool), FieldKind::Scalar(ScalarKind::Text), FieldKind::Scalar(ScalarKind::Bool)],
        RequestMessage::FolderSync => seq![FieldKind::Scalar(ScalarKind::Text), FieldKind::Scalar(ScalarKind::Text), FieldKind::Scalar(ScalarKind::Int64), FieldKind::Repeated(NestedMessage::FolderSyncCheck), FieldKind::Repeated(NestedMessage::FolderSyncDel), FieldKind::Repeated(NestedMessage::FolderSyncDel)],
        RequestMessage::FolderCreate => seq![FieldKind::Scalar(ScalarKind::Text), FieldKind::Scalar(ScalarKind::Text), FieldKind::Scalar(ScalarKind::Text)],
        RequestMessage::FolderDelete => seq![FieldKind::Scalar(ScalarKind::Text), FieldKind::Scalar(ScalarKind::Text), FieldKind::Scalar(ScalarKind::Text)],
        RequestMessage::FolderRename => seq![FieldKind::Scalar(ScalarKind::Text), FieldKind::Scalar(ScalarKind::Text), FieldKind::Scalar(ScalarKind::Text), FieldKind::Scalar(ScalarKind::Text), FieldKind::Scalar(ScalarKind::Text)],
        RequestMessage::NoteSync => seq![FieldKind::Scalar(ScalarKind::Text), FieldKind::Scalar(ScalarKind::Text), FieldKind::Scalar(ScalarKind::Int64), FieldKind::Repeated(NestedMessage::NoteSyncCheck), FieldKind::Repeated(NestedMessage::NoteSyncDel), FieldKind::Repeated(NestedMessage::NoteSyncDel)],
        RequestMessage::NoteModifyOrCreate => seq![FieldKind::Scalar(ScalarKind::Text), FieldKind::Scalar(ScalarKind::Text), FieldKind::Scalar(ScalarKind::Text), FieldKind::Scalar(ScalarKind::Text), FieldKind::Scalar(ScalarKind::Bool), FieldKind::Scalar(ScalarKind::Text), FieldKind::Scalar(ScalarKind::Text), FieldKind::Scalar(ScalarKind::Int64), FieldKind::Scalar(ScalarKind::Int64), FieldKind::Scalar(ScalarKind::Bool)],
        RequestMessage::NoteUpdateCheck => seq![FieldKind::Scalar(ScalarKind::Text), FieldKind::Scalar(ScalarKind::Text), FieldKind::Scalar(ScalarKind::Text), FieldKind::Scalar(ScalarKind::Text), FieldKind::Scalar(ScalarKind::Int64), FieldKind::Scalar(ScalarKind::Int64)],
        RequestMessage::NoteDelete => seq![FieldKind::Scalar(ScalarKind::Text), FieldKind::Scalar(ScalarKind::Text), FieldKind::Scalar(ScalarKind::Text)],
        RequestMessage::NoteRename => seq![FieldKind::Scalar(ScalarKind::Text), FieldKind::Scalar(ScalarKind::Text), FieldKind::Scalar(ScalarKind::Text), FieldKind::Scalar(ScalarKind::Text), FieldKind::Scalar(ScalarKind::Text)],
        RequestMessage::NoteGet => seq![FieldKind::Scalar(ScalarKind::Text), FieldKind::Scalar(ScalarKind::Text), FieldKind::Scalar(ScalarKind::Text), FieldKind::Scalar(ScalarKind::Bool)],
        RequestMessage::FileSync => seq![FieldKind::Scalar(ScalarKind::Text), FieldKind::Scalar(ScalarKind::Text), FieldKind::Scalar(ScalarKind::Int64), FieldKind::Repeated(NestedMessage::FileSyncCheck), FieldKind::Repeated(NestedMessage::FileSyncDel), FieldKind::Repeated(NestedMessage::FileSyncDel)],
        RequestMessage::FileUploadCheck => seq![FieldKind::Scalar(ScalarKind::Text), FieldKind::Scalar(ScalarKind::Text), FieldKind::Scalar(ScalarKind::Text), FieldKind::Scalar(ScalarKind::Text), FieldKind::Scalar(ScalarKind::Int64), FieldKind::Scalar(ScalarKind::Int64), FieldKind::Scalar(ScalarKind::Int64)],
        RequestMessage::FileDelete => seq![FieldKind::Scalar(ScalarKind::Text), FieldKind::Scalar(ScalarKind::Text), FieldKind::Scalar(ScalarKind::Text)],
        RequestMessage::FileRename => seq![FieldKind::Scalar(ScalarKind::Text), FieldKind::Scalar(ScalarKind::Text), FieldKind::Scalar(ScalarKind::Text), FieldKind::Scalar(ScalarKind::Text), FieldKind::Scalar(ScalarKind::Text)],
        RequestMessage::FileChunkDownload => seq![FieldKind::Scalar(ScalarKind::Text), FieldKind::Scalar(ScalarKind::Text), FieldKind::Scalar(ScalarKind::Text), FieldKind::Scalar(ScalarKind::Text), FieldKind::Scalar(ScalarKind::Int64)],
        RequestMessage::FileGet => seq![FieldKind::Scalar(ScalarKind::Text), FieldKind::Scalar(ScalarKind::Text), FieldKind::Scalar(ScalarKind::Text)],
        RequestMessage::SettingSync => seq![FieldKind::Scalar(ScalarKind::Text), FieldKind::Scalar(ScalarKind::Text), FieldKind::Scalar(ScalarKind::Int64), FieldKind::Repeated(NestedMessage::SettingSyncCheck), FieldKind::Repeated(NestedMessage::SettingSyncDel), FieldKind::Repeated(NestedMessage::SettingSyncDel)],
        RequestMessage::SettingModifyOrCreate => seq![FieldKind::Scalar(ScalarKind::Text), FieldKind::Scalar(ScalarKind::Text), FieldKind::Scalar(ScalarKind::Text), FieldKind::Scalar(ScalarKind::Text), FieldKind::Scalar(ScalarKind::Text), FieldKind::Scalar(ScalarKind::Int64), FieldKind::Scalar(ScalarKind::Int64)],
        RequestMessage::SettingUpdateCheck => seq![FieldKind::Scalar(ScalarKind::Text), FieldKind::Scalar(ScalarKind::Text), FieldKind::Scalar(ScalarKind::Text), FieldKind::Scalar(ScalarKind::Text), FieldKind::Scalar(ScalarKind::Int64), FieldKind::Scalar(ScalarKind::Int64)],
        RequestMessage::SettingDelete => seq![FieldKind::Scalar(ScalarKind::Text), FieldKind::Scalar(ScalarKind::Text), FieldKind::Scalar(ScalarKind::Text)],
        RequestMessage::SettingClear => seq![FieldKind::Scalar(ScalarKind::Text)],
        RequestMessage::SettingGet => seq![FieldKind::Scalar(ScalarKind::Text), FieldKind::Scalar(ScalarKind::Text), FieldKind::Scalar(ScalarKind::Text)],
    }
}

/// The field types of a nested message.
pub fn nested_message_kinds(n: NestedMessage) -> (r: Vec<ScalarKind>)
    ensures
        r@ == nested_kinds(n),
{
    match n {
        NestedMessage::HistoricalVersion => vec![ScalarKind::Text, ScalarKind::Text],
        NestedMessage::NoteSyncCheck => vec![ScalarKind::Text, ScalarKind::Text, ScalarKind::Text, ScalarKind::Int64, ScalarKind::Int64],
        NestedMessage::NoteSyncDel => vec![ScalarKind::Text, ScalarKind::Text],
        NestedMessage::FileSyncCheck => vec![ScalarKind::Text, ScalarKind::Text, ScalarKind::Text, ScalarKind::Int64, ScalarKind::Int64, ScalarKind::Int64],
        NestedMessage::FileSyncDel => vec![ScalarKind::Text, ScalarKind::Text],
        NestedMessage::SettingSyncCheck => vec![ScalarKind::Text, ScalarKind::Text, ScalarKind::Text, ScalarKind::Int64, ScalarKind::Int64],
        NestedMessage::SettingSyncDel => vec![ScalarKind::Text, ScalarKind::Text],
        NestedMessage::FolderSyncCheck => vec![ScalarKind::Text, ScalarKind::Text, ScalarKind::Int64],
        NestedMessage::FolderSyncDel => vec![ScalarKind::Text, ScalarKind::Text],
    }
}

/// The field types of a response message.
pub fn response_message_kinds(m: ResponseMessage) -> (r: Vec<FieldKind>)
    ensures
        r@ == response_kinds(m),
{
    match m {
        ResponseMessage::CheckVersionInfo => vec![FieldKind::Scalar(ScalarKind::Bool), FieldKind::Scalar(ScalarKind::Bool), FieldKind::Scalar(ScalarKind::Text), FieldKind::Scalar(ScalarKind::Text), FieldKind::Scalar(ScalarKind::Text), FieldKind::Scalar(ScalarKind::Text), FieldKind::Repeated(NestedMessage::HistoricalVersion), FieldKind::Scalar(ScalarKind::Bool), FieldKind::Scalar(ScalarKind::Text), FieldKind::Scalar(ScalarKind::Text), FieldKind::Scalar(ScalarKind::Text), FieldKind::Scalar(ScalarKind::Text), FieldKind::Repeated(NestedMessage::HistoricalVersion)],
        ResponseMessage::NoteSyncModify => vec![FieldKind::Scalar(ScalarKind::Text), FieldKind::Scalar(ScalarKind::Text), FieldKind::Scalar(ScalarKind::Text), FieldKind::Scalar(ScalarKind::Text), FieldKind::Scalar(ScalarKind::Int64), FieldKind::Scalar(ScalarKind::Int64), FieldKind::Scalar(ScalarKind::Int64)],
        ResponseMessage::NoteSyncDelete => vec![FieldKind::Scalar(ScalarKind::Text), FieldKind::Scalar(ScalarKind::Text), FieldKind::Scalar(ScalarKind::Int64), FieldKind::Scalar(ScalarKind::Int64), FieldKind::Scalar(ScalarKind::Int64), FieldKind::Scalar(ScalarKind::Int64)],
        ResponseMessage::NoteSyncRename => vec![FieldKind::Scalar(ScalarKind::Text), FieldKind::Scalar(ScalarKind::Text), FieldKind::Scalar(ScalarKind::Text), FieldKind::Scalar(ScalarKind::Int64), FieldKind::Scalar(ScalarKind::Int64), FieldKind::Scalar(ScalarKind::Int64), FieldKind::Scalar(ScalarKind::Text), FieldKind::Scalar(ScalarKind::Text), FieldKind::Scalar(ScalarKind::Int64)],
        ResponseMessage::NoteSyncMtime => vec![FieldKind::Scalar(ScalarKind::Text), FieldKind::Scalar(ScalarKind::Int64), FieldKind::Scalar(ScalarKind::Int64), FieldKind::Scalar(ScalarKind::Int64)],
        ResponseMessage::NoteSyncEnd => vec![FieldKind::Scalar(ScalarKind::Int64), FieldKind::Scalar(ScalarKind::Int64), FieldKind::Scalar(ScalarKind::Int64), FieldKind::Scalar(ScalarKind::Int64), FieldKind::Scalar(ScalarKind::Int64)],
        ResponseMessage::NoteSyncNeedPush => vec![FieldKind::Scalar(ScalarKind::Text), FieldKind::Scalar(ScalarKind::Text)],
        ResponseMessage::Ack => vec![FieldKind::Scalar(ScalarKind::Int64), FieldKind::Scalar(ScalarKind::Text), FieldKind::Scalar(ScalarKind::Text)],
        ResponseMessage::FileSyncModify => vec![FieldKind::Scalar(ScalarKind::Text), FieldKind::Scalar(ScalarKind::Text), FieldKind::Scalar(ScalarKind::Text), FieldKind::Scalar(ScalarKind::Int64), FieldKind::Scalar(ScalarKind::Int64), FieldKind::Scalar(ScalarKind::Int64), FieldKind::Scalar(ScalarKind::Int64)],
        ResponseMessage::FileSyncDelete => vec![FieldKind::Scalar(ScalarKind::Text), FieldKind::Scalar(ScalarKind::Text), FieldKind::Scalar(ScalarKind::Int64), FieldKind::Scalar(ScalarKind::Int64), FieldKind::Scalar(ScalarKind::Int64), FieldKind::Scalar(ScalarKind::Int64)],
        ResponseMessage::FileSyncRename => vec![FieldKind::Scalar(ScalarKind::Text), FieldKind::Scalar(ScalarKind::Text), FieldKind::Scalar(ScalarKind::Text), FieldKind::Scalar(ScalarKind::Int64), FieldKind::Scalar(ScalarKind::Int64), FieldKind::Scalar(ScalarKind::Int64), FieldKind::Scalar(ScalarKind::Int64), FieldKind::Scalar(ScalarKind::Text), FieldKind::Scalar(ScalarKind::Text)],
        ResponseMessage::FileSyncMtime => vec![FieldKind::Scalar(ScalarKind::Text), FieldKind::Scalar(ScalarKind::Int64), FieldKind::Scalar(ScalarKind::Int64), FieldKind::Scalar(ScalarKind::Int64)],
        ResponseMessage::FileSyncUpload => vec![FieldKind::Scalar(ScalarKind::Text), FieldKind::Scalar(ScalarKind::Text), FieldKind::Scalar(ScalarKind::Text), FieldKind::Scalar(ScalarKind::Int64)],
        ResponseMessage::FileSyncDownload => vec![FieldKind::Scalar(ScalarKind::Text), FieldKind::Scalar(ScalarKind::Text), FieldKind::Scalar(ScalarKind::Int64), FieldKind::Scalar(ScalarKind::Int64), FieldKind::Scalar(ScalarKind::Text), FieldKind::Scalar(ScalarKind::Int64), FieldKind::Scalar(ScalarKind::Int64), FieldKind::Scalar(ScalarKind::Int64)],
        ResponseMessage::SettingSyncModify => vec![FieldKind::Scalar(ScalarKind::Text), FieldKind::Scalar(ScalarKind::Text), FieldKind::Scalar(ScalarKind::Text), FieldKind::Scalar(ScalarKind::Text), FieldKind::Scalar(ScalarKind::Text), FieldKind::Scalar(ScalarKind::Int64), FieldKind::Scalar(ScalarKind::Int64), FieldKind::Scalar(ScalarKind::Int64)],
        ResponseMessage::SettingSyncDelete => vec![FieldKind::Scalar(ScalarKind::Text), FieldKind::Scalar(ScalarKind::Text), FieldKind::Scalar(ScalarKind::Int64), FieldKind::Scalar(ScalarKind::Int64), FieldKind::Scalar(ScalarKind::Int64)],
        ResponseMessage::SettingSyncMtime => vec![FieldKind::Scalar(ScalarKind::Text), FieldKind::Scalar(ScalarKind::Int64), FieldKind::Scalar(ScalarKind::Int64), FieldKind::Scalar(ScalarKind::Int64)],
        ResponseMessage::SettingSyncNeedUpload => vec![FieldKind::Scalar(ScalarKind::Text)],
        ResponseMessage::FolderSyncModify => vec![FieldKind::Scalar(ScalarKind::Text), FieldKind::Scalar(ScalarKind::Text), FieldKind::Scalar(ScalarKind::Int64), FieldKind::Scalar(ScalarKind::Int64), FieldKind::Scalar(ScalarKind::Int64)],
        ResponseMessage::FolderSyncDelete => vec![FieldKind::Scalar(ScalarKind::Text), FieldKind::Scalar(ScalarKind::Text), FieldKind::Scalar(ScalarKind::Int64), FieldKind::Scalar(ScalarKind::Int64), FieldKind::Scalar(ScalarKind::Int64)],
        ResponseMessage::FolderSyncRename => vec![FieldKind::Scalar(ScalarKind::Text), FieldKind::Scalar(ScalarKind::Text), FieldKind::Scalar(ScalarKind::Int64), FieldKind::Scalar(ScalarKind::Int64), FieldKind::Scalar(ScalarKind::Text), FieldKind::Scalar(ScalarKind::Text), FieldKind::Scalar(ScalarKind::Int64)],
        ResponseMessage::FolderSyncEnd => vec![FieldKind::Scalar(ScalarKind::Int64), FieldKind::Scalar(ScalarKind::Int64), FieldKind::Scalar(ScalarKind::Int64)],
    }
}

/// The field types of a request message.
pub fn request_message_kinds(m: RequestMessage) -> (r: Vec<FieldKind>)
    ensures
        r@ == request_kinds(m),
{
    match m {
        RequestMessage::ClientInfo => vec![FieldKind::Scalar(ScalarKind::Text), FieldKind::Scalar(ScalarKind::Text), FieldKind::Scalar(ScalarKind::Text), FieldKind::Scalar(ScalarKind::Bool), FieldKind::Scalar(ScalarKind::Bool), FieldKind::Scalar(ScalarKind::Bool), FieldKind::Scalar(ScalarKind::Bool), FieldKind::Scalar(ScalarKind::Bool), FieldKind::Scalar(ScalarKind::Bool), FieldKind::Scalar(ScalarKind::Bool), FieldKind::Scalar(ScalarKind::Text), FieldKind::Scalar(ScalarKind::Bool)],
        RequestMessage::FolderSync => vec![FieldKind::Scalar(ScalarKind::Text), FieldKind::Scalar(ScalarKind::Text), FieldKind::Scalar(ScalarKind::Int64), FieldKind::Repeated(NestedMessage::FolderSyncCheck), FieldKind::Repeated(NestedMessage::FolderSyncDel), FieldKind::Repeated(NestedMessage::FolderSyncDel)],
        RequestMessage::FolderCreate => vec![FieldKind::Scalar(ScalarKind::Text), FieldKind::Scalar(ScalarKind::Text), FieldKind::Scalar(ScalarKind::Text)],
        RequestMessage::FolderDelete => vec![FieldKind::Scalar(ScalarKind::Text), FieldKind::Scalar(ScalarKind::Text), FieldKind::Scalar(ScalarKind::Text)],
        RequestMessage::FolderRename => vec![FieldKind::Scalar(ScalarKind::Text), FieldKind::Scalar(ScalarKind::Text), FieldKind::Scalar(ScalarKind::Text), FieldKind::Scalar(ScalarKind::Text), FieldKind::Scalar(ScalarKind::Text)],
        RequestMessage::NoteSync => vec![FieldKind::Scalar(ScalarKind::Text), FieldKind::Scalar(ScalarKind::Text), FieldKind::Scalar(ScalarKind::Int64), FieldKind::Repeated(NestedMessage::NoteSyncCheck), FieldKind::Repeated(NestedMessage::NoteSyncDel), FieldKind::Repeated(NestedMessage::NoteSyncDel)],
        RequestMessage::NoteModifyOrCreate => vec![FieldKind::Scalar(ScalarKind::Text), FieldKind::Scalar(ScalarKind::Text), FieldKind::Scalar(ScalarKind::Text), FieldKind::Scalar(ScalarKind::Text), FieldKind::Scalar(ScalarKind::Bool), FieldKind::Scalar(ScalarKind::Text), FieldKind::Scalar(ScalarKind::Text), FieldKind::Scalar(ScalarKind::Int64), FieldKind::Scalar(ScalarKind::Int64), FieldKind::Scalar(ScalarKind::Bool)],
        RequestMessage::NoteUpdateCheck => vec![FieldKind::Scalar(ScalarKind::Text), FieldKind::Scalar(ScalarKind::Text), FieldKind::Scalar(ScalarKind::Text), FieldKind::Scalar(ScalarKind::Text), FieldKind::Scalar(ScalarKind::Int64), FieldKind::Scalar(ScalarKind::Int64)],
        RequestMessage::NoteDelete => vec![FieldKind::Scalar(ScalarKind::Text), FieldKind::Scalar(ScalarKind::Text), FieldKind::Scalar(ScalarKind::Text)],
        RequestMessage::NoteRename => vec![FieldKind::Scalar(ScalarKind::Text), FieldKind::Scalar(ScalarKind::Text), FieldKind::Scalar(ScalarKind::Text), FieldKind::Scalar(ScalarKind::Text), FieldKind::Scalar(ScalarKind::Text)],
        RequestMessage::NoteGet => vec![FieldKind::Scalar(ScalarKind::Text), FieldKind::Scalar(ScalarKind::Text), FieldKind::Scalar(ScalarKind::Text), FieldKind::Scalar(ScalarKind::Bool)],
        RequestMessage::FileSync => vec![FieldKind::Scalar(ScalarKind::Text), FieldKind::Scalar(ScalarKind::Text), FieldKind::Scalar(ScalarKind::Int64), FieldKind::Repeated(NestedMessage::FileSyncCheck), FieldKind::Repeated(NestedMessage::FileSyncDel), FieldKind::Repeated(NestedMessage::FileSyncDel)],
        RequestMessage::FileUploadCheck => vec![FieldKind::Scalar(ScalarKind::Text), FieldKind::Scalar(ScalarKind::Text), FieldKind::Scalar(ScalarKind::Text), FieldKind::Scalar(ScalarKind::Text), FieldKind::Scalar(ScalarKind::Int64), FieldKind::Scalar(ScalarKind::Int64), FieldKind::Scalar(ScalarKind::Int64)],
        RequestMessage::FileDelete => vec![FieldKind::Scalar(ScalarKind::Text), FieldKind::Scalar(ScalarKind::Text), FieldKind::Scalar(ScalarKind::Text)],
        RequestMessage::FileRename => vec![FieldKind::Scalar(ScalarKind::Text), FieldKind::Scalar(ScalarKind::Text), FieldKind::Scalar(ScalarKind::Text), FieldKind::Scalar(ScalarKind::Text), FieldKind::Scalar(ScalarKind::Text)],
        RequestMessage::FileChunkDownload => vec![FieldKind::Scalar(ScalarKind::Text), FieldKind::Scalar(ScalarKind::Text), FieldKind::Scalar(ScalarKind::Text), FieldKind::Scalar(ScalarKind::Text), FieldKind::Scalar(ScalarKind::Int64)],
        RequestMessage::FileGet => vec![FieldKind::Scalar(ScalarKind::Text), FieldKind::Scalar(ScalarKind::Text), FieldKind::Scalar(ScalarKind::Text)],
        RequestMessage::SettingSync => vec![FieldKind::Scalar(ScalarKind::Text), FieldKind::Scalar(ScalarKind::Text), FieldKind::Scalar(ScalarKind::Int64), FieldKind::Repeated(NestedMessage::SettingSyncCheck), FieldKind::Repeated(NestedMessage::SettingSyncDel), FieldKind::Repeated(NestedMessage::SettingSyncDel)],
        RequestMessage::SettingModifyOrCreate => vec![FieldKind::Scalar(ScalarKind::Text), FieldKind::Scalar(ScalarKind::Text), FieldKind::Scalar(ScalarKind::Text), FieldKind::Scalar(ScalarKind::Text), FieldKind::Scalar(ScalarKind::Text), FieldKind::Scalar(ScalarKind::Int64), FieldKind::Scalar(ScalarKind::Int64)],
        RequestMessage::SettingUpdateCheck => vec![FieldKind::Scalar(ScalarKind::Text), FieldKind::Scalar(ScalarKind::Text), FieldKind::Scalar(ScalarKind::Text), FieldKind::Scalar(ScalarKind::Text), FieldKind::Scalar(ScalarKind::Int64), FieldKind::Scalar(ScalarKind::Int64)],
        RequestMessage::SettingDelete => vec![FieldKind::Scalar(ScalarKind::Text), FieldKind::Scalar(ScalarKind::Text), FieldKind::Scalar(ScalarKind::Text)],
        RequestMessage::SettingClear => vec![FieldKind::Scalar(ScalarKind::Text)],
        RequestMessage::SettingGet => vec![FieldKind::Scalar(ScalarKind::Text), FieldKind::Scalar(ScalarKind::Text), FieldKind::Scalar(ScalarKind::Text)],
    }
}

/// The value of a scalar field.
#[derive(Debug, Clone, PartialEq, Eq)]
pub enum Scalar {
    Text(String),
    Bool(bool),
    Int64(i64),
}

/// What a scalar field holds.
pub enum ScalarValue {
    Text(Seq<char>),
    Bool(bool),
    Int64(i64),
}

impl View for Scalar {
    type V = ScalarValue;

    open spec fn view(&self) -> ScalarValue {
        match self {
            Scalar::Text(s) => ScalarValue::Text(s@),
            Scalar::Bool(b) => ScalarValue::Bool(*b),
            Scalar::Int64(v) => ScalarValue::Int64(*v),
        }
    }
}

/// What the fields of a nested message hold, field 1 first.
pub open spec fn scalars_view(v: Seq<Scalar>) -> Seq<ScalarValue> {
    v.map_values(|s: Scalar| s@)
}

/// The value of a payload field.
#[derive(Debug, Clone, PartialEq, Eq)]
pub enum Field {
    Scalar(Scalar),
    Repeated(Vec<Vec<Scalar>>),
}

/// What a payload field holds.
pub enum FieldValue {
    Scalar(ScalarValue),
    Repeated(Seq<Seq<ScalarValue>>),
}

impl View for Field {
    type V = FieldValue;

    open spec fn view(&self) -> FieldValue {
        match self {
            Field::Scalar(s) => FieldValue::Scalar(s@),
            Field::Repeated(list) => FieldValue::Repeated(
                list@.map_values(|m: Vec<Scalar>| scalars_view(m@)),
            ),
        }
    }
}

/// What the fields of a payload hold, field 1 first.
pub open spec fn fields_view(v: Seq<Field>) -> Seq<FieldValue> {
    v.map_values(|f: Field| f@)
}

/// The value of an absent scalar field: empty, false or zero.
pub open spec fn scalar_default(k: ScalarKind) -> ScalarValue {
    match k {
        ScalarKind::Text => ScalarValue::Text(Seq::empty()),
        ScalarKind::Bool => ScalarValue::Bool(false),
        ScalarKind::Int64 => ScalarValue::Int64(0),
    }
}

/// The value of an absent field: the scalar default, or no nested messages.
pub open spec fn field_default(k: FieldKind) -> FieldValue {
    match k {
        FieldKind::Scalar(s) => FieldValue::Scalar(scalar_default(s)),
        FieldKind::Repeated(_) => FieldValue::Repeated(Seq::empty()),
    }
}

/// A scalar field of type `k` whose key has been read: its value and the
/// bytes it occupies.
pub open spec fn take_scalar(k: ScalarKind, wire: u8, b: Seq<u8>) -> Option<(ScalarValue, nat)> {
    match k {
        ScalarKind::Text => match spec_take_string(wire, b) {
            Some((s, m)) => Some((ScalarValue::Text(s), m)),
            None => None,
        },
        ScalarKind::Bool => match spec_take_varint(wire, b) {
            Some((v, m)) => Some((ScalarValue::Bool(v != 0), m)),
            None => None,
        },
        ScalarKind::Int64 => match spec_take_varint(wire, b) {
            Some((v, m)) => Some((ScalarValue::Int64((v as u64) as i64), m)),
            None => None,
        },
    }
}

/// The nested message read from `b` with field types `kinds`, given the
/// values read so far: a field that occurs again replaces its value, fields
/// beyond the message's are passed over.
pub open spec fn scalar_fields(b: Seq<u8>, kinds: Seq<ScalarKind>, vals: Seq<ScalarValue>) -> Option<
    Seq<ScalarValue>,
>
    decreases b.len(),
{
    if b.len() == 0 {
        Some(vals)
    } else {
        match spec_decode_key(b) {
            None => None,
            Some((tag, wire, n)) => {
                proof {
                    lemma_decode_key_len(b);
                    lemma_varint_within_len(b.skip(n as int), 10);
                }
                let rest = b.skip(n as int);
                if 1 <= tag <= kinds.len() {
                    match take_scalar(kinds[tag - 1], wire, rest) {
                        Some((v, m)) => scalar_fields(
                            rest.skip(m as int),
                            kinds,
                            vals.update(tag - 1, v),
                        ),
                        None => None,
                    }
                } else {
                    match spec_skip_field(wire, tag, rest) {
                        Some(m) => scalar_fields(rest.skip(m as int), kinds, vals),
                        None => None,
                    }
                }
            },
        }
    }
}

/// The nested message of type `n` encoded by `b`.
pub open spec fn spec_decode_nested(n: NestedMessage, b: Seq<u8>) -> Option<Seq<ScalarValue>> {
    scalar_fields(b, nested_kinds(n), nested_kinds(n).map_values(|k: ScalarKind| scalar_default(k)))
}

/// The payload read from `b` with field types `kinds`, given the values
/// read so far: a scalar field that occurs again replaces its value, each
/// occurrence of a repeated field adds one nested message, and fields
/// beyond the message's are passed over.
pub open spec fn payload_fields(b: Seq<u8>, kinds: Seq<FieldKind>, vals: Seq<FieldValue>) -> Option<
    Seq<FieldValue>,
>
    decreases b.len(),
{
    if b.len() == 0 {
        Some(vals)
    } else {
        match spec_decode_key(b) {
            None => None,
            Some((tag, wire, n)) => {
                proof {
                    lemma_decode_key_len(b);
                    lemma_varint_within_len(b.skip(n as int), 10);
                }
                let rest = b.skip(n as int);
                if 1 <= tag <= kinds.len() {
                    match kinds[tag - 1] {
                        FieldKind::Scalar(k) => match take_scalar(k, wire, rest) {
                            Some((v, m)) => payload_fields(
                                rest.skip(m as int),
                                kinds,
                                vals.update(tag - 1, FieldValue::Scalar(v)),
                            ),
                            None => None,
                        },
                        FieldKind::Repeated(nm) => match spec_take_len_delimited(wire, rest) {
                            Some((p, m)) => match spec_decode_nested(nm, p) {
                                Some(inner) => match vals[tag - 1] {
                                    FieldValue::Repeated(list) => payload_fields(
                                        rest.skip(m as int),
                                        kinds,
                                        vals.update(tag - 1, FieldValue::Repeated(list.push(inner))),
                                    ),
                                    FieldValue::Scalar(_) => None,
                                },
                                None => None,
                            },
                            None => None,
                        },
                    }
                } else {
                    match spec_skip_field(wire, tag, rest) {
                        Some(m) => payload_fields(rest.skip(m as int), kinds, vals),
                        None => None,
                    }
                }
            },
        }
    }
}

/// The payload of field types `kinds` encoded by `b`.
pub open spec fn spec_decode_fields(kinds: Seq<FieldKind>, b: Seq<u8>) -> Option<Seq<FieldValue>> {
    payload_fields(b, kinds, kinds.map_values(|k: FieldKind| field_default(k)))
}

fn scalar_default_value(k: ScalarKind) -> (r: Scalar)
    ensures
        r@ == scalar_default(k),
{
    match k {
        ScalarKind::Text => Scalar::Text(String::new()),
        ScalarKind::Bool => Scalar::Bool(false),
        ScalarKind::Int64 => Scalar::Int64(0),
    }
}

fn read_scalar<'a>(k: ScalarKind, wire: u8, bytes: &'a [u8]) -> (r: Result<
    (Scalar, &'a [u8]),
    ProtocolError,
>)
    requires
        wire <= 5,
    ensures
        match take_scalar(k, wire, bytes@) {
            Some((v, m)) => r matches Ok((x, rest)) && x@ == v && rest@ == bytes@.skip(m as int),
            None => r matches Err(e) && e is Protobuf,
        },
{
    match k {
        ScalarKind::Text => match read_string(wire, bytes) {
            Ok((s, rest)) => Ok((Scalar::Text(s), rest)),
            Err(e) => Err(ProtocolError::Protobuf(e)),
        },
        ScalarKind::Bool => match read_bool(wire, bytes) {
            Ok((b, rest)) => Ok((Scalar::Bool(b), rest)),
            Err(e) => Err(ProtocolError::Protobuf(e)),
        },
        ScalarKind::Int64 => match read_int64(wire, bytes) {
            Ok((v, rest)) => Ok((Scalar::Int64(v), rest)),
            Err(e) => Err(ProtocolError::Protobuf(e)),
        },
    }
}

/// Reads a nested message of type `n`.
pub fn decode_nested(n: NestedMessage, bytes: &[u8]) -> (r: Result<Vec<Scalar>, ProtocolError>)
    ensures
        match spec_decode_nested(n, bytes@) {
            Some(v) => r matches Ok(x) && scalars_view(x@) == v,
            None => r matches Err(e) && e is Protobuf,
        },
{
    let kinds = nested_message_kinds(n);
    let ghost defaults = kinds@.map_values(|k: ScalarKind| scalar_default(k));
    let mut vals: Vec<Scalar> = Vec::new();
    let mut i: usize = 0;
    while i < kinds.len()
        invariant
            i <= kinds@.len(),
            kinds@ == nested_kinds(n),
            defaults == kinds@.map_values(|k: ScalarKind| scalar_default(k)),
            scalars_view(vals@) == defaults.take(i as int),
        decreases kinds@.len() - i,
    {
        let d = scalar_default_value(kinds[i]);
        let ghost old_vals = vals@;
        vals.push(d);
        assert(defaults[i as int] == d@);
        assert(scalars_view(vals@) =~= scalars_view(old_vals).push(d@));
        assert(defaults.take(i + 1) =~= defaults.take(i as int).push(defaults[i as int]));
        i = i + 1;
    }
    assert(defaults.take(kinds@.len() as int) =~= defaults);
    let mut buf = bytes;
    while buf.len() > 0
        invariant
            kinds@ == nested_kinds(n),
            spec_decode_nested(n, bytes@) == scalar_fields(buf@, kinds@, scalars_view(vals@)),
            vals@.len() == kinds@.len(),
        decreases buf@.len(),
    {
        proof {
            lemma_decode_key_len(buf@);
        }
        let (tag, wire, rest) = match read_key(buf) {
            Ok(k) => k,
            Err(e) => return Err(ProtocolError::Protobuf(e)),
        };
        proof {
            lemma_varint_within_len(rest@, 10);
        }
        if 1 <= tag && (tag as usize) <= kinds.len() {
            let idx = (tag - 1) as usize;
            let (v, after) = read_scalar(kinds[idx], wire, rest)?;
            let ghost before = vals@;
            vals.set(idx, v);
            assert(scalars_view(vals@) =~= scalars_view(before).update(idx as int, v@));
            buf = after;
        } else {
            match skip_unknown_field(wire, tag, rest) {
                Ok(after) => {
                    buf = after;
                },
                Err(e) => return Err(ProtocolError::Protobuf(e)),
            }
        }
    }
    Ok(vals)
}

fn field_default_value(k: FieldKind) -> (r: Field)
    ensures
        r@ == field_default(k),
        k is Repeated ==> r is Repeated,
{
    match k {
        FieldKind::Scalar(s) => Field::Scalar(scalar_default_value(s)),
        FieldKind::Repeated(_) => {
            let list: Vec<Vec<Scalar>> = Vec::new();
            assert(list@.map_values(|m: Vec<Scalar>| scalars_view(m@)) =~= Seq::<Seq<ScalarValue>>::empty());
            Field::Repeated(list)
        },
    }
}

/// Adds one nested message to a repeated field.
fn push_nested(field: Field, inner: Vec<Scalar>) -> (r: Field)
    requires
        field is Repeated,
    ensures
        r is Repeated,
        field@ matches FieldValue::Repeated(list) && r@ == FieldValue::Repeated(
            list.push(scalars_view(inner@)),
        ),
{
    match field {
        Field::Repeated(mut list) => {
            let ghost before = list@;
            list.push(inner);
            assert(list@.map_values(|m: Vec<Scalar>| scalars_view(m@)) =~= before.map_values(
                |m: Vec<Scalar>| scalars_view(m@),
            ).push(scalars_view(inner@)));
            Field::Repeated(list)
        },
        Field::Scalar(s) => Field::Scalar(s),
    }
}

/// Reads a payload whose field types are `kinds`.
pub fn decode_fields(kinds: &Vec<FieldKind>, bytes: &[u8]) -> (r: Result<Vec<Field>, ProtocolError>)
    ensures
        match spec_decode_fields(kinds@, bytes@) {
            Some(v) => r matches Ok(x) && fields_view(x@) == v,
            None => r matches Err(e) && e is Protobuf,
        },
{
    let ghost defaults = kinds@.map_values(|k: FieldKind| field_default(k));
    let mut vals: Vec<Field> = Vec::new();
    let mut i: usize = 0;
    while i < kinds.len()
        invariant
            i <= kinds@.len(),
            defaults == kinds@.map_values(|k: FieldKind| field_default(k)),
            fields_view(vals@) == defaults.take(i as int),
            vals@.len() == i,
            forall|k: int|
                0 <= k < vals@.len() ==> (kinds@[k] is Repeated ==> #[trigger] vals@[k] is Repeated),
        decreases kinds@.len() - i,
    {
        let d = field_default_value(kinds[i]);
        let ghost old_vals = vals@;
        vals.push(d);
        assert(defaults[i as int] == d@);
        assert(fields_view(vals@) =~= fields_view(old_vals).push(d@));
        assert(defaults.take(i + 1) =~= defaults.take(i as int).push(defaults[i as int]));
        i = i + 1;
    }
    assert(defaults.take(kinds@.len() as int) =~= defaults);
    let mut buf = bytes;
    while buf.len() > 0
        invariant
            spec_decode_fields(kinds@, bytes@) == payload_fields(buf@, kinds@, fields_view(vals@)),
            vals@.len() == kinds@.len(),
            forall|k: int|
                0 <= k < vals@.len() ==> (kinds@[k] is Repeated ==> #[trigger] vals@[k] is Repeated),
        decreases buf@.len(),
    {
        proof {
            lemma_decode_key_len(buf@);
        }
        let (tag, wire, rest) = match read_key(buf) {
            Ok(k) => k,
            Err(e) => return Err(ProtocolError::Protobuf(e)),
        };
        proof {
            lemma_varint_within_len(rest@, 10);
        }
        if 1 <= tag && (tag as usize) <= kinds.len() {
            let idx = (tag - 1) as usize;
            match kinds[idx] {
                FieldKind::Scalar(k) => {
                    let (v, after) = read_scalar(k, wire, rest)?;
                    let ghost before = vals@;
                    vals.set(idx, Field::Scalar(v));
                    assert(fields_view(vals@) =~= fields_view(before).update(
                        idx as int,
                        FieldValue::Scalar(v@),
                    ));
                    buf = after;
                },
                FieldKind::Repeated(nm) => {
                    let (p, after) = match read_bytes(wire, rest) {
                        Ok(x) => x,
                        Err(e) => return Err(ProtocolError::Protobuf(e)),
                    };
                    let inner = decode_nested(nm, p.as_slice())?;
                    let ghost before = vals@;
                    let old = vals.remove(idx);
                    let updated = push_nested(old, inner);
                    vals.insert(idx, updated);
                    assert(fields_view(vals@) =~= fields_view(before).update(idx as int, updated@));
                    buf = after;
                },
            }
        } else {
            match skip_unknown_field(wire, tag, rest) {
                Ok(after) => {
                    buf = after;
                },
                Err(e) => return Err(ProtocolError::Protobuf(e)),
            }
        }
    }
    Ok(vals)
}

/// The bytes of scalar field `tag` holding `v`; fields at their default
/// (empty, false, zero) are left out.
pub open spec fn encode_scalar(tag: nat, v: ScalarValue) -> Seq<u8> {
    match v {
        ScalarValue::Text(t) => if t.len() == 0 {
            Seq::empty()
        } else {
            len_field(tag, encode_utf8(t))
        },
        ScalarValue::Bool(b) => if !b {
            Seq::empty()
        } else {
            key_bytes(tag, WIRE_VARINT) + varint_bytes(1)
        },
        ScalarValue::Int64(x) => if x == 0 {
            Seq::empty()
        } else {
            key_bytes(tag, WIRE_VARINT) + varint_bytes((x as u64) as nat)
        },
    }
}

/// The bytes of a nested message: its fields in order, field 1 first.
pub open spec fn encode_scalars(vals: Seq<ScalarValue>) -> Seq<u8>
    decreases vals.len(),
{
    if vals.len() == 0 {
        Seq::empty()
    } else {
        encode_scalars(vals.drop_last()) + encode_scalar(vals.len(), vals.last())
    }
}

/// The bytes of repeated field `tag` holding the nested messages `list`:
/// one length-delimited field per message, in order.
pub open spec fn encode_nested_list(tag: nat, list: Seq<Seq<ScalarValue>>) -> Seq<u8>
    decreases list.len(),
{
    if list.len() == 0 {
        Seq::empty()
    } else {
        encode_nested_list(tag, list.drop_last()) + len_field(tag, encode_scalars(list.last()))
    }
}

/// The bytes of field `tag` holding `v`.
pub open spec fn encode_field(tag: nat, v: FieldValue) -> Seq<u8> {
    match v {
        FieldValue::Scalar(s) => encode_scalar(tag, s),
        FieldValue::Repeated(list) => encode_nested_list(tag, list),
    }
}

/// The bytes of a payload: its fields in order, field 1 first.
pub open spec fn encode_fields(vals: Seq<FieldValue>) -> Seq<u8>
    decreases vals.len(),
{
    if vals.len() == 0 {
        Seq::empty()
    } else {
        encode_fields(vals.drop_last()) + encode_field(vals.len(), vals.last())
    }
}

/// Whether `v` is a value of scalar type `k`.
pub open spec fn scalar_fits(k: ScalarKind, v: ScalarValue) -> bool {
    match k {
        ScalarKind::Text => v is Text,
        ScalarKind::Bool => v is Bool,
        ScalarKind::Int64 => v is Int64,
    }
}

/// Whether `vals` are the fields of a nested message with field types `kinds`.
pub open spec fn scalars_fit(kinds: Seq<ScalarKind>, vals: Seq<ScalarValue>) -> bool {
    &&& vals.len() == kinds.len()
    &&& forall|i: int| 0 <= i < vals.len() ==> scalar_fits(kinds[i], #[trigger] vals[i])
}

/// Whether `v` is a value of field type `k`.
pub open spec fn field_fits(k: FieldKind, v: FieldValue) -> bool {
    match k {
        FieldKind::Scalar(sk) => v is Scalar && scalar_fits(sk, v->Scalar_0),
        FieldKind::Repeated(n) => v is Repeated && forall|j: int|
            0 <= j < v->Repeated_0.len() ==> scalars_fit(nested_kinds(n), #[trigger] v->Repeated_0[j]),
    }
}

/// Whether `vals` are the fields of a payload with field types `kinds`.
pub open spec fn fields_fit(kinds: Seq<FieldKind>, vals: Seq<FieldValue>) -> bool {
    &&& vals.len() == kinds.len()
    &&& forall|i: int| 0 <= i < vals.len() ==> field_fits(kinds[i], #[trigger] vals[i])
}

fn encode_scalar_into(tag: u32, v: &Scalar, buf: &mut Vec<u8>)
    requires
        1 <= tag <= MAX_TAG,
    ensures
        final(buf)@ == old(buf)@ + encode_scalar(tag as nat, v@),
{
    match v {
        Scalar::Text(t) => {
            if t.as_str().is_empty() {
                assert(old(buf)@ + encode_scalar(tag as nat, v@) =~= old(buf)@);
            } else {
                write_string_field(tag, t, buf);
            }
        },
        Scalar::Bool(b) => {
            if *b {
                write_bool_field(tag, true, buf);
            } else {
                assert(old(buf)@ + encode_scalar(tag as nat, v@) =~= old(buf)@);
            }
        },
        Scalar::Int64(x) => {
            if *x == 0 {
                assert(old(buf)@ + encode_scalar(tag as nat, v@) =~= old(buf)@);
            } else {
                write_int64_field(tag, *x, buf);
                assert(final(buf)@ =~= old(buf)@ + encode_scalar(tag as nat, v@));
            }
        },
    }
}

/// The bytes of a nested message with fields `vals`.
pub fn encode_nested(vals: &Vec<Scalar>) -> (r: Vec<u8>)
    requires
        vals@.len() <= MAX_TAG,
    ensures
        r@ == encode_scalars(scalars_view(vals@)),
{
    let mut out: Vec<u8> = Vec::new();
    let mut i: usize = 0;
    while i < vals.len()
        invariant
            i <= vals@.len(),
            vals@.len() <= MAX_TAG,
            out@ == encode_scalars(scalars_view(vals@).take(i as int)),
        decreases vals@.len() - i,
    {
        let ghost before = out@;
        encode_scalar_into((i + 1) as u32, &vals[i], &mut out);
        let ghost t = scalars_view(vals@).take(i + 1);
        assert(t.drop_last() =~= scalars_view(vals@).take(i as int));
        assert(t.last() == vals@[i as int]@);
        i = i + 1;
    }
    assert(scalars_view(vals@).take(vals@.len() as int) =~= scalars_view(vals@));
    out
}

fn encode_field_into(tag: u32, f: &Field, buf: &mut Vec<u8>)
    requires
        1 <= tag <= MAX_TAG,
        f is Repeated ==> forall|j: int| 0 <= j < f->Repeated_0@.len() ==> (#[trigger] f->Repeated_0@[j])@.len() <= MAX_TAG,
    ensures
        final(buf)@ == old(buf)@ + encode_field(tag as nat, f@),
{
    match f {
        Field::Scalar(s) => encode_scalar_into(tag, s, buf),
        Field::Repeated(list) => {
            let ghost start = buf@;
            let ghost lv = list@.map_values(|m: Vec<Scalar>| scalars_view(m@));
            let mut j: usize = 0;
            while j < list.len()
                invariant
                    1 <= tag <= MAX_TAG,
                    j <= list@.len(),
                    lv == list@.map_values(|m: Vec<Scalar>| scalars_view(m@)),
                    forall|k: int| 0 <= k < list@.len() ==> (#[trigger] list@[k])@.len() <= MAX_TAG,
                    buf@ == start + encode_nested_list(tag as nat, lv.take(j as int)),
                decreases list@.len() - j,
            {
                let inner = encode_nested(&list[j]);
                write_bytes_field(tag, &inner, buf);
                let ghost t = lv.take(j + 1);
                assert(t.drop_last() =~= lv.take(j as int));
                assert(t.last() == scalars_view(list@[j as int]@));
                j = j + 1;
            }
            assert(lv.take(list@.len() as int) =~= lv);
        },
    }
}

/// The bytes of a payload with fields `fields`.
pub fn encode_fields_bytes(fields: &Vec<Field>) -> (r: Vec<u8>)
    requires
        fields@.len() <= MAX_TAG,
        forall|i: int| #![trigger fields@[i]]
            0 <= i < fields@.len() ==> (fields@[i] is Repeated ==> forall|j: int|
                0 <= j < fields@[i]->Repeated_0@.len() ==> (#[trigger] fields@[i]->Repeated_0@[j])@.len()
                    <= MAX_TAG),
    ensures
        r@ == encode_fields(fields_view(fields@)),
{
    let mut out: Vec<u8> = Vec::new();
    let mut i: usize = 0;
    while i < fields.len()
        invariant
            i <= fields@.len(),
            fields@.len() <= MAX_TAG,
            forall|i: int| #![trigger fields@[i]]
                0 <= i < fields@.len() ==> (fields@[i] is Repeated ==> forall|j: int|
                    0 <= j < fields@[i]->Repeated_0@.len() ==> (#[trigger] fields@[i]->Repeated_0@[j])@.len()
                        <= MAX_TAG),
            out@ == encode_fields(fields_view(fields@).take(i as int)),
        decreases fields@.len() - i,
    {
        encode_field_into((i + 1) as u32, &fields[i], &mut out);
        let ghost t = fields_view(fields@).take(i + 1);
        assert(t.drop_last() =~= fields_view(fields@).take(i as int));
        assert(t.last() == fields@[i as int]@);
        i = i + 1;
    }
    assert(fields_view(fields@).take(fields@.len() as int) =~= fields_view(fields@));
    out
}

/// A response payload, read: its message and its fields, field 1 first.
#[derive(Debug, Clone, PartialEq, Eq)]
pub struct ResponsePayload {
    pub message: ResponseMessage,
    pub fields: Vec<Field>,
}

impl View for ResponsePayload {
    type V = (ResponseMessage, Seq<FieldValue>);

    open spec fn view(&self) -> (ResponseMessage, Seq<FieldValue>) {
        (self.message, fields_view(self.fields@))
    }
}

/// A request payload to be written: its message and its fields, field 1 first.
#[derive(Debug, Clone, PartialEq, Eq)]
pub struct RequestPayload {
    pub message: RequestMessage,
    pub fields: Vec<Field>,
}

impl View for RequestPayload {
    type V = (RequestMessage, Seq<FieldValue>);

    open spec fn view(&self) -> (RequestMessage, Seq<FieldValue>) {
        (self.message, fields_view(self.fields@))
    }
}

/// The response payload of message `m` encoded by `b`.
pub open spec fn spec_decode_payload(m: ResponseMessage, b: Seq<u8>) -> Option<Seq<FieldValue>> {
    spec_decode_fields(response_kinds(m), b)
}

/// The bytes of a request payload.
pub open spec fn spec_encode_request(req: (RequestMessage, Seq<FieldValue>)) -> Seq<u8> {
    encode_fields(req.1)
}

/// Whether a request payload holds the fields of its message.
pub open spec fn request_fits(req: (RequestMessage, Seq<FieldValue>)) -> bool {
    fields_fit(request_kinds(req.0), req.1)
}

/// Nested messages have at most six fields.
pub proof fn lemma_nested_kinds_len(n: NestedMessage)
    ensures
        nested_kinds(n).len() <= 6,
{
}

/// Request messages have at most twelve fields.
pub proof fn lemma_request_kinds_len(m: RequestMessage)
    ensures
        request_kinds(m).len() <= 12,
{
}

/// Reads the response payload of message `message`: fields by number,
/// absent fields at their defaults, unknown fields passed over.
pub fn decode_response_payload(message: ResponseMessage, data: &[u8]) -> (r: Result<
    ResponsePayload,
    ProtocolError,
>)
    ensures
        match spec_decode_payload(message, data@) {
            Some(p) => r matches Ok(v) && v@ == (message, p),
            None => r matches Err(e) && e is Protobuf,
        },
{
    let kinds = response_message_kinds(message);
    let fields = decode_fields(&kinds, data)?;
    Ok(ResponsePayload { message, fields })
}

/// The bytes of a request payload that holds the fields of its message.
pub fn encode_request_payload(req: &RequestPayload) -> (r: Vec<u8>)
    requires
        request_fits(req@),
    ensures
        r@ == spec_encode_request(req@),
{
    proof {
        lemma_request_kinds_len(req.message);
        assert forall|i: int| #![trigger req.fields@[i]]
            0 <= i < req.fields@.len() && req.fields@[i] is Repeated implies forall|j: int|
                0 <= j < req.fields@[i]->Repeated_0@.len() ==> (#[trigger] req.fields@[i]->Repeated_0@[j])@.len()
                    <= MAX_TAG by {
            let kinds = request_kinds(req.message);
            assert(field_fits(kinds[i], fields_view(req.fields@)[i]));
            match kinds[i] {
                FieldKind::Repeated(n) => {
                    lemma_nested_kinds_len(n);
                    assert forall|j: int| 0 <= j < req.fields@[i]->Repeated_0@.len() implies (
                    #[trigger] req.fields@[i]->Repeated_0@[j])@.len() <= MAX_TAG by {
                        let f = req.fields@[i];
                        let lv = f->Repeated_0@.map_values(|m: Vec<Scalar>| scalars_view(m@));
                        assert(fields_view(req.fields@)[i] == f@);
                        assert(f@ == FieldValue::Repeated(lv));
                        assert(lv[j] == scalars_view(f->Repeated_0@[j]@));
                        assert(kinds[i] == FieldKind::Repeated(n));
                        let fv = FieldValue::Repeated(lv);
                        assert(field_fits(FieldKind::Repeated(n), fv));
                        assert(fv->Repeated_0 == lv);
                        assert(lv.len() == f->Repeated_0@.len());
                        assert(0 <= j < fv->Repeated_0.len());
                        assert(scalars_fit(nested_kinds(n), fv->Repeated_0[j]));
                    }
                },
                FieldKind::Scalar(_) => {},
            }
        }
    }
    encode_fields_bytes(&req.fields)
}

fn scalar_fits_value(k: ScalarKind, v: &Scalar) -> (r: bool)
    ensures
        r == scalar_fits(k, v@),
{
    match (k, v) {
        (ScalarKind::Text, Scalar::Text(_)) => true,
        (ScalarKind::Bool, Scalar::Bool(_)) => true,
        (ScalarKind::Int64, Scalar::Int64(_)) => true,
        _ => false,
    }
}

fn scalars_fit_values(kinds: &Vec<ScalarKind>, vals: &Vec<Scalar>) -> (r: bool)
    ensures
        r == scalars_fit(kinds@, scalars_view(vals@)),
{
    if vals.len() != kinds.len() {
        return false;
    }
    let mut i: usize = 0;
    while i < vals.len()
        invariant
            i <= vals@.len(),
            vals@.len() == kinds@.len(),
            forall|k: int| 0 <= k < i ==> scalar_fits(kinds@[k], #[trigger] scalars_view(vals@)[k]),
        decreases vals@.len() - i,
    {
        if !scalar_fits_value(kinds[i], &vals[i]) {
            assert(!scalar_fits(kinds@[i as int], scalars_view(vals@)[i as int]));
            return false;
        }
        i = i + 1;
    }
    true
}

fn field_fits_value(k: FieldKind, f: &Field) -> (r: bool)
    ensures
        r == field_fits(k, f@),
{
    match (k, f) {
        (FieldKind::Scalar(sk), Field::Scalar(sv)) => scalar_fits_value(sk, sv),
        (FieldKind::Repeated(n), Field::Repeated(list)) => {
            let kinds = nested_message_kinds(n);
            let ghost lv = list@.map_values(|m: Vec<Scalar>| scalars_view(m@));
            assert(f@ == FieldValue::Repeated(lv));
            let mut j: usize = 0;
            while j < list.len()
                invariant
                    j <= list@.len(),
                    k == FieldKind::Repeated(n),
                    f@ == FieldValue::Repeated(lv),
                    kinds@ == nested_kinds(n),
                    lv == list@.map_values(|m: Vec<Scalar>| scalars_view(m@)),
                    forall|t: int| 0 <= t < j ==> scalars_fit(nested_kinds(n), #[trigger] lv[t]),
                decreases list@.len() - j,
            {
                if !scalars_fit_values(&kinds, &list[j]) {
                    assert(lv[j as int] == scalars_view(list@[j as int]@));
                    assert(f@ == FieldValue::Repeated(lv));
                    assert(f@->Repeated_0[j as int] == lv[j as int]);
                    assert(!scalars_fit(nested_kinds(n), f@->Repeated_0[j as int]));
                    return false;
                }
                assert(lv[j as int] == scalars_view(list@[j as int]@));
                j = j + 1;
            }
            true
        },
        _ => false,
    }
}

/// Whether a request payload holds the fields of its message: one field
/// per field of the message, each of its type.
pub fn request_payload_fits(req: &RequestPayload) -> (r: bool)
    ensures
        r == request_fits(req@),
{
    let kinds = request_message_kinds(req.message);
    let fields = &req.fields;
    if fields.len() != kinds.len() {
        return false;
    }
    let mut i: usize = 0;
    while i < fields.len()
        invariant
            i <= fields@.len(),
            fields@.len() == kinds@.len(),
            kinds@ == request_kinds(req.message),
            fields == &req.fields,
            forall|k: int| 0 <= k < i ==> field_fits(kinds@[k], #[trigger] fields_view(fields@)[k]),
        decreases fields@.len() - i,
    {
        if !field_fits_value(kinds[i], &fields[i]) {
            assert(!field_fits(kinds@[i as int], fields_view(fields@)[i as int]));
            return false;
        }
        i = i + 1;
    }
    true
}

} // verus!

verus! {

/// A varint field written as key and value reads back as its tag, the
/// varint wire type and the value, leaving what follows it.
proof fn lemma_varint_field_reads_back(tag: nat, v: nat, r: Seq<u8>)
    requires
        1 <= tag <= MAX_TAG,
        v < 0x1_0000_0000_0000_0000,
    ensures
        ({
            let b = key_bytes(tag, WIRE_VARINT) + varint_bytes(v) + r;
            let k = key_bytes(tag, WIRE_VARINT).len();
            &&& spec_decode_key(b) == Some((tag as u32, WIRE_VARINT, k))
            &&& spec_take_varint(WIRE_VARINT, b.skip(k as int)) == Some((v, varint_bytes(v).len()))
            &&& b.skip(k as int).skip(varint_bytes(v).len() as int) == r
        }),
{
    let key = tag * 8;
    let kb = varint_bytes(key);
    let vb = varint_bytes(v);
    let b = kb + vb + r;
    lemma_varint_cap_ten();
    lemma_varint_roundtrip(key, vb + r, 10);
    assert(b =~= kb + (vb + r));
    assert(key % 8 == 0 && key / 8 == tag);
    assert(b.skip(kb.len() as int) =~= vb + r);
    lemma_varint_roundtrip(v, r, 10);
    assert((vb + r).skip(vb.len() as int) =~= r);
}

/// A scalar field that is not at its default reads back as its tag and value.
proof fn lemma_scalar_reads_back(tag: nat, k: ScalarKind, s: ScalarValue, r: Seq<u8>)
    requires
        1 <= tag <= MAX_TAG,
        scalar_fits(k, s),
        encode_scalar(tag, s).len() > 0,
        encode_scalar(tag, s).len() < 0x1_0000_0000_0000_0000,
    ensures
        ({
            let e = encode_scalar(tag, s);
            let b = e + r;
            spec_decode_key(b) matches Some((t, w, n)) && t == tag && n <= e.len() && take_scalar(
                k,
                w,
                b.skip(n as int),
            ) == Some((s, (e.len() - n) as nat)) && b.skip(n as int).skip(e.len() - n) == r
        }),
{
    let e = encode_scalar(tag, s);
    match s {
        ScalarValue::Text(t) => {
            let u = encode_utf8(t);
            vstd::utf8::encode_utf8_valid_utf8(t);
            vstd::utf8::encode_utf8_decode_utf8(t);
            lemma_len_field_roundtrip(tag, u, r);
        },
        ScalarValue::Bool(x) => {
            lemma_varint_field_reads_back(tag, 1, r);
        },
        ScalarValue::Int64(x) => {
            let v = (x as u64) as nat;
            lemma_varint_field_reads_back(tag, v, r);
            assert(((x as u64) as i64) == x) by (bit_vector);
        },
    }
}

/// The values of a nested message after its first `i` fields are read:
/// those fields, then the defaults of the rest.
pub open spec fn scalars_after(kinds: Seq<ScalarKind>, vals: Seq<ScalarValue>, i: int) -> Seq<ScalarValue> {
    vals.take(i) + kinds.map_values(|k: ScalarKind| scalar_default(k)).skip(i)
}

/// A scalar value whose encoding is empty is its type's default.
proof fn lemma_empty_encoding_is_default(tag: nat, k: ScalarKind, s: ScalarValue)
    requires
        scalar_fits(k, s),
        encode_scalar(tag, s).len() == 0,
    ensures
        s == scalar_default(k),
{
    match s {
        ScalarValue::Text(t) => {
            if t.len() > 0 {
                assert(len_field(tag, encode_utf8(t)).len() > 0) by {
                    assert(key_bytes(tag, WIRE_LENGTH_DELIMITED).len() > 0);
                }
            }
            assert(t =~= Seq::<char>::empty());
        },
        ScalarValue::Bool(b) => {
            if b {
                assert(key_bytes(tag, WIRE_VARINT).len() > 0);
            }
        },
        ScalarValue::Int64(x) => {
            if x != 0 {
                assert(key_bytes(tag, WIRE_VARINT).len() > 0);
            }
        },
    }
}

/// Reading the first `i` fields of a nested message, as written, sets
/// those fields and leaves the rest at their defaults.
proof fn lemma_scalars_prefix(kinds: Seq<ScalarKind>, vals: Seq<ScalarValue>, i: nat, r: Seq<u8>)
    requires
        scalars_fit(kinds, vals),
        kinds.len() <= MAX_TAG,
        i <= vals.len(),
        encode_scalars(vals.take(i as int)).len() < 0x1_0000_0000_0000_0000,
    ensures
        scalar_fields(
            encode_scalars(vals.take(i as int)) + r,
            kinds,
            kinds.map_values(|k: ScalarKind| scalar_default(k)),
        ) == scalar_fields(r, kinds, scalars_after(kinds, vals, i as int)),
    decreases i,
{
    let defaults = kinds.map_values(|k: ScalarKind| scalar_default(k));
    if i == 0 {
        assert(vals.take(0) =~= Seq::<ScalarValue>::empty());
        assert(encode_scalars(vals.take(0)) + r =~= r);
        assert(scalars_after(kinds, vals, 0) =~= defaults);
    } else {
        let j = (i - 1) as nat;
        let e = encode_scalar(i, vals[j as int]);
        assert(vals.take(i as int).drop_last() =~= vals.take(j as int));
        assert(vals.take(i as int).last() == vals[j as int]);
        assert(encode_scalars(vals.take(i as int)) == encode_scalars(vals.take(j as int)) + e);
        assert(encode_scalars(vals.take(i as int)) + r =~= encode_scalars(vals.take(j as int)) + (e + r));
        lemma_scalars_prefix(kinds, vals, j, e + r);
        let st = scalars_after(kinds, vals, j as int);
        let k = kinds[j as int];
        assert(scalar_fits(k, vals[j as int]));
        if e.len() == 0 {
            lemma_empty_encoding_is_default(i, k, vals[j as int]);
            assert(e + r =~= r);
            assert(scalars_after(kinds, vals, i as int) =~= st);
        } else {
            lemma_scalar_reads_back(i, k, vals[j as int], r);
            assert(st.update(j as int, vals[j as int]) =~= scalars_after(kinds, vals, i as int));
        }
    }
}

/// Law: a nested message written with prost's encoding reads back as the
/// same field values.
pub proof fn lemma_nested_roundtrip(n: NestedMessage, vals: Seq<ScalarValue>)
    requires
        scalars_fit(nested_kinds(n), vals),
        encode_scalars(vals).len() < 0x1_0000_0000_0000_0000,
    ensures
        spec_decode_nested(n, encode_scalars(vals)) == Some(vals),
{
    let kinds = nested_kinds(n);
    lemma_nested_kinds_len(n);
    assert(vals.take(vals.len() as int) =~= vals);
    lemma_scalars_prefix(kinds, vals, vals.len(), Seq::empty());
    assert(encode_scalars(vals) + Seq::<u8>::empty() =~= encode_scalars(vals));
    assert(scalars_after(kinds, vals, vals.len() as int) =~= vals);
}

/// Reading a repeated field's messages, as written, adds them in order
/// to what the field held.
proof fn lemma_nested_list_reads_back(
    tag: nat,
    n: NestedMessage,
    kinds: Seq<FieldKind>,
    list: Seq<Seq<ScalarValue>>,
    st: Seq<FieldValue>,
    prev: Seq<Seq<ScalarValue>>,
    r: Seq<u8>,
)
    requires
        1 <= tag <= kinds.len(),
        kinds.len() <= MAX_TAG,
        kinds[tag - 1] == FieldKind::Repeated(n),
        st.len() == kinds.len(),
        st[tag - 1] == FieldValue::Repeated(prev),
        forall|j: int| 0 <= j < list.len() ==> scalars_fit(nested_kinds(n), #[trigger] list[j]),
        encode_nested_list(tag, list).len() < 0x1_0000_0000_0000_0000,
    ensures
        payload_fields(encode_nested_list(tag, list) + r, kinds, st) == payload_fields(
            r,
            kinds,
            st.update(tag - 1, FieldValue::Repeated(prev + list)),
        ),
    decreases list.len(),
{
    if list.len() == 0 {
        assert(encode_nested_list(tag, list) + r =~= r);
        assert(prev + list =~= prev);
        assert(st.update(tag - 1, FieldValue::Repeated(prev + list)) =~= st);
    } else {
        let dl = list.drop_last();
        let last = list.last();
        let es = encode_scalars(last);
        let f = len_field(tag, es);
        assert(encode_nested_list(tag, list) + r =~= encode_nested_list(tag, dl) + (f + r));
        assert forall|j: int| 0 <= j < dl.len() implies scalars_fit(nested_kinds(n), #[trigger] dl[j]) by {
            assert(dl[j] == list[j]);
        }
        lemma_nested_list_reads_back(tag, n, kinds, dl, st, prev, f + r);
        let st2 = st.update(tag - 1, FieldValue::Repeated(prev + dl));
        assert(scalars_fit(nested_kinds(n), list[list.len() - 1]));
        lemma_nested_roundtrip(n, last);
        lemma_len_field_roundtrip(tag, es, r);
        let k = key_bytes(tag, WIRE_LENGTH_DELIMITED).len();
        let b = f + r;
        assert(spec_decode_key(b) == Some((tag as u32, WIRE_LENGTH_DELIMITED, k)));
        assert(st2[tag - 1] == FieldValue::Repeated(prev + dl));
        assert((prev + dl).push(last) =~= prev + list);
        assert(st2.update(tag - 1, FieldValue::Repeated((prev + dl).push(last))) =~= st.update(
            tag - 1,
            FieldValue::Repeated(prev + list),
        ));
    }
}

/// The values of a payload after its first `i` fields are read: those
/// fields, then the defaults of the rest.
pub open spec fn fields_after(kinds: Seq<FieldKind>, vals: Seq<FieldValue>, i: int) -> Seq<FieldValue> {
    vals.take(i) + kinds.map_values(|k: FieldKind| field_default(k)).skip(i)
}

/// Reading the first `i` fields of a payload, as written, sets those
/// fields and leaves the rest at their defaults.
proof fn lemma_fields_prefix(kinds: Seq<FieldKind>, vals: Seq<FieldValue>, i: nat, r: Seq<u8>)
    requires
        fields_fit(kinds, vals),
        kinds.len() <= MAX_TAG,
        i <= vals.len(),
        encode_fields(vals.take(i as int)).len() < 0x1_0000_0000_0000_0000,
    ensures
        payload_fields(
            encode_fields(vals.take(i as int)) + r,
            kinds,
            kinds.map_values(|k: FieldKind| field_default(k)),
        ) == payload_fields(r, kinds, fields_after(kinds, vals, i as int)),
    decreases i,
{
    let defaults = kinds.map_values(|k: FieldKind| field_default(k));
    if i == 0 {
        assert(vals.take(0) =~= Seq::<FieldValue>::empty());
        assert(encode_fields(vals.take(0)) + r =~= r);
        assert(fields_after(kinds, vals, 0) =~= defaults);
    } else {
        let j = (i - 1) as nat;
        let v = vals[j as int];
        let e = encode_field(i, v);
        assert(vals.take(i as int).drop_last() =~= vals.take(j as int));
        assert(vals.take(i as int).last() == v);
        assert(encode_fields(vals.take(i as int)) == encode_fields(vals.take(j as int)) + e);
        assert(encode_fields(vals.take(i as int)) + r =~= encode_fields(vals.take(j as int)) + (e + r));
        lemma_fields_prefix(kinds, vals, j, e + r);
        let st = fields_after(kinds, vals, j as int);
        assert(st[j as int] == field_default(kinds[j as int]));
        assert(field_fits(kinds[j as int], v));
        match kinds[j as int] {
            FieldKind::Scalar(k) => {
                let sv = v->Scalar_0;
                assert(v == FieldValue::Scalar(sv));
                if e.len() == 0 {
                    lemma_empty_encoding_is_default(i, k, sv);
                    assert(e + r =~= r);
                    assert(fields_after(kinds, vals, i as int) =~= st);
                } else {
                    lemma_scalar_reads_back(i, k, sv, r);
                    assert(st.update(j as int, FieldValue::Scalar(sv)) =~= fields_after(
                        kinds,
                        vals,
                        i as int,
                    ));
                }
            },
            FieldKind::Repeated(n) => {
                let list = v->Repeated_0;
                assert(v == FieldValue::Repeated(list));
                lemma_nested_list_reads_back(i, n, kinds, list, st, Seq::empty(), r);
                assert(Seq::<Seq<ScalarValue>>::empty() + list =~= list);
                assert(st.update(j as int, FieldValue::Repeated(list)) =~= fields_after(
                    kinds,
                    vals,
                    i as int,
                ));
            },
        }
    }
}

/// Law: a payload written with prost's encoding reads back as the same
/// field values, when it holds the fields of its field types.
pub proof fn lemma_payload_roundtrip(kinds: Seq<FieldKind>, vals: Seq<FieldValue>)
    requires
        fields_fit(kinds, vals),
        kinds.len() <= MAX_TAG,
        encode_fields(vals).len() < 0x1_0000_0000_0000_0000,
    ensures
        spec_decode_fields(kinds, encode_fields(vals)) == Some(vals),
{
    assert(vals.take(vals.len() as int) =~= vals);
    lemma_fields_prefix(kinds, vals, vals.len(), Seq::empty());
    assert(encode_fields(vals) + Seq::<u8>::empty() =~= encode_fields(vals));
    assert(fields_after(kinds, vals, vals.len() as int) =~= vals);
}

/// Law: a request payload written by `encode_request_payload` reads back,
/// with its message's field types, as the same field values.
pub proof fn lemma_request_roundtrip(req: (RequestMessage, Seq<FieldValue>))
    requires
        request_fits(req),
        spec_encode_request(req).len() < 0x1_0000_0000_0000_0000,
    ensures
        spec_decode_fields(request_kinds(req.0), spec_encode_request(req)) == Some(req.1),
{
    lemma_request_kinds_len(req.0);
    lemma_payload_roundtrip(request_kinds(req.0), req.1);
}

} // verus!

verus! {

/// Law: the nested messages have the server's field types, field 1 first.
pub proof fn lemma_nested_schemas()
    ensures
        nested_kinds(NestedMessage::HistoricalVersion) == seq![
            ScalarKind::Text, // version
            ScalarKind::Text, // changelog_content
        ],
        nested_kinds(NestedMessage::NoteSyncCheck) == seq![
            ScalarKind::Text, // path
            ScalarKind::Text, // path_hash
            ScalarKind::Text, // content_hash
            ScalarKind::Int64, // mtime
            ScalarKind::Int64, // ctime
        ],
        nested_kinds(NestedMessage::NoteSyncDel) == seq![
            ScalarKind::Text, // path
            ScalarKind::Text, // path_hash
        ],
        nested_kinds(NestedMessage::FileSyncCheck) == seq![
            ScalarKind::Text, // path
            ScalarKind::Text, // path_hash
            ScalarKind::Text, // content_hash
            ScalarKind::Int64, // size
            ScalarKind::Int64, // mtime
            ScalarKind::Int64, // ctime
        ],
        nested_kinds(NestedMessage::FileSyncDel) == seq![
            ScalarKind::Text, // path
            ScalarKind::Text, // path_hash
        ],
        nested_kinds(NestedMessage::SettingSyncCheck) == seq![
            ScalarKind::Text, // path
            ScalarKind::Text, // path_hash
            ScalarKind::Text, // content_hash
            ScalarKind::Int64, // mtime
            ScalarKind::Int64, // ctime
        ],
        nested_kinds(NestedMessage::SettingSyncDel) == seq![
            ScalarKind::Text, // path
            ScalarKind::Text, // path_hash
        ],
        nested_kinds(NestedMessage::FolderSyncCheck) == seq![
            ScalarKind::Text, // path
            ScalarKind::Text, // path_hash
            ScalarKind::Int64, // mtime
        ],
        nested_kinds(NestedMessage::FolderSyncDel) == seq![
            ScalarKind::Text, // path
            ScalarKind::Text, // path_hash
        ],
{
}

/// Law: the response messages have the server's field types, field 1
/// first: paths and hashes are text, times, sizes and counts are `int64`,
/// flags are bools, version histories are repeated nested messages.
pub proof fn lemma_response_schemas()
    ensures
        response_kinds(ResponseMessage::CheckVersionInfo) == seq![
            FieldKind::Scalar(ScalarKind::Bool), // github_available
            FieldKind::Scalar(ScalarKind::Bool), // version_is_new
            FieldKind::Scalar(ScalarKind::Text), // version_new_name
            FieldKind::Scalar(ScalarKind::Text), // version_new_link
            FieldKind::Scalar(ScalarKind::Text), // version_new_changelog
            FieldKind::Scalar(ScalarKind::Text), // version_new_changelog_content
            FieldKind::Repeated(NestedMessage::HistoricalVersion), // version_history
            FieldKind::Scalar(ScalarKind::Bool), // plugin_version_is_new
            FieldKind::Scalar(ScalarKind::Text), // plugin_version_new_name
            FieldKind::Scalar(ScalarKind::Text), // plugin_version_new_link
            FieldKind::Scalar(ScalarKind::Text), // plugin_version_new_changelog
            FieldKind::Scalar(ScalarKind::Text), // plugin_version_new_changelog_content
            FieldKind::Repeated(NestedMessage::HistoricalVersion), // plugin_version_history
        ],
        response_kinds(ResponseMessage::NoteSyncModify) == seq![
            FieldKind::Scalar(ScalarKind::Text), // path
            FieldKind::Scalar(ScalarKind::Text), // path_hash
            FieldKind::Scalar(ScalarKind::Text), // content
            FieldKind::Scalar(ScalarKind::Text), // content_hash
            FieldKind::Scalar(ScalarKind::Int64), // ctime
            FieldKind::Scalar(ScalarKind::Int64), // mtime
            FieldKind::Scalar(ScalarKind::Int64), // last_time
        ],
        response_kinds(ResponseMessage::NoteSyncDelete) == seq![
            FieldKind::Scalar(ScalarKind::Text), // path
            FieldKind::Scalar(ScalarKind::Text), // path_hash
            FieldKind::Scalar(ScalarKind::Int64), // ctime
            FieldKind::Scalar(ScalarKind::Int64), // mtime
            FieldKind::Scalar(ScalarKind::Int64), // size
            FieldKind::Scalar(ScalarKind::Int64), // last_time
        ],
        response_kinds(ResponseMessage::NoteSyncRename) == seq![
            FieldKind::Scalar(ScalarKind::Text), // path
            FieldKind::Scalar(ScalarKind::Text), // path_hash
            FieldKind::Scalar(ScalarKind::Text), // content_hash
            FieldKind::Scalar(ScalarKind::Int64), // ctime
            FieldKind::Scalar(ScalarKind::Int64), // mtime
            FieldKind::Scalar(ScalarKind::Int64), // size
            FieldKind::Scalar(ScalarKind::Text), // old_path
            FieldKind::Scalar(ScalarKind::Text), // old_path_hash
            FieldKind::Scalar(ScalarKind::Int64), // last_time
        ],
        response_kinds(ResponseMessage::NoteSyncMtime) == seq![
            FieldKind::Scalar(ScalarKind::Text), // path
            FieldKind::Scalar(ScalarKind::Int64), // ctime
            FieldKind::Scalar(ScalarKind::Int64), // mtime
            FieldKind::Scalar(ScalarKind::Int64), // last_time
        ],
        response_kinds(ResponseMessage::NoteSyncEnd) == seq![
            FieldKind::Scalar(ScalarKind::Int64), // last_time
            FieldKind::Scalar(ScalarKind::Int64), // need_upload_count
            FieldKind::Scalar(ScalarKind::Int64), // need_modify_count
            FieldKind::Scalar(ScalarKind::Int64), // need_sync_mtime_count
            FieldKind::Scalar(ScalarKind::Int64), // need_delete_count
        ],
        response_kinds(ResponseMessage::NoteSyncNeedPush) == seq![
            FieldKind::Scalar(ScalarKind::Text), // path
            FieldKind::Scalar(ScalarKind::Text), // path_hash
        ],
        response_kinds(ResponseMessage::Ack) == seq![
            FieldKind::Scalar(ScalarKind::Int64), // last_time
            FieldKind::Scalar(ScalarKind::Text), // path
            FieldKind::Scalar(ScalarKind::Text), // path_hash
        ],
        response_kinds(ResponseMessage::FileSyncModify) == seq![
            FieldKind::Scalar(ScalarKind::Text), // path
            FieldKind::Scalar(ScalarKind::Text), // path_hash
            FieldKind::Scalar(ScalarKind::Text), // content_hash
            FieldKind::Scalar(ScalarKind::Int64), // size
            FieldKind::Scalar(ScalarKind::Int64), // ctime
            FieldKind::Scalar(ScalarKind::Int64), // mtime
            FieldKind::Scalar(ScalarKind::Int64), // last_time
        ],
        response_kinds(ResponseMessage::FileSyncDelete) == seq![
            FieldKind::Scalar(ScalarKind::Text), // path
            FieldKind::Scalar(ScalarKind::Text), // path_hash
            FieldKind::Scalar(ScalarKind::Int64), // ctime
            FieldKind::Scalar(ScalarKind::Int64), // mtime
            FieldKind::Scalar(ScalarKind::Int64), // size
            FieldKind::Scalar(ScalarKind::Int64), // last_time
        ],
        response_kinds(ResponseMessage::FileSyncRename) == seq![
            FieldKind::Scalar(ScalarKind::Text), // path
            FieldKind::Scalar(ScalarKind::Text), // path_hash
            FieldKind::Scalar(ScalarKind::Text), // content_hash
            FieldKind::Scalar(ScalarKind::Int64), // ctime
            FieldKind::Scalar(ScalarKind::Int64), // mtime
            FieldKind::Scalar(ScalarKind::Int64), // size
            FieldKind::Scalar(ScalarKind::Int64), // last_time
            FieldKind::Scalar(ScalarKind::Text), // old_path
            FieldKind::Scalar(ScalarKind::Text), // old_path_hash
        ],
        response_kinds(ResponseMessage::FileSyncMtime) == seq![
            FieldKind::Scalar(ScalarKind::Text), // path
            FieldKind::Scalar(ScalarKind::Int64), // ctime
            FieldKind::Scalar(ScalarKind::Int64), // mtime
            FieldKind::Scalar(ScalarKind::Int64), // last_time
        ],
        response_kinds(ResponseMessage::FileSyncUpload) == seq![
            FieldKind::Scalar(ScalarKind::Text), // path
            FieldKind::Scalar(ScalarKind::Text), // path_hash
            FieldKind::Scalar(ScalarKind::Text), // session_id
            FieldKind::Scalar(ScalarKind::Int64), // chunk_size
        ],
        response_kinds(ResponseMessage::FileSyncDownload) == seq![
            FieldKind::Scalar(ScalarKind::Text), // path
            FieldKind::Scalar(ScalarKind::Text), // content_hash
            FieldKind::Scalar(ScalarKind::Int64), // ctime
            FieldKind::Scalar(ScalarKind::Int64), // mtime
            FieldKind::Scalar(ScalarKind::Text), // session_id
            FieldKind::Scalar(ScalarKind::Int64), // chunk_size
            FieldKind::Scalar(ScalarKind::Int64), // total_chunks
            FieldKind::Scalar(ScalarKind::Int64), // size
        ],
        response_kinds(ResponseMessage::SettingSyncModify) == seq![
            FieldKind::Scalar(ScalarKind::Text), // vault
            FieldKind::Scalar(ScalarKind::Text), // path
            FieldKind::Scalar(ScalarKind::Text), // path_hash
            FieldKind::Scalar(ScalarKind::Text), // content
            FieldKind::Scalar(ScalarKind::Text), // content_hash
            FieldKind::Scalar(ScalarKind::Int64), // ctime
            FieldKind::Scalar(ScalarKind::Int64), // mtime
            FieldKind::Scalar(ScalarKind::Int64), // last_time
        ],
        response_kinds(ResponseMessage::SettingSyncDelete) == seq![
            FieldKind::Scalar(ScalarKind::Text), // path
            FieldKind::Scalar(ScalarKind::Text), // path_hash
            FieldKind::Scalar(ScalarKind::Int64), // ctime
            FieldKind::Scalar(ScalarKind::Int64), // mtime
            FieldKind::Scalar(ScalarKind::Int64), // last_time
        ],
        response_kinds(ResponseMessage::SettingSyncMtime) == seq![
            FieldKind::Scalar(ScalarKind::Text), // path
            FieldKind::Scalar(ScalarKind::Int64), // ctime
            FieldKind::Scalar(ScalarKind::Int64), // mtime
            FieldKind::Scalar(ScalarKind::Int64), // last_time
        ],
        response_kinds(ResponseMessage::SettingSyncNeedUpload) == seq![
            FieldKind::Scalar(ScalarKind::Text), // path
        ],
        response_kinds(ResponseMessage::FolderSyncModify) == seq![
            FieldKind::Scalar(ScalarKind::Text), // path
            FieldKind::Scalar(ScalarKind::Text), // path_hash
            FieldKind::Scalar(ScalarKind::Int64), // ctime
            FieldKind::Scalar(ScalarKind::Int64), // mtime
            FieldKind::Scalar(ScalarKind::Int64), // last_time
        ],
        response_kinds(ResponseMessage::FolderSyncDelete) == seq![
            FieldKind::Scalar(ScalarKind::Text), // path
            FieldKind::Scalar(ScalarKind::Text), // path_hash
            FieldKind::Scalar(ScalarKind::Int64), // ctime
            FieldKind::Scalar(ScalarKind::Int64), // mtime
            FieldKind::Scalar(ScalarKind::Int64), // last_time
        ],
        response_kinds(ResponseMessage::FolderSyncRename) == seq![
            FieldKind::Scalar(ScalarKind::Text), // path
            FieldKind::Scalar(ScalarKind::Text), // path_hash
            FieldKind::Scalar(ScalarKind::Int64), // ctime
            FieldKind::Scalar(ScalarKind::Int64), // mtime
            FieldKind::Scalar(ScalarKind::Text), // old_path
            FieldKind::Scalar(ScalarKind::Text), // old_path_hash
            FieldKind::Scalar(ScalarKind::Int64), // last_time
        ],
        response_kinds(ResponseMessage::FolderSyncEnd) == seq![
            FieldKind::Scalar(ScalarKind::Int64), // last_time
            FieldKind::Scalar(ScalarKind::Int64), // need_modify_count
            FieldKind::Scalar(ScalarKind::Int64), // need_delete_count
        ],
{
}

/// Law: the request messages have the server's field types, field 1
/// first, with the resources of a sync request as repeated nested messages.
pub proof fn lemma_request_schemas()
    ensures
        request_kinds(RequestMessage::ClientInfo) == seq![
            FieldKind::Scalar(ScalarKind::Text), // name
            FieldKind::Scalar(ScalarKind::Text), // version
            FieldKind::Scalar(ScalarKind::Text), // client_type
            FieldKind::Scalar(ScalarKind::Bool), // is_desktop
            FieldKind::Scalar(ScalarKind::Bool), // is_mobile
            FieldKind::Scalar(ScalarKind::Bool), // is_phone
            FieldKind::Scalar(ScalarKind::Bool), // is_tablet
            FieldKind::Scalar(ScalarKind::Bool), // is_mac_os
            FieldKind::Scalar(ScalarKind::Bool), // is_win
            FieldKind::Scalar(ScalarKind::Bool), // is_linux
            FieldKind::Scalar(ScalarKind::Text), // offline_sync_strategy
            FieldKind::Scalar(ScalarKind::Bool), // protobuf
        ],
        request_kinds(RequestMessage::FolderSync) == seq![
            FieldKind::Scalar(ScalarKind::Text), // context
            FieldKind::Scalar(ScalarKind::Text), // vault
            FieldKind::Scalar(ScalarKind::Int64), // last_time
            FieldKind::Repeated(NestedMessage::FolderSyncCheck), // folders
            FieldKind::Repeated(NestedMessage::FolderSyncDel), // del_folders
            FieldKind::Repeated(NestedMessage::FolderSyncDel), // missing_folders
        ],
        request_kinds(RequestMessage::FolderCreate) == seq![
            FieldKind::Scalar(ScalarKind::Text), // vault
            FieldKind::Scalar(ScalarKind::Text), // path
            FieldKind::Scalar(ScalarKind::Text), // path_hash
        ],
        request_kinds(RequestMessage::FolderDelete) == seq![
            FieldKind::Scalar(ScalarKind::Text), // vault
            FieldKind::Scalar(ScalarKind::Text), // path
            FieldKind::Scalar(ScalarKind::Text), // path_hash
        ],
        request_kinds(RequestMessage::FolderRename) == seq![
            FieldKind::Scalar(ScalarKind::Text), // vault
            FieldKind::Scalar(ScalarKind::Text), // path
            FieldKind::Scalar(ScalarKind::Text), // path_hash
            FieldKind::Scalar(ScalarKind::Text), // old_path
            FieldKind::Scalar(ScalarKind::Text), // old_path_hash
        ],
        request_kinds(RequestMessage::NoteSync) == seq![
            FieldKind::Scalar(ScalarKind::Text), // context
            FieldKind::Scalar(ScalarKind::Text), // vault
            FieldKind::Scalar(ScalarKind::Int64), // last_time
            FieldKind::Repeated(NestedMessage::NoteSyncCheck), // notes
            FieldKind::Repeated(NestedMessage::NoteSyncDel), // del_notes
            FieldKind::Repeated(NestedMessage::NoteSyncDel), // missing_notes
        ],
        request_kinds(RequestMessage::NoteModifyOrCreate) == seq![
            FieldKind::Scalar(ScalarKind::Text), // vault
            FieldKind::Scalar(ScalarKind::Text), // path
            FieldKind::Scalar(ScalarKind::Text), // path_hash
            FieldKind::Scalar(ScalarKind::Text), // base_hash
            FieldKind::Scalar(ScalarKind::Bool), // base_hash_missing
            FieldKind::Scalar(ScalarKind::Text), // content
            FieldKind::Scalar(ScalarKind::Text), // content_hash
            FieldKind::Scalar(ScalarKind::Int64), // ctime
            FieldKind::Scalar(ScalarKind::Int64), // mtime
            FieldKind::Scalar(ScalarKind::Bool), // create_only
        ],
        request_kinds(RequestMessage::NoteUpdateCheck) == seq![
            FieldKind::Scalar(ScalarKind::Text), // vault
            FieldKind::Scalar(ScalarKind::Text), // path
            FieldKind::Scalar(ScalarKind::Text), // path_hash
            FieldKind::Scalar(ScalarKind::Text), // content_hash
            FieldKind::Scalar(ScalarKind::Int64), // ctime
            FieldKind::Scalar(ScalarKind::Int64), // mtime
        ],
        request_kinds(RequestMessage::NoteDelete) == seq![
            FieldKind::Scalar(ScalarKind::Text), // vault
            FieldKind::Scalar(ScalarKind::Text), // path
            FieldKind::Scalar(ScalarKind::Text), // path_hash
        ],
        request_kinds(RequestMessage::NoteRename) == seq![
            FieldKind::Scalar(ScalarKind::Text), // vault
            FieldKind::Scalar(ScalarKind::Text), // path
            FieldKind::Scalar(ScalarKind::Text), // path_hash
            FieldKind::Scalar(ScalarKind::Text), // old_path
            FieldKind::Scalar(ScalarKind::Text), // old_path_hash
        ],
        request_kinds(RequestMessage::NoteGet) == seq![
            FieldKind::Scalar(ScalarKind::Text), // vault
            FieldKind::Scalar(ScalarKind::Text), // path
            FieldKind::Scalar(ScalarKind::Text), // path_hash
            FieldKind::Scalar(ScalarKind::Bool), // is_recycle
        ],
        request_kinds(RequestMessage::FileSync) == seq![
            FieldKind::Scalar(ScalarKind::Text), // context
            FieldKind::Scalar(ScalarKind::Text), // vault
            FieldKind::Scalar(ScalarKind::Int64), // last_time
            FieldKind::Repeated(NestedMessage::FileSyncCheck), // files
            FieldKind::Repeated(NestedMessage::FileSyncDel), // del_files
            FieldKind::Repeated(NestedMessage::FileSyncDel), // missing_files
        ],
        request_kinds(RequestMessage::FileUploadCheck) == seq![
            FieldKind::Scalar(ScalarKind::Text), // vault
            FieldKind::Scalar(ScalarKind::Text), // path
            FieldKind::Scalar(ScalarKind::Text), // path_hash
            FieldKind::Scalar(ScalarKind::Text), // content_hash
            FieldKind::Scalar(ScalarKind::Int64), // size
            FieldKind::Scalar(ScalarKind::Int64), // ctime
            FieldKind::Scalar(ScalarKind::Int64), // mtime
        ],
        request_kinds(RequestMessage::FileDelete) == seq![
            FieldKind::Scalar(ScalarKind::Text), // vault
            FieldKind::Scalar(ScalarKind::Text), // path
            FieldKind::Scalar(ScalarKind::Text), // path_hash
        ],
        request_kinds(RequestMessage::FileRename) == seq![
            FieldKind::Scalar(ScalarKind::Text), // vault
            FieldKind::Scalar(ScalarKind::Text), // path
            FieldKind::Scalar(ScalarKind::Text), // path_hash
            FieldKind::Scalar(ScalarKind::Text), // old_path
            FieldKind::Scalar(ScalarKind::Text), // old_path_hash
        ],
        request_kinds(RequestMessage::FileChunkDownload) == seq![
            FieldKind::Scalar(ScalarKind::Text), // vault
            FieldKind::Scalar(ScalarKind::Text), // path
            FieldKind::Scalar(ScalarKind::Text), // path_hash
            FieldKind::Scalar(ScalarKind::Text), // session_id
            FieldKind::Scalar(ScalarKind::Int64), // chunk_index
        ],
        request_kinds(RequestMessage::FileGet) == seq![
            FieldKind::Scalar(ScalarKind::Text), // vault
            FieldKind::Scalar(ScalarKind::Text), // path
            FieldKind::Scalar(ScalarKind::Text), // path_hash
        ],
        request_kinds(RequestMessage::SettingSync) == seq![
            FieldKind::Scalar(ScalarKind::Text), // context
            FieldKind::Scalar(ScalarKind::Text), // vault
            FieldKind::Scalar(ScalarKind::Int64), // last_time
            FieldKind::Repeated(NestedMessage::SettingSyncCheck), // settings
            FieldKind::Repeated(NestedMessage::SettingSyncDel), // del_settings
            FieldKind::Repeated(NestedMessage::SettingSyncDel), // missing_settings
        ],
        request_kinds(RequestMessage::SettingModifyOrCreate) == seq![
            FieldKind::Scalar(ScalarKind::Text), // vault
            FieldKind::Scalar(ScalarKind::Text), // path
            FieldKind::Scalar(ScalarKind::Text), // path_hash
            FieldKind::Scalar(ScalarKind::Text), // content
            FieldKind::Scalar(ScalarKind::Text), // content_hash
            FieldKind::Scalar(ScalarKind::Int64), // ctime
            FieldKind::Scalar(ScalarKind::Int64), // mtime
        ],
        request_kinds(RequestMessage::SettingUpdateCheck) == seq![
            FieldKind::Scalar(ScalarKind::Text), // vault
            FieldKind::Scalar(ScalarKind::Text), // path
            FieldKind::Scalar(ScalarKind::Text), // path_hash
            FieldKind::Scalar(ScalarKind::Text), // content_hash
            FieldKind::Scalar(ScalarKind::Int64), // ctime
            FieldKind::Scalar(ScalarKind::Int64), // mtime
        ],
        request_kinds(RequestMessage::SettingDelete) == seq![
            FieldKind::Scalar(ScalarKind::Text), // vault
            FieldKind::Scalar(ScalarKind::Text), // path
            FieldKind::Scalar(ScalarKind::Text), // path_hash
        ],
        request_kinds(RequestMessage::SettingClear) == seq![
            FieldKind::Scalar(ScalarKind::Text), // vault
        ],
        request_kinds(RequestMessage::SettingGet) == seq![
            FieldKind::Scalar(ScalarKind::Text), // vault
            FieldKind::Scalar(ScalarKind::Text), // path
            FieldKind::Scalar(ScalarKind::Text), // path_hash
        ],
{
}

} // verus!
