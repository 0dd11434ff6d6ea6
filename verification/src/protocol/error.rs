use prost::DecodeError;
use vstd::prelude::*;

verus! {

/// Errors raised while reading or writing protocol frames.
#[derive(Debug, PartialEq, Eq)]
pub enum ProtocolError {
    UnknownAction(String),
    UnsupportedProtobufAction(String),
    InvalidBinaryPrefix,
    InvalidFileChunkFrame,
    InvalidFileChunkSessionId,
    InvalidFileChunkSessionIdUtf8,
    Protobuf(DecodeError),
}

} // verus!
