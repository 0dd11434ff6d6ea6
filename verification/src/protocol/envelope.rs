//! The protobuf envelopes of websocket frames: `WsMessage`, which names the
//! action and carries its data, and `WsResponseMessage`, the server's
//! response inside it.

use prost::DecodeError;
use vstd::prelude::*;
use vstd::utf8::encode_utf8;

use crate::protocol::action::{action_from_name, action_name, Action};
use crate::protocol::error::ProtocolError;
use crate::protocol::protobuf::{
    frame_ws_message, optional_string, request_message, response_message, spec_request_message,
    spec_response_message, ResponseMessage, PROTOBUF_BINARY_PREFIX,
};
use crate::protocol::wire::{
    len_field, lemma_decode_key_len, lemma_varint_within_len, note_error_field, read_bool,
    read_bytes, read_int32, read_key, read_string, skip_unknown_field, spec_decode_key,
    spec_skip_field, spec_take_len_delimited, spec_take_string, spec_take_varint,
    write_bytes_field, write_string_field,
};

verus! {

/// The encoding of a `WsMessage`: the action name as field 1 and the data
/// as field 2, each left out when empty.
pub open spec fn spec_ws_message_bytes(name: Seq<char>, data: Seq<u8>) -> Seq<u8> {
    (if name.len() > 0 {
        len_field(1, encode_utf8(name))
    } else {
        Seq::empty()
    }) + (if data.len() > 0 {
        len_field(2, data)
    } else {
        Seq::empty()
    })
}

/// The `WsMessage` read from `b`, given the fields read so far: each
/// occurrence of field 1 or 2 replaces the value, other fields are passed over.
pub open spec fn ws_message_fields(b: Seq<u8>, name: Seq<char>, data: Seq<u8>) -> Option<
    (Seq<char>, Seq<u8>),
>
    decreases b.len(),
{
    if b.len() == 0 {
        Some((name, data))
    } else {
        match spec_decode_key(b) {
            None => None,
            Some((tag, wire, n)) => {
                proof {
                    lemma_decode_key_len(b);
                    lemma_varint_within_len(b.skip(n as int), 10);
                }
                let rest = b.skip(n as int);
                if tag == 1 {
                    match spec_take_string(wire, rest) {
                        Some((s, m)) => ws_message_fields(rest.skip(m as int), s, data),
                        None => None,
                    }
                } else if tag == 2 {
                    match spec_take_len_delimited(wire, rest) {
                        Some((d, m)) => ws_message_fields(rest.skip(m as int), name, d),
                        None => None,
                    }
                } else {
                    match spec_skip_field(wire, tag, rest) {
                        Some(m) => ws_message_fields(rest.skip(m as int), name, data),
                        None => None,
                    }
                }
            },
        }
    }
}

/// The `WsMessage` encoded by `b`: its action name and data.
pub open spec fn spec_decode_ws_message(b: Seq<u8>) -> Option<(Seq<char>, Seq<u8>)> {
    ws_message_fields(b, Seq::empty(), Seq::empty())
}

/// The fields of a `WsResponseMessage`.
pub struct ResponseFields {
    pub code: i32,
    pub status: bool,
    pub message: Seq<char>,
    pub data: Seq<u8>,
    pub details: Seq<char>,
    pub vault: Seq<char>,
    pub context: Seq<char>,
}

/// A response with every field at its default.
pub open spec fn empty_response() -> ResponseFields {
    ResponseFields {
        code: 0,
        status: false,
        message: Seq::empty(),
        data: Seq::empty(),
        details: Seq::empty(),
        vault: Seq::empty(),
        context: Seq::empty(),
    }
}

/// The `WsResponseMessage` read from `b`, given the fields read so far:
/// code (1, int32), status (2, bool), message (3), data (4, bytes),
/// details (5), vault (6) and context (7); other fields are passed over.
pub open spec fn response_fields(b: Seq<u8>, f: ResponseFields) -> Option<ResponseFields>
    decreases b.len(),
{
    if b.len() == 0 {
        Some(f)
    } else {
        match spec_decode_key(b) {
            None => None,
            Some((tag, wire, n)) => {
                proof {
                    lemma_decode_key_len(b);
                    lemma_varint_within_len(b.skip(n as int), 10);
                }
                let rest = b.skip(n as int);
                if tag == 1 {
                    match spec_take_varint(wire, rest) {
                        Some((v, m)) => response_fields(
                            rest.skip(m as int),
                            ResponseFields { code: (v as u64) as i32, ..f },
                        ),
                        None => None,
                    }
                } else if tag == 2 {
                    match spec_take_varint(wire, rest) {
                        Some((v, m)) => response_fields(
                            rest.skip(m as int),
                            ResponseFields { status: v != 0, ..f },
                        ),
                        None => None,
                    }
                } else if tag == 3 {
                    match spec_take_string(wire, rest) {
                        Some((s, m)) => response_fields(
                            rest.skip(m as int),
                            ResponseFields { message: s, ..f },
                        ),
                        None => None,
                    }
                } else if tag == 4 {
                    match spec_take_len_delimited(wire, rest) {
                        Some((d, m)) => response_fields(
                            rest.skip(m as int),
                            ResponseFields { data: d, ..f },
                        ),
                        None => None,
                    }
                } else if tag == 5 {
                    match spec_take_string(wire, rest) {
                        Some((s, m)) => response_fields(
                            rest.skip(m as int),
                            ResponseFields { details: s, ..f },
                        ),
                        None => None,
                    }
                } else if tag == 6 {
                    match spec_take_string(wire, rest) {
                        Some((s, m)) => response_fields(
                            rest.skip(m as int),
                            ResponseFields { vault: s, ..f },
                        ),
                        None => None,
                    }
                } else if tag == 7 {
                    match spec_take_string(wire, rest) {
                        Some((s, m)) => response_fields(
                            rest.skip(m as int),
                            ResponseFields { context: s, ..f },
                        ),
                        None => None,
                    }
                } else {
                    match spec_skip_field(wire, tag, rest) {
                        Some(m) => response_fields(rest.skip(m as int), f),
                        None => None,
                    }
                }
            },
        }
    }
}

/// The `WsResponseMessage` encoded by `b`.
pub open spec fn spec_decode_ws_response(b: Seq<u8>) -> Option<ResponseFields> {
    response_fields(b, empty_response())
}

/// A decoded `WsResponseMessage`.
#[derive(Debug, Clone, PartialEq, Eq)]
pub struct WsResponseMessage {
    pub code: i32,
    pub status: bool,
    pub message: String,
    pub data: Vec<u8>,
    pub details: String,
    pub vault: String,
    pub context: String,
}

impl View for WsResponseMessage {
    type V = ResponseFields;

    open spec fn view(&self) -> ResponseFields {
        ResponseFields {
            code: self.code,
            status: self.status,
            message: self.message@,
            data: self.data@,
            details: self.details@,
            vault: self.vault@,
            context: self.context@,
        }
    }
}

fn decode_failure(mut error: DecodeError, message: &'static str, field: &'static str) -> (e:
    ProtocolError)
    ensures
        e is Protobuf,
{
    note_error_field(&mut error, message, field);
    ProtocolError::Protobuf(error)
}

/// The protobuf encoding of a `WsMessage` naming `name` and carrying `data`.
pub fn encode_ws_envelope(name: &String, data: &Vec<u8>) -> (r: Vec<u8>)
    ensures
        r@ == spec_ws_message_bytes(name@, data@),
{
    let mut envelope: Vec<u8> = Vec::new();
    if !name.as_str().is_empty() {
        write_string_field(1, name, &mut envelope);
    }
    if data.len() != 0 {
        write_bytes_field(2, data, &mut envelope);
    }
    assert(envelope@ =~= spec_ws_message_bytes(name@, data@));
    envelope
}

/// A protobuf websocket frame for `action` carrying `data`: the protobuf
/// prefix, then the encoded `WsMessage`.
pub fn encode_ws_message(action: Action, data: Vec<u8>) -> (r: Vec<u8>)
    ensures
        r@ == encode_utf8(PROTOBUF_BINARY_PREFIX@) + spec_ws_message_bytes(action_name(action), data@),
{
    let name = action.as_str().to_owned();
    let envelope = encode_ws_envelope(&name, &data);
    frame_ws_message(envelope.as_slice())
}

/// Reads a `WsMessage`: the action name and the data it carries.
pub fn decode_ws_message(bytes: &[u8]) -> (r: Result<(String, Vec<u8>), ProtocolError>)
    ensures
        match spec_decode_ws_message(bytes@) {
            Some((name, data)) => r matches Ok((n, d)) && n@ == name && d@ == data,
            None => r matches Err(e) && e is Protobuf,
        },
{
    let mut name = String::new();
    let mut data: Vec<u8> = Vec::new();
    let mut buf = bytes;
    while buf.len() > 0
        invariant
            spec_decode_ws_message(bytes@) == ws_message_fields(buf@, name@, data@),
        decreases buf@.len(),
    {
        proof {
            lemma_decode_key_len(buf@);
        }
        let (tag, wire, rest) = match read_key(buf) {
            Ok(k) => k,
            Err(e) => return Err(ProtocolError::Protobuf(e)),
        };
        proof {
            lemma_varint_within_len(rest@, 10);
        }
        if tag == 1 {
            match read_string(wire, rest) {
                Ok((s, after)) => {
                    name = s;
                    buf = after;
                },
                Err(e) => return Err(decode_failure(e, "WsMessage", "message_type")),
            }
        } else if tag == 2 {
            match read_bytes(wire, rest) {
                Ok((d, after)) => {
                    data = d;
                    buf = after;
                },
                Err(e) => return Err(decode_failure(e, "WsMessage", "data")),
            }
        } else {
            match skip_unknown_field(wire, tag, rest) {
                Ok(after) => {
                    buf = after;
                },
                Err(e) => return Err(ProtocolError::Protobuf(e)),
            }
        }
    }
    Ok((name, data))
}

/// Reads a `WsResponseMessage`.
pub fn decode_ws_response(bytes: &[u8]) -> (r: Result<WsResponseMessage, ProtocolError>)
    ensures
        match spec_decode_ws_response(bytes@) {
            Some(f) => r matches Ok(m) && m@ == f,
            None => r matches Err(e) && e is Protobuf,
        },
{
    let mut m = WsResponseMessage {
        code: 0,
        status: false,
        message: String::new(),
        data: Vec::new(),
        details: String::new(),
        vault: String::new(),
        context: String::new(),
    };
    assert(m@ == empty_response());
    let mut buf = bytes;
    while buf.len() > 0
        invariant
            spec_decode_ws_response(bytes@) == response_fields(buf@, m@),
        decreases buf@.len(),
    {
        proof {
            lemma_decode_key_len(buf@);
        }
        let (tag, wire, rest) = match read_key(buf) {
            Ok(k) => k,
            Err(e) => return Err(ProtocolError::Protobuf(e)),
        };
        proof {
            lemma_varint_within_len(rest@, 10);
        }
        if tag == 1 {
            match read_int32(wire, rest) {
                Ok((v, after)) => {
                    m.code = v;
                    buf = after;
                },
                Err(e) => return Err(decode_failure(e, "WsResponseMessage", "code")),
            }
        } else if tag == 2 {
            match read_bool(wire, rest) {
                Ok((v, after)) => {
                    m.status = v;
                    buf = after;
                },
                Err(e) => return Err(decode_failure(e, "WsResponseMessage", "status")),
            }
        } else if tag == 3 {
            match read_string(wire, rest) {
                Ok((v, after)) => {
                    m.message = v;
                    buf = after;
                },
                Err(e) => return Err(decode_failure(e, "WsResponseMessage", "message")),
            }
        } else if tag == 4 {
            match read_bytes(wire, rest) {
                Ok((v, after)) => {
                    m.data = v;
                    buf = after;
                },
                Err(e) => return Err(decode_failure(e, "WsResponseMessage", "data")),
            }
        } else if tag == 5 {
            match read_string(wire, rest) {
                Ok((v, after)) => {
                    m.details = v;
                    buf = after;
                },
                Err(e) => return Err(decode_failure(e, "WsResponseMessage", "details")),
            }
        } else if tag == 6 {
            match read_string(wire, rest) {
                Ok((v, after)) => {
                    m.vault = v;
                    buf = after;
                },
                Err(e) => return Err(decode_failure(e, "WsResponseMessage", "vault")),
            }
        } else if tag == 7 {
            match read_string(wire, rest) {
                Ok((v, after)) => {
                    m.context = v;
                    buf = after;
                },
                Err(e) => return Err(decode_failure(e, "WsResponseMessage", "context")),
            }
        } else {
            match skip_unknown_field(wire, tag, rest) {
                Ok(after) => {
                    buf = after;
                },
                Err(e) => return Err(ProtocolError::Protobuf(e)),
            }
        }
    }
    Ok(m)
}

/// A protobuf response frame, read: its action, the fields of its
/// `WsResponseMessage`, and the message that its payload is read as.
#[derive(Debug, Clone, PartialEq, Eq)]
pub struct ProtobufResponse {
    pub action: Action,
    pub code: i32,
    pub status: bool,
    pub message: String,
    pub payload: Option<ResponseMessage>,
    pub data: Vec<u8>,
    pub details: Option<String>,
    pub vault: Option<String>,
    pub context: Option<String>,
}

/// An optional text field of a response: absent exactly when the text is empty.
pub open spec fn optional_text(o: Option<String>, text: Seq<char>) -> bool {
    if text.len() == 0 {
        o is None
    } else {
        o matches Some(s) && s@ == text
    }
}

/// `r` holds the response `f` to `action`, whose payload is read as `payload`.
pub open spec fn response_holds(
    r: ProtobufResponse,
    action: Action,
    f: ResponseFields,
    payload: Option<ResponseMessage>,
) -> bool {
    &&& r.action == action
    &&& r.code == f.code
    &&& r.status == f.status
    &&& r.message@ == f.message
    &&& r.data@ == f.data
    &&& r.payload == payload
    &&& optional_text(r.details, f.details)
    &&& optional_text(r.vault, f.vault)
    &&& optional_text(r.context, f.context)
}

/// Reads a protobuf response frame (after its prefix): the `WsMessage`
/// envelope, the action it names, the `WsResponseMessage` it carries, and
/// which message the response payload is read as.
pub fn decode_protobuf_frame(frame: &[u8]) -> (r: Result<ProtobufResponse, ProtocolError>)
    ensures
        match spec_decode_ws_message(frame@) {
            None => r matches Err(e) && e is Protobuf,
            Some((name, body)) => match action_from_name(name) {
                None => r matches Err(e) && e matches ProtocolError::UnknownAction(s) && s@ == name,
                Some(a) => match spec_decode_ws_response(body) {
                    None => r matches Err(e) && e is Protobuf,
                    Some(f) => if f.data.len() == 0 {
                        r matches Ok(v) && response_holds(v, a, f, None)
                    } else {
                        match spec_response_message(a) {
                            Some(p) => r matches Ok(v) && response_holds(v, a, f, p),
                            None => r matches Err(e) && e matches ProtocolError::UnsupportedProtobufAction(
                                s,
                            ) && s@ == action_name(a),
                        }
                    },
                },
            },
        },
{
    let (name, body) = decode_ws_message(frame)?;
    let action = Action::parse(name.as_str())?;
    let response = decode_ws_response(body.as_slice())?;
    let payload = response_message(action, response.data.as_slice())?;
    Ok(ProtobufResponse {
        action,
        code: response.code,
        status: response.status,
        message: response.message,
        payload,
        data: response.data,
        details: optional_string(response.details),
        vault: optional_string(response.vault),
        context: optional_string(response.context),
    })
}

/// A protobuf request frame for `action` whose payload, already encoded as
/// the action's request message, is `payload`; actions whose requests are
/// not sent as protobuf are refused.
pub fn encode_protobuf_frame(action: Action, payload: Vec<u8>) -> (r: Result<Vec<u8>, ProtocolError>)
    ensures
        match spec_request_message(action) {
            Some(_) => r matches Ok(v) && v@ == encode_utf8(PROTOBUF_BINARY_PREFIX@)
                + spec_ws_message_bytes(action_name(action), payload@),
            None => r matches Err(e) && e matches ProtocolError::UnsupportedProtobufAction(s) && s@
                == action_name(action),
        },
{
    request_message(action)?;
    Ok(encode_ws_message(action, payload))
}

} // verus!

verus! {

/// The data field of a `WsMessage`, as `spec_ws_message_bytes` writes it.
pub open spec fn ws_data_part(data: Seq<u8>) -> Seq<u8> {
    if data.len() > 0 {
        len_field(2, data)
    } else {
        Seq::empty()
    }
}

/// Reading the data field of a `WsMessage` after its name gives the data.
proof fn lemma_ws_data_part(name: Seq<char>, data: Seq<u8>)
    requires
        data.len() < 0x1_0000_0000_0000_0000,
    ensures
        ws_message_fields(ws_data_part(data), name, Seq::empty()) == Some((name, data)),
{
    if data.len() > 0 {
        let f = len_field(2, data);
        crate::protocol::wire::lemma_len_field_roundtrip(2, data, Seq::empty());
        assert(f + Seq::<u8>::empty() =~= f);
        let k = crate::protocol::wire::key_bytes(2, 2).len();
        let rest = f.skip(k as int);
        let m = (f.len() - k) as nat;
        assert(spec_decode_key(f) == Some((2u32, 2u8, k)));
        assert(spec_take_len_delimited(2, rest) == Some((data, m)));
        assert(rest.skip(m as int) =~= Seq::<u8>::empty());
        assert(ws_message_fields(rest.skip(m as int), name, data) == Some((name, data)));
    } else {
        assert(data =~= Seq::<u8>::empty());
    }
}

/// Law: a `WsMessage` written by this module reads back as the same action
/// name and data.
pub proof fn lemma_ws_message_roundtrip(name: Seq<char>, data: Seq<u8>)
    requires
        encode_utf8(name).len() < 0x1_0000_0000_0000_0000,
        data.len() < 0x1_0000_0000_0000_0000,
    ensures
        spec_decode_ws_message(spec_ws_message_bytes(name, data)) == Some((name, data)),
{
    let data_part = ws_data_part(data);
    lemma_ws_data_part(name, data);
    if name.len() > 0 {
        let u = encode_utf8(name);
        vstd::utf8::encode_utf8_valid_utf8(name);
        vstd::utf8::encode_utf8_decode_utf8(name);
        crate::protocol::wire::lemma_len_field_roundtrip(1, u, data_part);
        let b = len_field(1, u) + data_part;
        assert(spec_ws_message_bytes(name, data) =~= b);
        let k = crate::protocol::wire::key_bytes(1, 2).len();
        let rest = b.skip(k as int);
        let m = (len_field(1, u).len() - k) as nat;
        assert(spec_decode_key(b) == Some((1u32, 2u8, k)));
        assert(spec_take_len_delimited(2, rest) == Some((u, m)));
        assert(spec_take_string(2, rest) == Some((name, m)));
        assert(rest.skip(m as int) == data_part);
    } else {
        assert(name =~= Seq::<char>::empty());
        assert(spec_ws_message_bytes(name, data) =~= data_part);
    }
}

} // verus!
