use vstd::prelude::*;
use vstd::utf8::{decode_utf8, encode_utf8, valid_utf8};

use crate::protocol::error::ProtocolError;

verus! {

/// The binary prefix of file synchronisation frames.
pub const BINARY_PREFIX_FILE_SYNC: &'static str = "00";

/// The length of a file chunk header: the session id and the chunk index.
pub const FILE_CHUNK_HEADER_LEN: usize = 40;

/// The length in bytes of a file chunk session id.
pub const FILE_CHUNK_SESSION_ID_LEN: usize = 36;

/// The big-endian bytes of `v`.
pub open spec fn be_bytes(v: u32) -> Seq<u8> {
    seq![(v >> 24) as u8, ((v >> 16) & 0xff) as u8, ((v >> 8) & 0xff) as u8, (v & 0xff) as u8]
}

/// The number whose big-endian bytes are `b0 b1 b2 b3`.
pub open spec fn from_be_bytes(b0: u8, b1: u8, b2: u8, b3: u8) -> u32 {
    ((b0 as u32) << 24) | ((b1 as u32) << 16) | ((b2 as u32) << 8) | (b3 as u32)
}

/// The two prefix bytes of a binary frame given as text, if its UTF-8 form has exactly two bytes.
pub open spec fn spec_parse_prefix(prefix: Seq<char>) -> Option<Seq<u8>> {
    if encode_utf8(prefix).len() == 2 {
        Some(encode_utf8(prefix))
    } else {
        None
    }
}

/// A binary websocket frame: a two-byte prefix and a payload.
#[derive(Debug, Clone, PartialEq, Eq)]
pub struct BinaryFrame {
    prefix: [u8; 2],
    payload: Vec<u8>,
}

impl View for BinaryFrame {
    type V = (Seq<u8>, Seq<u8>);

    closed spec fn view(&self) -> (Seq<u8>, Seq<u8>) {
        (self.prefix@, self.payload@)
    }
}

impl BinaryFrame {
    /// A frame with the given text prefix, which must be two bytes long.
    pub fn new(prefix: &str, payload: Vec<u8>) -> (r: Result<Self, ProtocolError>)
        ensures
            match spec_parse_prefix(prefix@) {
                Some(p) => r matches Ok(f) && f@ == (p, payload@),
                None => r == Err::<Self, ProtocolError>(ProtocolError::InvalidBinaryPrefix),
            },
    {
        let prefix = parse_prefix(prefix)?;
        Ok(BinaryFrame { prefix, payload })
    }

    pub fn prefix(&self) -> (r: [u8; 2])
        ensures
            r@ == self@.0,
    {
        self.prefix
    }

    /// The prefix read as UTF-8, invalid sequences replaced.
    pub fn prefix_str(&self) -> (r: String)
        ensures
            r@ == utf8_lossy(self@.0),
            valid_utf8(self@.0) ==> r@ == decode_utf8(self@.0),
    {
        utf8_lossy_string(self.prefix.as_slice())
    }

    pub fn payload(&self) -> (r: &[u8])
        ensures
            r@ == self@.1,
    {
        self.payload.as_slice()
    }

    pub fn into_parts(self) -> (r: ([u8; 2], Vec<u8>))
        ensures
            r.0@ == self@.0,
            r.1@ == self@.1,
    {
        (self.prefix, self.payload)
    }
}

/// A file chunk carried in a binary frame: a 36-byte session id, a chunk
/// index and the chunk's bytes.
#[derive(Debug, PartialEq, Eq)]
pub struct FileChunkFrame {
    session_id: String,
    chunk_index: u32,
    chunk_data: Vec<u8>,
}

impl View for FileChunkFrame {
    type V = (Seq<char>, u32, Seq<u8>);

    closed spec fn view(&self) -> (Seq<char>, u32, Seq<u8>) {
        (self.session_id@, self.chunk_index, self.chunk_data@)
    }
}

impl FileChunkFrame {
    #[verifier::type_invariant]
    spec fn inv(self) -> bool {
        encode_utf8(self.session_id@).len() == FILE_CHUNK_SESSION_ID_LEN
    }

    /// A chunk frame; the session id must be 36 bytes long in UTF-8.
    pub fn new(session_id: String, chunk_index: u32, chunk_data: Vec<u8>) -> (r: Result<
        Self,
        ProtocolError,
    >)
        ensures
            encode_utf8(session_id@).len() == FILE_CHUNK_SESSION_ID_LEN ==> (r matches Ok(f) && f@
                == (session_id@, chunk_index, chunk_data@)),
            encode_utf8(session_id@).len() != FILE_CHUNK_SESSION_ID_LEN ==> r == Err::<
                Self,
                ProtocolError,
            >(ProtocolError::InvalidFileChunkSessionId),
    {
        if session_id.as_str().as_bytes().len() != FILE_CHUNK_SESSION_ID_LEN {
            return Err(ProtocolError::InvalidFileChunkSessionId);
        }
        Ok(FileChunkFrame { session_id, chunk_index, chunk_data })
    }

    pub fn session_id(&self) -> (r: &str)
        ensures
            r@ == self@.0,
            encode_utf8(r@).len() == FILE_CHUNK_SESSION_ID_LEN,
    {
        proof {
            use_type_invariant(self);
        }
        self.session_id.as_str()
    }

    pub fn chunk_index(&self) -> (r: u32)
        ensures
            r == self@.1,
    {
        self.chunk_index
    }

    pub fn chunk_data(&self) -> (r: &[u8])
        ensures
            r@ == self@.2,
    {
        self.chunk_data.as_slice()
    }

    pub fn into_parts(self) -> (r: (String, u32, Vec<u8>))
        ensures
            r.0@ == self@.0,
            r.1 == self@.1,
            r.2@ == self@.2,
            encode_utf8(r.0@).len() == FILE_CHUNK_SESSION_ID_LEN,
    {
        proof {
            use_type_invariant(&self);
        }
        (self.session_id, self.chunk_index, self.chunk_data)
    }
}

impl Clone for FileChunkFrame {
    fn clone(&self) -> (r: Self)
        ensures
            r@ == self@,
    {
        proof {
            use_type_invariant(self);
        }
        FileChunkFrame {
            session_id: self.session_id.clone(),
            chunk_index: self.chunk_index,
            chunk_data: self.chunk_data.clone(),
        }
    }
}

/// The wire form of a binary frame: the two prefix bytes, then the payload.
pub fn encode_binary_frame(prefix: &str, payload: &[u8]) -> (r: Result<Vec<u8>, ProtocolError>)
    ensures
        match spec_parse_prefix(prefix@) {
            Some(p) => r matches Ok(frame) && frame@ == p + payload@,
            None => r == Err::<Vec<u8>, ProtocolError>(ProtocolError::InvalidBinaryPrefix),
        },
{
    let prefix = parse_prefix(prefix)?;
    let mut frame: Vec<u8> = Vec::new();
    frame.push(prefix[0]);
    frame.push(prefix[1]);
    assert(frame@ =~= prefix@);
    append_bytes(&mut frame, payload);
    Ok(frame)
}

/// Splits a binary frame into its prefix and payload; frames shorter than
/// two bytes are refused.
pub fn decode_binary_frame(frame: &[u8]) -> (r: Result<BinaryFrame, ProtocolError>)
    ensures
        frame@.len() >= 2 ==> (r matches Ok(f) && f@ == (frame@.take(2), frame@.skip(2))),
        frame@.len() < 2 ==> r == Err::<BinaryFrame, ProtocolError>(
            ProtocolError::InvalidBinaryPrefix,
        ),
{
    if frame.len() < 2 {
        return Err(ProtocolError::InvalidBinaryPrefix);
    }
    let prefix = [frame[0], frame[1]];
    let payload = slice_to_vec(&frame[2..frame.len()]);
    assert(prefix@ =~= frame@.take(2));
    assert(payload@ =~= frame@.skip(2));
    Ok(BinaryFrame { prefix, payload })
}

/// The payload of a file chunk frame: the session id bytes, the chunk
/// index in big-endian order, then the chunk's bytes.
pub fn encode_file_chunk_payload(chunk: &FileChunkFrame) -> (r: Vec<u8>)
    ensures
        r@ == encode_utf8(chunk@.0) + be_bytes(chunk@.1) + chunk@.2,
        r@.len() == FILE_CHUNK_HEADER_LEN + chunk@.2.len(),
{
    proof {
        use_type_invariant(chunk);
    }
    let session = chunk.session_id.as_str().as_bytes();
    let mut payload: Vec<u8> = Vec::new();
    append_bytes(&mut payload, session);
    assert(payload@ =~= session@);
    let v = chunk.chunk_index;
    payload.push((v >> 24) as u8);
    payload.push(((v >> 16) & 0xff) as u8);
    payload.push(((v >> 8) & 0xff) as u8);
    payload.push((v & 0xff) as u8);
    assert(payload@ =~= session@ + be_bytes(v));
    append_bytes(&mut payload, chunk.chunk_data.as_slice());
    payload
}

/// Reads a file chunk from a frame payload: refuses payloads shorter than
/// the header and session ids that are not UTF-8.
pub fn decode_file_chunk_payload(payload: &[u8]) -> (r: Result<FileChunkFrame, ProtocolError>)
    ensures
        payload@.len() < FILE_CHUNK_HEADER_LEN ==> r == Err::<FileChunkFrame, ProtocolError>(
            ProtocolError::InvalidFileChunkFrame,
        ),
        payload@.len() >= FILE_CHUNK_HEADER_LEN && !valid_utf8(payload@.take(36)) ==> r == Err::<
            FileChunkFrame,
            ProtocolError,
        >(ProtocolError::InvalidFileChunkSessionIdUtf8),
        payload@.len() >= FILE_CHUNK_HEADER_LEN && valid_utf8(payload@.take(36)) ==> (r matches Ok(
            f,
        ) && f@ == (
            decode_utf8(payload@.take(36)),
            from_be_bytes(payload@[36], payload@[37], payload@[38], payload@[39]),
            payload@.skip(40),
        )),
{
    if payload.len() < FILE_CHUNK_HEADER_LEN {
        return Err(ProtocolError::InvalidFileChunkFrame);
    }
    let head = &payload[0..FILE_CHUNK_SESSION_ID_LEN];
    assert(head@ =~= payload@.take(36));
    let session_id = match utf8_to_string(head) {
        Some(s) => s,
        None => return Err(ProtocolError::InvalidFileChunkSessionIdUtf8),
    };
    let b0 = payload[36];
    let b1 = payload[37];
    let b2 = payload[38];
    let b3 = payload[39];
    let chunk_index = ((b0 as u32) << 24) | ((b1 as u32) << 16) | ((b2 as u32) << 8) | (b3 as u32);
    let chunk_data = slice_to_vec(&payload[FILE_CHUNK_HEADER_LEN..payload.len()]);
    assert(chunk_data@ =~= payload@.skip(40));
    proof {
        vstd::utf8::decode_utf8_encode_utf8(head@);
    }
    FileChunkFrame::new(session_id, chunk_index, chunk_data)
}

fn parse_prefix(prefix: &str) -> (r: Result<[u8; 2], ProtocolError>)
    ensures
        match spec_parse_prefix(prefix@) {
            Some(p) => r matches Ok(a) && a@ == p,
            None => r == Err::<[u8; 2], ProtocolError>(ProtocolError::InvalidBinaryPrefix),
        },
{
    let bytes = prefix.as_bytes();
    if bytes.len() != 2 {
        return Err(ProtocolError::InvalidBinaryPrefix);
    }
    let a = [bytes[0], bytes[1]];
    assert(a@ =~= bytes@);
    Ok(a)
}

/// Appends `bytes` to `out`.
pub(crate) fn append_bytes(out: &mut Vec<u8>, bytes: &[u8])
    ensures
        final(out)@ == old(out)@ + bytes@,
{
    let ghost start = out@;
    let mut i: usize = 0;
    while i < bytes.len()
        invariant
            i <= bytes@.len(),
            out@ == start + bytes@.take(i as int),
        decreases bytes@.len() - i,
    {
        out.push(bytes[i]);
        assert(bytes@.take(i + 1) =~= bytes@.take(i as int).push(bytes@[i as int]));
        i = i + 1;
    }
    assert(bytes@.take(bytes@.len() as int) =~= bytes@);
}

fn slice_to_vec(s: &[u8]) -> (v: Vec<u8>)
    ensures
        v@ == s@,
{
    let mut v: Vec<u8> = Vec::new();
    append_bytes(&mut v, s);
    assert(v@ =~= s@);
    v
}

/// The text that `String::from_utf8_lossy` reads from `bytes`.
pub uninterp spec fn utf8_lossy(bytes: Seq<u8>) -> Seq<char>;

/// `String::from_utf8_lossy`: the text of `bytes` with every invalid UTF-8
/// sequence replaced by U+FFFD. Stated: the result is the named lossy
/// reading of the bytes, and for valid UTF-8 it is the decoded text, as the
/// documentation says. The replacement rule itself is left unstated.
#[verifier::external_body]
fn utf8_lossy_string(bytes: &[u8]) -> (r: String)
    ensures
        r@ == utf8_lossy(bytes@),
        valid_utf8(bytes@) ==> r@ == decode_utf8(bytes@),
{
    String::from_utf8_lossy(bytes).into_owned()
}

/// `std::str::from_utf8`: the text of `bytes` if they are valid UTF-8,
/// as its documentation states.
#[verifier::external_body]
fn utf8_to_string(bytes: &[u8]) -> (r: Option<String>)
    ensures
        r is Some <==> valid_utf8(bytes@),
        r matches Some(s) ==> s@ == decode_utf8(bytes@),
{
    match std::str::from_utf8(bytes) {
        Ok(s) => Some(s.to_owned()),
        Err(_) => None,
    }
}

} // verus!

verus! {

/// Law: a binary frame written with a valid prefix reads back as that
/// prefix and the same payload.
pub proof fn lemma_binary_frame_roundtrip(prefix: Seq<char>, payload: Seq<u8>)
    requires
        spec_parse_prefix(prefix) is Some,
    ensures
        ({
            let frame = spec_parse_prefix(prefix)->Some_0 + payload;
            &&& frame.len() >= 2
            &&& frame.take(2) == spec_parse_prefix(prefix)->Some_0
            &&& frame.skip(2) == payload
        }),
{
    let p = spec_parse_prefix(prefix)->Some_0;
    assert((p + payload).take(2) =~= p);
    assert((p + payload).skip(2) =~= payload);
}

/// Law: the big-endian bytes of a chunk index read back as the index.
pub proof fn lemma_be_bytes_roundtrip(v: u32)
    ensures
        from_be_bytes(be_bytes(v)[0], be_bytes(v)[1], be_bytes(v)[2], be_bytes(v)[3]) == v,
{
    assert((((((v >> 24) as u8) as u32) << 24) | (((((v >> 16) & 0xff) as u8) as u32) << 16) | (
    (((((v >> 8) & 0xff) as u8) as u32) << 8)) | ((((v & 0xff) as u8) as u32))) == v)
        by (bit_vector);
}

/// Law: the payload written for a file chunk reads back as the same
/// session id, chunk index and data.
pub proof fn lemma_file_chunk_roundtrip(session_id: Seq<char>, chunk_index: u32, data: Seq<u8>)
    requires
        encode_utf8(session_id).len() == FILE_CHUNK_SESSION_ID_LEN,
    ensures
        ({
            let payload = encode_utf8(session_id) + be_bytes(chunk_index) + data;
            &&& payload.len() >= FILE_CHUNK_HEADER_LEN
            &&& valid_utf8(payload.take(36))
            &&& decode_utf8(payload.take(36)) == session_id
            &&& from_be_bytes(payload[36], payload[37], payload[38], payload[39]) == chunk_index
            &&& payload.skip(40) == data
        }),
{
    let s = encode_utf8(session_id);
    let b = be_bytes(chunk_index);
    let payload = s + b + data;
    assert(payload.take(36) =~= s);
    vstd::utf8::encode_utf8_valid_utf8(session_id);
    vstd::utf8::encode_utf8_decode_utf8(session_id);
    assert(payload[36] == b[0]);
    assert(payload[37] == b[1]);
    assert(payload[38] == b[2]);
    assert(payload[39] == b[3]);
    lemma_be_bytes_roundtrip(chunk_index);
    assert(payload.skip(40) =~= data);
}

} // verus!
