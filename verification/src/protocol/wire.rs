//! The protobuf wire format: varints, field keys and length-delimited
//! fields, read and written with prost's encoding primitives.

use prost::encoding::{DecodeContext, WireType};
use prost::DecodeError;
use vstd::prelude::*;
use vstd::utf8::{decode_utf8, encode_utf8, valid_utf8};

verus! {

#[verifier::external_type_specification]
#[verifier::external_body]
pub struct ExDecodeError(DecodeError);

/// Wire type codes.
pub const WIRE_VARINT: u8 = 0;
pub const WIRE_SIXTY_FOUR_BIT: u8 = 1;
pub const WIRE_LENGTH_DELIMITED: u8 = 2;
pub const WIRE_START_GROUP: u8 = 3;
pub const WIRE_END_GROUP: u8 = 4;
pub const WIRE_THIRTY_TWO_BIT: u8 = 5;

/// The largest field tag.
pub const MAX_TAG: u32 = 536870911;

/// The canonical varint (LEB128) bytes of `v`: seven bits per byte, least
/// significant first, the high bit set on every byte but the last.
pub open spec fn varint_bytes(v: nat) -> Seq<u8>
    decreases v,
{
    if v < 128 {
        seq![v as u8]
    } else {
        seq![(v % 128 + 128) as u8] + varint_bytes(v / 128)
    }
}

/// The varint at the start of `b` read with at most `budget` bytes: its
/// value and length. The tenth byte of a varint may only be 0 or 1.
pub open spec fn varint_within(b: Seq<u8>, budget: nat) -> Option<(nat, nat)>
    decreases budget,
{
    if budget == 0 || b.len() == 0 {
        None
    } else if b[0] < 128 {
        if budget == 1 && b[0] >= 2 {
            None
        } else {
            Some((b[0] as nat, 1))
        }
    } else {
        match varint_within(b.skip(1), (budget - 1) as nat) {
            Some((v, n)) => Some((((b[0] - 128) + 128 * v) as nat, n + 1)),
            None => None,
        }
    }
}

/// The varint at the start of `b` (value and length), as prost's
/// `decode_varint` reads it; `None` when it is truncated or too long.
pub open spec fn spec_decode_varint(b: Seq<u8>) -> Option<(nat, nat)> {
    varint_within(b, 10)
}

/// The field key at the start of `b`: tag, wire type code and length.
pub open spec fn spec_decode_key(b: Seq<u8>) -> Option<(u32, u8, nat)> {
    match spec_decode_varint(b) {
        None => None,
        Some((key, n)) => if key > u32::MAX || key % 8 > 5 || key / 8 < 1 {
            None
        } else {
            Some(((key / 8) as u32, (key % 8) as u8, n))
        },
    }
}

/// The bytes of a field key.
pub open spec fn key_bytes(tag: nat, wire: u8) -> Seq<u8> {
    varint_bytes(tag * 8 + wire as nat)
}

/// A length-delimited field: its key, the payload length, then the payload.
pub open spec fn len_field(tag: nat, payload: Seq<u8>) -> Seq<u8> {
    key_bytes(tag, WIRE_LENGTH_DELIMITED) + varint_bytes(payload.len()) + payload
}

/// The payload of a length-delimited field whose key has been read, and
/// the bytes it occupies with its length prefix.
pub open spec fn spec_take_len_delimited(wire: u8, b: Seq<u8>) -> Option<(Seq<u8>, nat)> {
    if wire != WIRE_LENGTH_DELIMITED {
        None
    } else {
        match spec_decode_varint(b) {
            None => None,
            Some((len, n)) => if n + len > b.len() {
                None
            } else {
                Some((b.subrange(n as int, (n + len) as int), (n + len) as nat))
            },
        }
    }
}

/// A string field: a length-delimited payload that must be UTF-8.
pub open spec fn spec_take_string(wire: u8, b: Seq<u8>) -> Option<(Seq<char>, nat)> {
    match spec_take_len_delimited(wire, b) {
        None => None,
        Some((p, m)) => if valid_utf8(p) {
            Some((decode_utf8(p), m))
        } else {
            None
        },
    }
}

/// A varint field whose key has been read: its value and length.
pub open spec fn spec_take_varint(wire: u8, b: Seq<u8>) -> Option<(nat, nat)> {
    if wire != WIRE_VARINT {
        None
    } else {
        spec_decode_varint(b)
    }
}

/// How many bytes an unknown field of a group wire type occupies, as
/// prost's `skip_field` finds it.
pub uninterp spec fn skipped_group_len(tag: u32, b: Seq<u8>) -> Option<nat>;

/// How many bytes an unknown field occupies after its key.
pub open spec fn spec_skip_field(wire: u8, tag: u32, b: Seq<u8>) -> Option<nat> {
    if wire == WIRE_START_GROUP {
        match skipped_group_len(tag, b) {
            Some(k) => if k <= b.len() { Some(k) } else { None },
            None => None,
        }
    } else if wire == WIRE_VARINT {
        match spec_decode_varint(b) {
            Some((_, n)) => Some(n),
            None => None,
        }
    } else if wire == WIRE_SIXTY_FOUR_BIT {
        if 8 <= b.len() { Some(8) } else { None }
    } else if wire == WIRE_THIRTY_TWO_BIT {
        if 4 <= b.len() { Some(4) } else { None }
    } else if wire == WIRE_LENGTH_DELIMITED {
        match spec_decode_varint(b) {
            Some((len, n)) => if n + len <= b.len() { Some((n + len) as nat) } else { None },
            None => None,
        }
    } else {
        None
    }
}

// ---------------------------------------------------------------------------
// Facts about the wire format
// ---------------------------------------------------------------------------

/// A varint read takes at least one and at most `budget` bytes of its input.
pub proof fn lemma_varint_within_len(b: Seq<u8>, budget: nat)
    ensures
        varint_within(b, budget) matches Some((_, n)) ==> 1 <= n <= b.len() && n <= budget,
    decreases budget,
{
    if budget > 0 && b.len() > 0 && b[0] >= 128 {
        lemma_varint_within_len(b.skip(1), (budget - 1) as nat);
    }
}

/// A key read takes at least one byte and no more than its input.
pub proof fn lemma_decode_key_len(b: Seq<u8>)
    ensures
        spec_decode_key(b) matches Some((_, _, n)) ==> 1 <= n <= b.len(),
{
    lemma_varint_within_len(b, 10);
}

/// The values whose canonical varint can be read within `budget` bytes:
/// seven bits per byte, but only one bit in the last allowed byte.
pub open spec fn varint_cap(budget: nat) -> nat
    decreases budget,
{
    if budget <= 1 {
        2
    } else {
        128 * varint_cap((budget - 1) as nat)
    }
}

/// Every 64-bit value fits in a ten-byte varint.
pub proof fn lemma_varint_cap_ten()
    ensures
        varint_cap(10) == 0x1_0000_0000_0000_0000,
{
    reveal_with_fuel(varint_cap, 11);
}

/// Reading the canonical bytes of `v` within `budget` bytes gives `v` back
/// and stops right after them.
pub proof fn lemma_varint_roundtrip(v: nat, rest: Seq<u8>, budget: nat)
    requires
        budget >= 1,
        v < varint_cap(budget),
    ensures
        varint_within(varint_bytes(v) + rest, budget) == Some((v, varint_bytes(v).len())),
        varint_bytes(v).len() <= budget,
    decreases v,
{
    let b = varint_bytes(v) + rest;
    if v < 128 {
        assert(b[0] == v as u8);
    } else {
        assert(b[0] == (v % 128 + 128) as u8);
        assert(b.skip(1) =~= varint_bytes(v / 128) + rest);
        if budget == 1 {
            assert(false);
        }
        let c = varint_cap((budget - 1) as nat);
        assert(v / 128 < c) by (nonlinear_arith)
            requires
                v < 128 * c,
        ;
        lemma_varint_roundtrip(v / 128, rest, (budget - 1) as nat);
        assert((v % 128 + 128) as u8 as int - 128 + 128 * (v / 128) == v);
    }
}

} // verus!

verus! {

// ---------------------------------------------------------------------------
// prost's encoding primitives
// ---------------------------------------------------------------------------

/// `prost::encoding::decode_key`: reads a field key (a varint of at most
/// 32 bits whose low three bits are a wire type from 0 to 5 and whose
/// remaining bits are a tag of at least 1). Stated: it succeeds exactly
/// when such a key starts the input, returns its tag and wire type code,
/// and leaves the bytes after it.
#[verifier::external_body]
pub fn read_key<'a>(bytes: &'a [u8]) -> (r: Result<(u32, u8, &'a [u8]), DecodeError>)
    ensures
        match spec_decode_key(bytes@) {
            Some((tag, wire, n)) => r matches Ok((t, w, rest)) && t == tag && w == wire && rest@
                == bytes@.skip(n as int),
            None => r is Err,
        },
{
    let mut buf = bytes;
    let (tag, wire) = prost::encoding::decode_key(&mut buf)?;
    Ok((tag, wire as u8, buf))
}

/// `prost::encoding::string::merge`: reads a string field whose key has
/// been read. Stated: it succeeds exactly when the wire type is
/// length-delimited, a length varint follows, that many bytes remain and
/// they are UTF-8; it returns their text and the bytes after them.
#[verifier::external_body]
pub fn read_string<'a>(wire: u8, bytes: &'a [u8]) -> (r: Result<(String, &'a [u8]), DecodeError>)
    requires
        wire <= 5,
    ensures
        match spec_take_string(wire, bytes@) {
            Some((s, m)) => r matches Ok((v, rest)) && v@ == s && rest@ == bytes@.skip(m as int),
            None => r is Err,
        },
{
    let wire = WireType::try_from(u64::from(wire))?;
    let mut value = String::new();
    let mut buf = bytes;
    prost::encoding::string::merge(wire, &mut value, &mut buf, DecodeContext::default())?;
    Ok((value, buf))
}

/// `prost::encoding::bytes::merge`: reads a bytes field whose key has been
/// read. Stated: it succeeds exactly when the wire type is
/// length-delimited, a length varint follows and that many bytes remain;
/// it returns them and the bytes after them.
#[verifier::external_body]
pub fn read_bytes<'a>(wire: u8, bytes: &'a [u8]) -> (r: Result<(Vec<u8>, &'a [u8]), DecodeError>)
    requires
        wire <= 5,
    ensures
        match spec_take_len_delimited(wire, bytes@) {
            Some((p, m)) => r matches Ok((v, rest)) && v@ == p && rest@ == bytes@.skip(m as int),
            None => r is Err,
        },
{
    let wire = WireType::try_from(u64::from(wire))?;
    let mut value: Vec<u8> = Vec::new();
    let mut buf = bytes;
    prost::encoding::bytes::merge(wire, &mut value, &mut buf, DecodeContext::default())?;
    Ok((value, buf))
}

/// `prost::encoding::int32::merge`: reads an `int32` field whose key has
/// been read. Stated: it succeeds exactly when the wire type is varint and
/// a varint follows; the value is the varint's low 32 bits as a signed number.
#[verifier::external_body]
pub fn read_int32<'a>(wire: u8, bytes: &'a [u8]) -> (r: Result<(i32, &'a [u8]), DecodeError>)
    requires
        wire <= 5,
    ensures
        match spec_take_varint(wire, bytes@) {
            Some((v, m)) => r matches Ok((x, rest)) && x == (v as u64) as i32 && rest@ == bytes@.skip(
                m as int,
            ),
            None => r is Err,
        },
{
    let wire = WireType::try_from(u64::from(wire))?;
    let mut value: i32 = 0;
    let mut buf = bytes;
    prost::encoding::int32::merge(wire, &mut value, &mut buf, DecodeContext::default())?;
    Ok((value, buf))
}

/// `prost::encoding::int64::merge`: reads an `int64` field whose key has
/// been read. Stated: it succeeds exactly when the wire type is varint and
/// a varint follows; the value is the varint's 64 bits as a signed number.
#[verifier::external_body]
pub fn read_int64<'a>(wire: u8, bytes: &'a [u8]) -> (r: Result<(i64, &'a [u8]), DecodeError>)
    requires
        wire <= 5,
    ensures
        match spec_take_varint(wire, bytes@) {
            Some((v, m)) => r matches Ok((x, rest)) && x == (v as u64) as i64 && rest@ == bytes@.skip(
                m as int,
            ),
            None => r is Err,
        },
{
    let wire = WireType::try_from(u64::from(wire))?;
    let mut value: i64 = 0;
    let mut buf = bytes;
    prost::encoding::int64::merge(wire, &mut value, &mut buf, DecodeContext::default())?;
    Ok((value, buf))
}

/// `prost::encoding::bool::merge`: reads a `bool` field whose key has been
/// read. Stated: it succeeds exactly when the wire type is varint and a
/// varint follows; the value is whether the varint is non-zero.
#[verifier::external_body]
pub fn read_bool<'a>(wire: u8, bytes: &'a [u8]) -> (r: Result<(bool, &'a [u8]), DecodeError>)
    requires
        wire <= 5,
    ensures
        match spec_take_varint(wire, bytes@) {
            Some((v, m)) => r matches Ok((x, rest)) && x == (v != 0) && rest@ == bytes@.skip(m as int),
            None => r is Err,
        },
{
    let wire = WireType::try_from(u64::from(wire))?;
    let mut value = false;
    let mut buf = bytes;
    prost::encoding::bool::merge(wire, &mut value, &mut buf, DecodeContext::default())?;
    Ok((value, buf))
}

/// `prost::encoding::skip_field` at the top level of a message: passes
/// over an unknown field whose key has been read. Stated: for a varint it
/// passes the varint; for 32- and 64-bit values 4 and 8 bytes; for a
/// length-delimited field its length prefix and payload; an end-group key
/// is refused; for a group the number of bytes is named, and never more
/// than the input. It fails exactly when these bytes are not there.
#[verifier::external_body]
pub fn skip_unknown_field<'a>(wire: u8, tag: u32, bytes: &'a [u8]) -> (r: Result<&'a [u8], DecodeError>)
    requires
        wire <= 5,
    ensures
        match spec_skip_field(wire, tag, bytes@) {
            Some(k) => r matches Ok(rest) && rest@ == bytes@.skip(k as int),
            None => r is Err,
        },
        wire == WIRE_START_GROUP ==> (match skipped_group_len(tag, bytes@) {
            Some(k) => k <= bytes@.len() && (r matches Ok(rest) && rest@ == bytes@.skip(k as int)),
            None => r is Err,
        }),
{
    let wire = WireType::try_from(u64::from(wire))?;
    let mut buf = bytes;
    prost::encoding::skip_field(wire, tag, &mut buf, DecodeContext::default())?;
    Ok(buf)
}

/// `prost::encoding::string::encode`: appends a string field, its key,
/// byte length and UTF-8 bytes.
#[verifier::external_body]
pub fn write_string_field(tag: u32, value: &String, buf: &mut Vec<u8>)
    requires
        1 <= tag <= MAX_TAG,
    ensures
        final(buf)@ == old(buf)@ + len_field(tag as nat, encode_utf8(value@)),
{
    prost::encoding::string::encode(tag, value, buf)
}

/// `prost::encoding::bytes::encode`: appends a bytes field, its key,
/// length and bytes.
#[verifier::external_body]
pub fn write_bytes_field(tag: u32, value: &Vec<u8>, buf: &mut Vec<u8>)
    requires
        1 <= tag <= MAX_TAG,
    ensures
        final(buf)@ == old(buf)@ + len_field(tag as nat, value@),
{
    prost::encoding::bytes::encode(tag, value, buf)
}

/// `prost::encoding::int64::encode`: appends an `int64` field, its key
/// and the value's 64 bits as a varint.
#[verifier::external_body]
pub fn write_int64_field(tag: u32, value: i64, buf: &mut Vec<u8>)
    requires
        1 <= tag <= MAX_TAG,
    ensures
        final(buf)@ == old(buf)@ + key_bytes(tag as nat, WIRE_VARINT) + varint_bytes(
            (value as u64) as nat,
        ),
{
    prost::encoding::int64::encode(tag, &value, buf)
}

/// `prost::encoding::bool::encode`: appends a `bool` field, its key and
/// the varint 1 or 0.
#[verifier::external_body]
pub fn write_bool_field(tag: u32, value: bool, buf: &mut Vec<u8>)
    requires
        1 <= tag <= MAX_TAG,
    ensures
        final(buf)@ == old(buf)@ + key_bytes(tag as nat, WIRE_VARINT) + varint_bytes(
            if value { 1nat } else { 0nat },
        ),
{
    prost::encoding::bool::encode(tag, &value, buf)
}

/// `DecodeError::push`: records the message and field being read when an
/// error arose. Nothing is stated of the error, which Verus sees as opaque.
#[verifier::external_body]
pub fn note_error_field(error: &mut DecodeError, message: &'static str, field: &'static str) {
    error.push(message, field)
}

} // verus!

verus! {

/// Law: a length-delimited field written with prost's encoding reads back
/// as its tag, its wire type and its payload, leaving what follows it.
pub proof fn lemma_len_field_roundtrip(tag: nat, payload: Seq<u8>, tail: Seq<u8>)
    requires
        1 <= tag <= MAX_TAG,
        payload.len() < 0x1_0000_0000_0000_0000,
    ensures
        ({
            let b = len_field(tag, payload) + tail;
            let k = key_bytes(tag, WIRE_LENGTH_DELIMITED).len();
            &&& spec_decode_key(b) == Some((tag as u32, WIRE_LENGTH_DELIMITED, k))
            &&& spec_take_len_delimited(WIRE_LENGTH_DELIMITED, b.skip(k as int)) == Some(
                (payload, (len_field(tag, payload).len() - k) as nat),
            )
            &&& b.skip(k as int).skip((len_field(tag, payload).len() - k) as int) == tail
        }),
{
    let key = tag * 8 + 2;
    let kb = varint_bytes(key);
    let lb = varint_bytes(payload.len());
    let b = len_field(tag, payload) + tail;
    lemma_varint_cap_ten();
    assert(key < varint_cap(10));
    lemma_varint_roundtrip(key, lb + payload + tail, 10);
    assert(b =~= kb + (lb + payload + tail));
    assert(key % 8 == 2 && key / 8 == tag);
    let after_key = b.skip(kb.len() as int);
    assert(after_key =~= lb + (payload + tail));
    lemma_varint_roundtrip(payload.len(), payload + tail, 10);
    assert(after_key.subrange(lb.len() as int, (lb.len() + payload.len()) as int) =~= payload);
    assert(after_key.skip((lb.len() + payload.len()) as int) =~= tail);
}

} // verus!
