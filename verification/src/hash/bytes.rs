use vstd::prelude::*;

use crate::domain::digest::ContentHash;
use crate::hash::decimal::{finish_hash, i32_decimal, lemma_decimal_nonempty};
use crate::hash::rolling::{
    byte_units, lemma_byte_units_concat, lemma_rolling_concat, rolling_hash, RollingByteHash,
};

verus! {

/// Files up to this size are hashed whole.
pub const FILE_HASH_THRESHOLD: usize = 10 * 1024 * 1024;

/// Larger files are hashed by a head and a tail slice of this size.
pub const FILE_HASH_SLICE_SIZE: usize = 5 * 1024 * 1024;

/// The hash value of a byte string: the rolling hash of its bytes.
pub open spec fn spec_bytes_hash(b: Seq<u8>) -> Seq<char> {
    i32_decimal(rolling_hash(byte_units(b)))
}

/// The first `len` bytes of `b`, extended with zero bytes when `b` is shorter.
pub open spec fn spec_pad_or_truncate(b: Seq<u8>, len: nat) -> Seq<u8> {
    if b.len() >= len {
        b.take(len as int)
    } else {
        b + Seq::new((len - b.len()) as nat, |i: int| 0u8)
    }
}

/// The hash value of a large file from its head and tail slices, each
/// padded or cut to the slice size.
pub open spec fn spec_file_hash_parts(head: Seq<u8>, tail: Seq<u8>) -> Seq<char> {
    spec_bytes_hash(
        spec_pad_or_truncate(head, FILE_HASH_SLICE_SIZE as nat) + spec_pad_or_truncate(
            tail,
            FILE_HASH_SLICE_SIZE as nat,
        ),
    )
}

/// The hash value of a file's content: whole up to the threshold, else from
/// its first and last slice.
pub open spec fn spec_file_hash(b: Seq<u8>) -> Seq<char> {
    if b.len() <= FILE_HASH_THRESHOLD {
        spec_bytes_hash(b)
    } else {
        spec_file_hash_parts(
            b.take(FILE_HASH_SLICE_SIZE as int),
            b.skip(b.len() - FILE_HASH_SLICE_SIZE),
        )
    }
}

/// The hash of binary content.
pub fn binary_content_hash(bytes: &[u8]) -> (h: ContentHash)
    ensures
        h@ == spec_bytes_hash(bytes@),
{
    let value = bytes_hash_value(bytes);
    proof {
        lemma_decimal_nonempty(rolling_hash(byte_units(bytes@)));
    }
    ContentHash::from_nonempty(value)
}

/// The hash of a setting file's content; the same as its binary hash.
pub fn setting_content_hash(bytes: &[u8]) -> (h: ContentHash)
    ensures
        h@ == spec_bytes_hash(bytes@),
{
    binary_content_hash(bytes)
}

/// The hash of a file's content.
pub fn file_content_hash(bytes: &[u8]) -> (h: ContentHash)
    ensures
        h@ == spec_file_hash(bytes@),
{
    if bytes.len() <= FILE_HASH_THRESHOLD {
        return binary_content_hash(bytes);
    }
    let head = &bytes[0..FILE_HASH_SLICE_SIZE];
    let tail = &bytes[bytes.len() - FILE_HASH_SLICE_SIZE..bytes.len()];
    assert(head@ =~= bytes@.take(FILE_HASH_SLICE_SIZE as int));
    assert(tail@ =~= bytes@.skip(bytes@.len() - FILE_HASH_SLICE_SIZE));
    file_content_hash_parts(head, tail)
}

/// The hash of a large file from its head and tail slices.
pub fn file_content_hash_parts(head: &[u8], tail: &[u8]) -> (h: ContentHash)
    ensures
        h@ == spec_file_hash_parts(head@, tail@),
{
    let mut hasher = RollingByteHash::default();
    let padded_head = pad_or_truncate(head, FILE_HASH_SLICE_SIZE);
    let padded_tail = pad_or_truncate(tail, FILE_HASH_SLICE_SIZE);
    hasher.update(padded_head.as_slice());
    hasher.update(padded_tail.as_slice());
    let value = hasher.finish();
    proof {
        lemma_rolling_concat(0i32, byte_units(padded_head@), byte_units(padded_tail@));
        lemma_byte_units_concat(padded_head@, padded_tail@);
        lemma_decimal_nonempty(value);
    }
    ContentHash::from_nonempty(finish_hash(value))
}

/// The textual hash of a byte string.
fn bytes_hash_value(bytes: &[u8]) -> (s: String)
    ensures
        s@ == spec_bytes_hash(bytes@),
{
    let mut hasher = RollingByteHash::default();
    hasher.update(bytes);
    finish_hash(hasher.finish())
}

/// The first `len` bytes of `bytes`, extended with zero bytes when it is shorter.
fn pad_or_truncate(bytes: &[u8], len: usize) -> (out: Vec<u8>)
    ensures
        out@ == spec_pad_or_truncate(bytes@, len as nat),
{
    let mut out: Vec<u8> = Vec::new();
    let mut i: usize = 0;
    while i < len
        invariant
            i <= len,
            out@ == spec_pad_or_truncate(bytes@, len as nat).take(i as int),
        decreases len - i,
    {
        let b = if i < bytes.len() { bytes[i] } else { 0u8 };
        out.push(b);
        assert(out@ =~= spec_pad_or_truncate(bytes@, len as nat).take(i + 1));
        i = i + 1;
    }
    assert(spec_pad_or_truncate(bytes@, len as nat).len() == len);
    assert(out@ =~= spec_pad_or_truncate(bytes@, len as nat));
    out
}

} // verus!
