use vstd::prelude::*;

use crate::domain::digest::ContentHash;
use crate::domain::text::chars_of;
use crate::hash::decimal::{finish_hash, i32_decimal};
use crate::hash::rolling::{rolling_from, rolling_hash, rolling_step};

verus! {

/// The UTF-16 code units of one character, as `char::encode_utf16` writes them.
pub open spec fn utf16_units(c: char) -> Seq<int> {
    let u = c as u32;
    if u < 0x10000 {
        seq![u as int]
    } else {
        seq![0xd800 + (u - 0x10000) / 0x400, 0xdc00 + (u - 0x10000) % 0x400]
    }
}

/// The UTF-16 code units of `s`, as `str::encode_utf16` yields them.
pub open spec fn encode_utf16(s: Seq<char>) -> Seq<int>
    decreases s.len(),
{
    if s.len() == 0 {
        Seq::empty()
    } else {
        encode_utf16(s.drop_last()) + utf16_units(s.last())
    }
}

/// The hash value of a text: the rolling hash of its UTF-16 code units, as
/// JavaScript's `charCodeAt` sees them.
pub open spec fn spec_text_hash(s: Seq<char>) -> Seq<char> {
    i32_decimal(rolling_hash(encode_utf16(s)))
}

/// Continues the rolling hash `h` over the UTF-16 code units of `c`.
fn hash_char(h: i32, c: char) -> (r: i32)
    ensures
        r == rolling_from(h, utf16_units(c)),
{
    let u = c as u32;
    proof {
        vstd::utf8::char_is_scalar(c);
    }
    assert(u <= 0x10ffff);
    if u < 0x10000 {
        assert(seq![u as int].drop_last() =~= Seq::<int>::empty());
        assert(rolling_from(h, Seq::<int>::empty()) == h);
        assert(rolling_from(h, seq![u as int]) == (31 * h + u) as i32);
        rolling_step(h, u as u16)
    } else {
        let v = u - 0x10000;
        let high = (0xd800 + v / 0x400) as u16;
        let low = (0xdc00 + v % 0x400) as u16;
        let ghost units = utf16_units(c);
        assert(units[0] == high as int);
        assert(units[1] == low as int);
        assert(units.drop_last() =~= seq![units[0]]);
        assert(seq![units[0]].drop_last() =~= Seq::<int>::empty());
        let h1 = rolling_step(h, high);
        assert(rolling_from(h, Seq::<int>::empty()) == h);
        assert(rolling_from(h, seq![units[0]]) == h1);
        let r = rolling_step(h1, low);
        assert(rolling_from(h, units) == r);
        r
    }
}

/// The textual hash of `content`, compatible with the Fast Note Sync Obsidian plugin.
pub fn text_hash_value(content: &str) -> (s: String)
    ensures
        s@ == spec_text_hash(content@),
{
    let chars = chars_of(content);
    let mut hash: i32 = 0;
    let mut i: usize = 0;
    while i < chars.len()
        invariant
            i <= chars@.len(),
            hash == rolling_hash(encode_utf16(chars@.take(i as int))),
        decreases chars@.len() - i,
    {
        let ghost prefix = chars@.take(i as int);
        assert(chars@.take(i + 1).drop_last() =~= prefix);
        assert(chars@.take(i + 1).last() == chars@[i as int]);
        proof {
            crate::hash::rolling::lemma_rolling_concat(
                0i32,
                encode_utf16(prefix),
                utf16_units(chars@[i as int]),
            );
        }
        hash = hash_char(hash, chars[i]);
        i = i + 1;
    }
    assert(chars@.take(chars@.len() as int) =~= content@);
    finish_hash(hash)
}

/// The content hash of a note or setting text.
pub fn text_content_hash(content: &str) -> (h: ContentHash)
    ensures
        h@ == spec_text_hash(content@),
{
    let value = text_hash_value(content);
    proof {
        crate::hash::decimal::lemma_decimal_nonempty(rolling_hash(encode_utf16(content@)));
    }
    ContentHash::from_nonempty(value)
}

} // verus!

verus! {

proof fn lemma_ascii_utf16_units(s: Seq<char>)
    requires
        vstd::utf8::is_ascii_chars(s),
    ensures
        encode_utf16(s) == s.map_values(|c: char| (c as u32) as int),
    decreases s.len(),
{
    if s.len() > 0 {
        let init = s.drop_last();
        assert(vstd::utf8::is_ascii_chars(init)) by {
            assert forall|i: int| 0 <= i < init.len() implies '\0' <= #[trigger] init[i] <= '\u{7f}' by {
                assert(init[i] == s[i]);
            }
        }
        lemma_ascii_utf16_units(init);
        assert('\0' <= s[s.len() - 1] <= '\u{7f}');
        assert(encode_utf16(s) =~= s.map_values(|c: char| (c as u32) as int));
    }
}

/// Law: for ASCII text the text hash equals the byte hash of its UTF-8
/// encoding, so notes and files agree on plain ASCII content.
pub proof fn lemma_ascii_text_hash_is_bytes_hash(s: Seq<char>)
    requires
        vstd::utf8::is_ascii_chars(s),
    ensures
        spec_text_hash(s) == crate::hash::bytes::spec_bytes_hash(vstd::utf8::encode_utf8(s)),
{
    lemma_ascii_utf16_units(s);
    vstd::utf8::is_ascii_chars_encode_utf8(s);
    let b = vstd::utf8::encode_utf8(s);
    assert forall|i: int| 0 <= i < s.len() implies (s[i] as u32) as int == (b[i] as int) by {
        assert(s[i] as u8 == b[i]);
        assert('\0' <= s[i] <= '\u{7f}');
    }
    assert(encode_utf16(s) =~= crate::hash::rolling::byte_units(b));
}

} // verus!
