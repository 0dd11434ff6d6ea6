use vstd::prelude::*;
use vstd::utf8::encode_utf8;

use crate::domain::error::CoreError;
use crate::domain::text::{
    chars_of, is_ascii_alphabetic, is_control, is_whitespace, spec_is_ascii_alphabetic,
    spec_is_control, spec_is_trimmed, string_of,
};

verus! {

// ---------------------------------------------------------------------------
// Specification of vault path normalisation
// ---------------------------------------------------------------------------

/// The pieces of `s` between `/` separators, as `str::split('/')` yields them
/// (an empty string gives one empty piece).
pub open spec fn split_on_slash(s: Seq<char>) -> Seq<Seq<char>>
    decreases s.len(),
{
    if s.len() == 0 {
        seq![Seq::empty()]
    } else {
        let init = split_on_slash(s.drop_last());
        if s.last() == '/' {
            init.push(Seq::empty())
        } else {
            init.update(init.len() - 1, init.last().push(s.last()))
        }
    }
}

/// The pieces of `segs` joined with `/` between neighbours, as `[..].join("/")` does.
pub open spec fn join_with_slash(segs: Seq<Seq<char>>) -> Seq<char>
    decreases segs.len(),
{
    if segs.len() == 0 {
        Seq::empty()
    } else if segs.len() == 1 {
        segs[0]
    } else {
        join_with_slash(segs.drop_last()) + seq!['/'] + segs.last()
    }
}

/// What normalisation does with one piece, given the pieces kept so far:
/// empty pieces and `.` are dropped, `..` is refused, a piece ending in `:`
/// is refused, any other piece is kept.
pub open spec fn keep_segment(kept: Seq<Seq<char>>, seg: Seq<char>) -> Result<
    Seq<Seq<char>>,
    CoreError,
> {
    if seg.len() == 0 || seg =~= seq!['.'] {
        Ok(kept)
    } else if seg =~= seq!['.', '.'] {
        Err(CoreError::ParentTraversal)
    } else if seg.last() == ':' {
        Err(CoreError::InvalidPath)
    } else {
        Ok(kept.push(seg))
    }
}

/// The pieces kept from `segs`, taken left to right; the first refused piece decides the error.
pub open spec fn keep_segments(segs: Seq<Seq<char>>) -> Result<Seq<Seq<char>>, CoreError>
    decreases segs.len(),
{
    if segs.len() == 0 {
        Ok(Seq::empty())
    } else {
        match keep_segments(segs.drop_last()) {
            Err(e) => Err(e),
            Ok(kept) => keep_segment(kept, segs.last()),
        }
    }
}

/// `s` with every backslash replaced by a slash.
pub open spec fn replace_backslash(s: Seq<char>) -> Seq<char> {
    s.map_values(|c: char| if c == '\\' { '/' } else { c })
}

/// Whether the UTF-8 bytes of `s` start with an ASCII letter and a colon.
pub open spec fn spec_has_windows_drive_prefix(s: Seq<char>) -> bool {
    let b = encode_utf8(s);
    b.len() >= 2 && spec_is_ascii_alphabetic(b[0]) && b[1] == 0x3au8
}

/// Whether `s` holds a NUL or a control character.
pub open spec fn has_control_char(s: Seq<char>) -> bool {
    exists|i: int| 0 <= i < s.len() && (s[i] == '\0' || spec_is_control(#[trigger] s[i]))
}

/// The normal form of a vault path, or the error that refuses it.
pub open spec fn spec_normalize_vault_path(v: Seq<char>) -> Result<Seq<char>, CoreError> {
    if v.len() == 0 || !spec_is_trimmed(v) {
        Err(CoreError::EmptyPath)
    } else if has_control_char(v) {
        Err(CoreError::InvalidPath)
    } else {
        let r = replace_backslash(v);
        if r[0] == '/' || spec_has_windows_drive_prefix(r) {
            Err(CoreError::AbsolutePath)
        } else {
            match keep_segments(split_on_slash(r)) {
                Err(e) => Err(e),
                Ok(kept) => if kept.len() == 0 {
                    Err(CoreError::EmptyPath)
                } else {
                    Ok(join_with_slash(kept))
                },
            }
        }
    }
}

pub proof fn lemma_split_nonempty(s: Seq<char>)
    ensures
        split_on_slash(s).len() >= 1,
    decreases s.len(),
{
    if s.len() > 0 {
        lemma_split_nonempty(s.drop_last());
    }
}

// ---------------------------------------------------------------------------
// Executable normalisation
// ---------------------------------------------------------------------------

fn has_windows_drive_prefix(value: &str) -> (r: bool)
    ensures
        r == spec_has_windows_drive_prefix(value@),
{
    let bytes = value.as_bytes();
    bytes.len() >= 2 && is_ascii_alphabetic(bytes[0]) && bytes[1] == 0x3au8
}

/// The pieces of `r` between slashes.
pub(crate) fn split_segments(r: &Vec<char>) -> (segs: Vec<Vec<char>>)
    ensures
        segs@.len() == split_on_slash(r@).len(),
        forall|k: int| 0 <= k < segs@.len() ==> #[trigger] segs@[k]@ == split_on_slash(r@)[k],
{
    let mut segs: Vec<Vec<char>> = Vec::new();
    let mut cur: Vec<char> = Vec::new();
    let mut i: usize = 0;
    while i < r.len()
        invariant
            i <= r.len(),
            segs@.len() + 1 == split_on_slash(r@.take(i as int)).len(),
            forall|k: int|
                0 <= k < segs@.len() ==> #[trigger] segs@[k]@ == split_on_slash(
                    r@.take(i as int),
                )[k],
            cur@ == split_on_slash(r@.take(i as int)).last(),
        decreases r.len() - i,
    {
        let c = r[i];
        let ghost before = split_on_slash(r@.take(i as int));
        assert(r@.take(i + 1).drop_last() =~= r@.take(i as int));
        assert(r@.take(i + 1).last() == c);
        proof {
            lemma_split_nonempty(r@.take(i as int));
        }
        if c == '/' {
            segs.push(cur);
            cur = Vec::new();
        } else {
            cur.push(c);
        }
        i = i + 1;
    }
    assert(r@.take(r.len() as int) =~= r@);
    segs.push(cur);
    segs
}

/// The pieces of `segs` that normalisation keeps, or the error of the first refused one.
fn keep_path_segments(segs: Vec<Vec<char>>) -> (res: Result<Vec<Vec<char>>, CoreError>)
    ensures
        match keep_segments(segs@.map_values(|v: Vec<char>| v@)) {
            Err(e) => res == Err::<Vec<Vec<char>>, CoreError>(e),
            Ok(kept) => res matches Ok(out) && out@.len() == kept.len() && forall|k: int|
                0 <= k < kept.len() ==> #[trigger] out@[k]@ == kept[k],
        },
{
    let ghost all = segs@.map_values(|v: Vec<char>| v@);
    let mut kept: Vec<Vec<char>> = Vec::new();
    let mut i: usize = 0;
    while i < segs.len()
        invariant
            i <= segs.len(),
            all == segs@.map_values(|v: Vec<char>| v@),
            keep_segments(all.take(i as int)) matches Ok(k) && kept@.len() == k.len() && forall|
                j: int,
            |
                0 <= j < k.len() ==> #[trigger] kept@[j]@ == k[j],
        decreases segs.len() - i,
    {
        let seg = &segs[i];
        let ghost prev = keep_segments(all.take(i as int))->Ok_0;
        assert(all.take(i + 1).drop_last() =~= all.take(i as int));
        assert(all.take(i + 1).last() == seg@);
        let n = seg.len();
        if n == 0 || (n == 1 && seg[0] == '.') {
            assert(n == 1 ==> seg@ =~= seq!['.']);
        } else if n == 2 && seg[0] == '.' && seg[1] == '.' {
            assert(seg@ =~= seq!['.', '.']);
            assert(keep_segments(all.take(i + 1)) == Err::<Seq<Seq<char>>, CoreError>(
                CoreError::ParentTraversal,
            ));
            proof {
                lemma_keep_segments_error_sticks(all, i as int + 1);
            }
            return Err(CoreError::ParentTraversal);
        } else if seg[n - 1] == ':' {
            assert(!(seg@ =~= seq!['.']));
            assert(!(seg@ =~= seq!['.', '.']));
            proof {
                lemma_keep_segments_error_sticks(all, i as int + 1);
            }
            return Err(CoreError::InvalidPath);
        } else {
            assert(!(seg@ =~= seq!['.']));
            assert(!(seg@ =~= seq!['.', '.']));
            kept.push(seg.clone());
        }
        i = i + 1;
    }
    assert(all.take(segs.len() as int) =~= all);
    Ok(kept)
}

/// Once some prefix of the pieces is refused, the whole sequence is refused with the same error.
proof fn lemma_keep_segments_error_sticks(all: Seq<Seq<char>>, n: int)
    requires
        0 <= n <= all.len(),
        keep_segments(all.take(n)) is Err,
    ensures
        keep_segments(all) == keep_segments(all.take(n)),
    decreases all.len() - n,
{
    if n < all.len() {
        assert(all.take(n + 1).drop_last() =~= all.take(n));
        lemma_keep_segments_error_sticks(all, n + 1);
    } else {
        assert(all.take(n) =~= all);
    }
}

/// The pieces joined with `/`.
fn join_segments(segs: &Vec<Vec<char>>) -> (out: Vec<char>)
    ensures
        out@ == join_with_slash(segs@.map_values(|v: Vec<char>| v@)),
{
    let ghost all = segs@.map_values(|v: Vec<char>| v@);
    let mut out: Vec<char> = Vec::new();
    let mut k: usize = 0;
    while k < segs.len()
        invariant
            k <= segs.len(),
            all == segs@.map_values(|v: Vec<char>| v@),
            out@ == join_with_slash(all.take(k as int)),
        decreases segs.len() - k,
    {
        let ghost before = out@;
        assert(all.take(k + 1).drop_last() =~= all.take(k as int));
        if k > 0 {
            out.push('/');
        }
        let seg = &segs[k];
        let mut j: usize = 0;
        let ghost mid = out@;
        while j < seg.len()
            invariant
                j <= seg.len(),
                out@ == mid + seg@.take(j as int),
            decreases seg.len() - j,
        {
            assert(seg@.take(j + 1) =~= seg@.take(j as int).push(seg@[j as int]));
            out.push(seg[j]);
            j = j + 1;
        }
        assert(seg@.take(seg.len() as int) =~= seg@);
        if k == 0 {
            assert(all.take(1) =~= seq![seg@]);
            assert(out@ =~= join_with_slash(all.take(1)));
        } else {
            assert(out@ =~= before + seq!['/'] + seg@);
        }
        k = k + 1;
    }
    assert(all.take(segs.len() as int) =~= all);
    out
}

/// Normalises a vault-relative path: refuses empty, padded, absolute and
/// traversing paths and control characters, turns backslashes into slashes,
/// drops empty and `.` pieces, and joins what is left with `/`.
pub fn normalize_vault_path(value: &str) -> (res: Result<String, CoreError>)
    ensures
        match spec_normalize_vault_path(value@) {
            Ok(p) => res matches Ok(s) && s@ == p,
            Err(e) => res == Err::<String, CoreError>(e),
        },
{
    let chars = chars_of(value);
    let n = chars.len();
    if n == 0 || is_whitespace(chars[0]) || is_whitespace(chars[n - 1]) {
        return Err(CoreError::EmptyPath);
    }
    let mut i: usize = 0;
    while i < n
        invariant
            n == chars@.len(),
            chars@ == value@,
            n > 0,
            spec_is_trimmed(value@),
            i <= n,
            forall|j: int| 0 <= j < i ==> !(chars@[j] == '\0' || spec_is_control(#[trigger] chars@[j])),
        decreases n - i,
    {
        if chars[i] == '\0' || is_control(chars[i]) {
            assert(value@[i as int] == '\0' || spec_is_control(value@[i as int]));
            return Err(CoreError::InvalidPath);
        }
        i = i + 1;
    }
    let mut replaced: Vec<char> = Vec::new();
    let mut i: usize = 0;
    while i < n
        invariant
            n == chars@.len(),
            i <= n,
            replaced@ == replace_backslash(chars@).take(i as int),
        decreases n - i,
    {
        let c = chars[i];
        replaced.push(if c == '\\' { '/' } else { c });
        assert(replaced@ =~= replace_backslash(chars@).take(i + 1));
        i = i + 1;
    }
    assert(replaced@ =~= replace_backslash(value@));
    let replaced_str = string_of(&replaced);
    if replaced[0] == '/' || has_windows_drive_prefix(replaced_str.as_str()) {
        return Err(CoreError::AbsolutePath);
    }
    let segs = split_segments(&replaced);
    assert(segs@.map_values(|v: Vec<char>| v@) =~= split_on_slash(replaced@));
    let kept = keep_path_segments(segs)?;
    if kept.len() == 0 {
        return Err(CoreError::EmptyPath);
    }
    let joined = join_segments(&kept);
    proof {
        let k = keep_segments(split_on_slash(replaced@))->Ok_0;
        assert(kept@.map_values(|v: Vec<char>| v@) =~= k);
    }
    Ok(string_of(&joined))
}

} // verus!

verus! {

// ---------------------------------------------------------------------------
// Normal forms and the laws of normalisation
// ---------------------------------------------------------------------------

/// No character of `s` is a backslash, NUL or control character.
pub open spec fn has_only_path_chars(s: Seq<char>) -> bool {
    forall|i: int| 0 <= i < s.len() ==> #[trigger] s[i] != '\\' && s[i] != '\0' && !spec_is_control(s[i])
}

/// No character of `s` is a slash.
pub open spec fn has_no_slash(s: Seq<char>) -> bool {
    forall|i: int| 0 <= i < s.len() ==> #[trigger] s[i] != '/'
}

/// A normalised vault path: every piece between slashes is kept by
/// normalisation as it stands, and no character is a backslash or control character.
pub open spec fn spec_is_vault_path(p: Seq<char>) -> bool {
    &&& keep_segments(split_on_slash(p)) == Ok::<Seq<Seq<char>>, CoreError>(split_on_slash(p))
    &&& has_only_path_chars(p)
}

/// Joining the pieces of `s` gives `s` back.
pub proof fn lemma_join_split(s: Seq<char>)
    ensures
        join_with_slash(split_on_slash(s)) == s,
    decreases s.len(),
{
    if s.len() > 0 {
        let init = s.drop_last();
        lemma_join_split(init);
        lemma_split_nonempty(init);
        let si = split_on_slash(init);
        if s.last() == '/' {
            assert(si.push(Seq::empty()).drop_last() =~= si);
            assert(join_with_slash(split_on_slash(s)) =~= init + seq!['/'] + Seq::<char>::empty());
        } else {
            let u = si.update(si.len() - 1, si.last().push(s.last()));
            if si.len() == 1 {
                assert(join_with_slash(u) =~= init.push(s.last()));
            } else {
                assert(u.drop_last() =~= si.drop_last());
                assert(join_with_slash(u) =~= join_with_slash(si.drop_last()) + seq!['/'] + si.last().push(s.last()));
                assert(join_with_slash(u) =~= (join_with_slash(si.drop_last()) + seq!['/'] + si.last()).push(s.last()));
            }
            assert(init.push(s.last()) =~= s);
        }
    }
}

/// A piece without slashes is its own only piece.
pub proof fn lemma_split_no_slash(s: Seq<char>)
    requires
        has_no_slash(s),
    ensures
        split_on_slash(s) == seq![s],
    decreases s.len(),
{
    if s.len() > 0 {
        let init = s.drop_last();
        assert(has_no_slash(init)) by {
            assert forall|i: int| 0 <= i < init.len() implies #[trigger] init[i] != '/' by {
                assert(init[i] == s[i]);
            }
        }
        lemma_split_no_slash(init);
        assert(s.last() == s[s.len() - 1]);
        assert(init.push(s.last()) =~= s);
        assert(split_on_slash(s) =~= seq![s]);
    } else {
        assert(s =~= Seq::<char>::empty());
    }
}

/// Splitting around a slash splits both sides.
pub proof fn lemma_split_concat(a: Seq<char>, b: Seq<char>)
    ensures
        split_on_slash(a + seq!['/'] + b) == split_on_slash(a) + split_on_slash(b),
    decreases b.len(),
{
    if b.len() == 0 {
        assert((a + seq!['/'] + b).drop_last() =~= a);
        assert(split_on_slash(a + seq!['/'] + b) =~= split_on_slash(a) + split_on_slash(b));
    } else {
        let b0 = b.drop_last();
        lemma_split_concat(a, b0);
        lemma_split_nonempty(b0);
        lemma_split_nonempty(a);
        assert((a + seq!['/'] + b).drop_last() =~= a + seq!['/'] + b0);
        let sa = split_on_slash(a);
        let sb0 = split_on_slash(b0);
        if b.last() == '/' {
            assert(split_on_slash(a + seq!['/'] + b) =~= sa + sb0.push(Seq::empty()));
        } else {
            let whole = sa + sb0;
            assert(whole.update(whole.len() - 1, whole.last().push(b.last())) =~= sa + sb0.update(
                sb0.len() - 1,
                sb0.last().push(b.last()),
            ));
        }
    }
}

/// Splitting the join of slash-free pieces gives the pieces back.
pub proof fn lemma_split_join(segs: Seq<Seq<char>>)
    requires
        segs.len() >= 1,
        forall|k: int| 0 <= k < segs.len() ==> has_no_slash(#[trigger] segs[k]),
    ensures
        split_on_slash(join_with_slash(segs)) == segs,
    decreases segs.len(),
{
    if segs.len() == 1 {
        lemma_split_no_slash(segs[0]);
        assert(seq![segs[0]] =~= segs);
    } else {
        let init = segs.drop_last();
        assert forall|k: int| 0 <= k < init.len() implies has_no_slash(#[trigger] init[k]) by {
            assert(init[k] == segs[k]);
        }
        lemma_split_join(init);
        lemma_split_concat(join_with_slash(init), segs.last());
        lemma_split_no_slash(segs.last());
        assert(init + seq![segs.last()] =~= segs);
    }
}

/// Every piece of `s` is free of slashes and keeps the character property of `s`.
pub proof fn lemma_split_pieces(s: Seq<char>)
    ensures
        forall|k: int| 0 <= k < split_on_slash(s).len() ==> has_no_slash(#[trigger] split_on_slash(s)[k]),
        has_only_path_chars(s) ==> forall|k: int|
            0 <= k < split_on_slash(s).len() ==> has_only_path_chars(#[trigger] split_on_slash(s)[k]),
    decreases s.len(),
{
    if s.len() > 0 {
        let init = s.drop_last();
        lemma_split_pieces(init);
        lemma_split_nonempty(init);
        assert(has_only_path_chars(s) ==> has_only_path_chars(init)) by {
            if has_only_path_chars(s) {
                assert forall|i: int| 0 <= i < init.len() implies #[trigger] init[i] != '\\' && init[i] != '\0' && !spec_is_control(init[i]) by {
                    assert(init[i] == s[i]);
                }
            }
        }
        let si = split_on_slash(init);
        let ss = split_on_slash(s);
        if s.last() != '/' {
            let last = si.last().push(s.last());
            assert(has_no_slash(last)) by {
                assert(has_no_slash(si[si.len() - 1]));
                assert forall|i: int| 0 <= i < last.len() implies #[trigger] last[i] != '/' by {
                    if i < last.len() - 1 {
                        assert(last[i] == si[si.len() - 1][i]);
                    }
                }
            }
            assert(has_only_path_chars(s) ==> has_only_path_chars(last)) by {
                if has_only_path_chars(s) {
                    assert(has_only_path_chars(si[si.len() - 1]));
                    assert(s.last() == s[s.len() - 1]);
                    assert forall|i: int| 0 <= i < last.len() implies #[trigger] last[i] != '\\' && last[i] != '\0' && !spec_is_control(last[i]) by {
                        if i < last.len() - 1 {
                            assert(last[i] == si[si.len() - 1][i]);
                        }
                    }
                }
            }
            assert forall|k: int| 0 <= k < ss.len() implies has_no_slash(#[trigger] ss[k]) by {
                if k < ss.len() - 1 {
                    assert(ss[k] == si[k]);
                }
            }
            assert(has_only_path_chars(s) ==> forall|k: int| 0 <= k < ss.len() ==> has_only_path_chars(#[trigger] ss[k])) by {
                if has_only_path_chars(s) {
                    assert forall|k: int| 0 <= k < ss.len() implies has_only_path_chars(#[trigger] ss[k]) by {
                        if k < ss.len() - 1 {
                            assert(ss[k] == si[k]);
                        }
                    }
                }
            }
        } else {
            assert forall|k: int| 0 <= k < ss.len() implies has_no_slash(#[trigger] ss[k]) by {
                if k < ss.len() - 1 {
                    assert(ss[k] == si[k]);
                }
            }
            assert(has_only_path_chars(s) ==> forall|k: int| 0 <= k < ss.len() ==> has_only_path_chars(#[trigger] ss[k])) by {
                if has_only_path_chars(s) {
                    assert forall|k: int| 0 <= k < ss.len() implies has_only_path_chars(#[trigger] ss[k]) by {
                        if k < ss.len() - 1 {
                            assert(ss[k] == si[k]);
                        }
                    }
                }
            }
        }
    }
}

} // verus!

verus! {

/// A piece that normalisation keeps as it stands.
pub open spec fn is_kept_segment(seg: Seq<char>) -> bool {
    &&& seg.len() > 0
    &&& !(seg =~= seq!['.'])
    &&& !(seg =~= seq!['.', '.'])
    &&& seg.last() != ':'
}

proof fn lemma_keep_segments_len(segs: Seq<Seq<char>>)
    ensures
        keep_segments(segs) matches Ok(kept) ==> kept.len() <= segs.len(),
    decreases segs.len(),
{
    if segs.len() > 0 {
        lemma_keep_segments_len(segs.drop_last());
    }
}

/// When every piece is kept as it stands, normalisation keeps them all.
proof fn lemma_keep_all(segs: Seq<Seq<char>>)
    requires
        forall|k: int| 0 <= k < segs.len() ==> is_kept_segment(#[trigger] segs[k]),
    ensures
        keep_segments(segs) == Ok::<Seq<Seq<char>>, CoreError>(segs),
    decreases segs.len(),
{
    if segs.len() > 0 {
        let init = segs.drop_last();
        assert forall|k: int| 0 <= k < init.len() implies is_kept_segment(#[trigger] init[k]) by {
            assert(init[k] == segs[k]);
        }
        lemma_keep_all(init);
        assert(is_kept_segment(segs[segs.len() - 1]));
        assert(init.push(segs.last()) =~= segs);
    } else {
        assert(segs =~= Seq::<Seq<char>>::empty());
    }
}

/// When normalisation keeps every piece, each of them is kept as it stands.
proof fn lemma_kept_all_are_kept(segs: Seq<Seq<char>>)
    requires
        keep_segments(segs) == Ok::<Seq<Seq<char>>, CoreError>(segs),
    ensures
        forall|k: int| 0 <= k < segs.len() ==> is_kept_segment(#[trigger] segs[k]),
    decreases segs.len(),
{
    if segs.len() > 0 {
        let init = segs.drop_last();
        lemma_keep_segments_len(init);
        let k0 = keep_segments(init)->Ok_0;
        assert(keep_segments(init) is Ok);
        assert(k0.len() <= init.len());
        if !is_kept_segment(segs.last()) {
            assert(keep_segment(k0, segs.last()) is Err || keep_segment(k0, segs.last()) == Ok::<Seq<Seq<char>>, CoreError>(k0));
            assert(k0.len() < segs.len());
        }
        assert(is_kept_segment(segs.last()));
        assert(k0.push(segs.last()) == segs);
        assert(k0 =~= init) by {
            assert(k0.push(segs.last()).drop_last() =~= k0);
        }
        lemma_kept_all_are_kept(init);
        assert forall|k: int| 0 <= k < segs.len() implies is_kept_segment(#[trigger] segs[k]) by {
            if k < segs.len() - 1 {
                assert(segs[k] == init[k]);
            }
        }
    }
}

/// The pieces kept from `segs` are kept as they stand and keep every property all pieces share.
proof fn lemma_kept_pieces(segs: Seq<Seq<char>>)
    requires
        keep_segments(segs) is Ok,
        forall|k: int| 0 <= k < segs.len() ==> has_no_slash(#[trigger] segs[k]) && has_only_path_chars(segs[k]),
    ensures
        forall|k: int| 0 <= k < keep_segments(segs)->Ok_0.len() ==> {
            let seg = #[trigger] keep_segments(segs)->Ok_0[k];
            is_kept_segment(seg) && has_no_slash(seg) && has_only_path_chars(seg)
        },
    decreases segs.len(),
{
    if segs.len() > 0 {
        let init = segs.drop_last();
        assert forall|k: int| 0 <= k < init.len() implies has_no_slash(#[trigger] init[k]) && has_only_path_chars(init[k]) by {
            assert(init[k] == segs[k]);
        }
        lemma_kept_pieces(init);
        assert(has_no_slash(segs[segs.len() - 1]) && has_only_path_chars(segs[segs.len() - 1]));
    }
}

proof fn lemma_join_chars(segs: Seq<Seq<char>>)
    requires
        segs.len() >= 1,
        forall|k: int| 0 <= k < segs.len() ==> has_only_path_chars(#[trigger] segs[k]),
    ensures
        has_only_path_chars(join_with_slash(segs)),
        segs[0].len() > 0 ==> join_with_slash(segs)[0] == segs[0][0],
    decreases segs.len(),
{
    if segs.len() > 1 {
        let init = segs.drop_last();
        assert forall|k: int| 0 <= k < init.len() implies has_only_path_chars(#[trigger] init[k]) by {
            assert(init[k] == segs[k]);
        }
        lemma_join_chars(init);
        let j = join_with_slash(init);
        let last = segs[segs.len() - 1];
        assert(has_only_path_chars(last));
        let whole = j + seq!['/'] + last;
        assert forall|i: int| 0 <= i < whole.len() implies #[trigger] whole[i] != '\\' && whole[i] != '\0' && !spec_is_control(whole[i]) by {
            if i < j.len() {
                assert(whole[i] == j[i]);
            } else if i > j.len() {
                assert(whole[i] == last[i - j.len() - 1]);
            }
        }
        if segs[0].len() > 0 {
            assert(init[0] == segs[0]);
            assert(whole[0] == j[0]);
        }
    }
}

/// Law: whatever normalisation returns is a normalised vault path.
pub proof fn lemma_normalize_gives_vault_path(v: Seq<char>)
    requires
        spec_normalize_vault_path(v) is Ok,
    ensures
        spec_is_vault_path(spec_normalize_vault_path(v)->Ok_0),
{
    let r = replace_backslash(v);
    assert(has_only_path_chars(r)) by {
        assert forall|i: int| 0 <= i < r.len() implies #[trigger] r[i] != '\\' && r[i] != '\0' && !spec_is_control(r[i]) by {
            if v[i] == '\0' || spec_is_control(v[i]) {
                assert(has_control_char(v));
            }
        }
    }
    lemma_split_pieces(r);
    let kept = keep_segments(split_on_slash(r))->Ok_0;
    lemma_kept_pieces(split_on_slash(r));
    let p = join_with_slash(kept);
    lemma_split_join(kept);
    lemma_keep_all(kept);
    lemma_join_chars(kept);
}

/// Law: normalisation leaves a normalised vault path unchanged, unless the path
/// starts or ends with white space or starts with a drive prefix (`./ a`
/// normalises to ` a`, which is then refused as padded).
pub proof fn lemma_normalize_fixes_vault_path(p: Seq<char>)
    requires
        spec_is_vault_path(p),
        spec_is_trimmed(p),
        !spec_has_windows_drive_prefix(p),
    ensures
        spec_normalize_vault_path(p) == Ok::<Seq<char>, CoreError>(p),
{
    let segs = split_on_slash(p);
    lemma_split_nonempty(p);
    lemma_kept_all_are_kept(segs);
    lemma_join_split(p);
    lemma_split_pieces(p);
    assert forall|k: int| 0 <= k < segs.len() implies has_only_path_chars(#[trigger] segs[k]) by {}
    lemma_join_chars(segs);
    assert(is_kept_segment(segs[0]));
    assert(has_no_slash(segs[0]));
    assert(p.len() > 0);
    assert(p[0] == segs[0][0]);
    assert(replace_backslash(p) =~= p);
    assert(!has_control_char(p));
}

/// Law: normalising twice gives what normalising once gave, unless that
/// starts or ends with white space or starts with a drive prefix.
pub proof fn lemma_normalize_idempotent(v: Seq<char>)
    requires
        spec_normalize_vault_path(v) is Ok,
        spec_is_trimmed(spec_normalize_vault_path(v)->Ok_0),
        !spec_has_windows_drive_prefix(spec_normalize_vault_path(v)->Ok_0),
    ensures
        spec_normalize_vault_path(spec_normalize_vault_path(v)->Ok_0) == spec_normalize_vault_path(v),
{
    lemma_normalize_gives_vault_path(v);
    lemma_normalize_fixes_vault_path(spec_normalize_vault_path(v)->Ok_0);
}

} // verus!

