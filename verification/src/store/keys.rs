use vstd::prelude::*;

use crate::domain::resource::ResourceKind;
use crate::domain::text::chars_of;

verus! {

/// A number too large for the store's signed 64-bit columns.
#[derive(Debug, Clone, Copy, PartialEq, Eq)]
pub struct NumberTooLarge {
    pub name: &'static str,
    pub value: u64,
}

/// The key under which the store files resources of a kind.
pub open spec fn spec_kind_key(kind: ResourceKind) -> Seq<char> {
    match kind {
        ResourceKind::Note => "note"@,
        ResourceKind::File => "file"@,
        ResourceKind::Folder => "folder"@,
        ResourceKind::Setting => "setting"@,
    }
}

/// Every resource kind, in the order the store walks them.
pub fn all_resource_kinds() -> (r: [ResourceKind; 4])
    ensures
        r@ == seq![ResourceKind::Note, ResourceKind::File, ResourceKind::Folder, ResourceKind::Setting],
{
    [ResourceKind::Note, ResourceKind::File, ResourceKind::Folder, ResourceKind::Setting]
}

pub fn kind_key(kind: ResourceKind) -> (r: &'static str)
    ensures
        r@ == spec_kind_key(kind),
{
    match kind {
        ResourceKind::Note => "note",
        ResourceKind::File => "file",
        ResourceKind::Folder => "folder",
        ResourceKind::Setting => "setting",
    }
}

/// Law: distinct kinds are filed under distinct keys.
pub proof fn lemma_kind_key_injective(a: ResourceKind, b: ResourceKind)
    requires
        spec_kind_key(a) == spec_kind_key(b),
    ensures
        a == b,
{
    reveal_strlit("note");
    reveal_strlit("file");
    reveal_strlit("folder");
    reveal_strlit("setting");
    assert("note"@.len() == 4);
    assert("file"@.len() == 4);
    assert("folder"@.len() == 6);
    assert("setting"@.len() == 7);
    assert("note"@[0] == 'n');
    assert("file"@[0] == 'f');
}

/// `value` as a signed 64-bit column value, refused when it does not fit.
pub fn to_i64(name: &'static str, value: u64) -> (r: Result<i64, NumberTooLarge>)
    ensures
        value <= i64::MAX ==> r == Ok::<i64, NumberTooLarge>(value as i64),
        value > i64::MAX ==> r == Err::<i64, NumberTooLarge>(NumberTooLarge { name, value }),
{
    if value <= i64::MAX as u64 {
        Ok(value as i64)
    } else {
        Err(NumberTooLarge { name, value })
    }
}

/// A stored size read back; negative values are refused.
pub fn size_from_i64(value: i64) -> (r: Option<u64>)
    ensures
        value >= 0 ==> r == Some(value as u64),
        value < 0 ==> r is None,
{
    if value >= 0 {
        Some(value as u64)
    } else {
        None
    }
}

/// `p` with a slash appended.
pub open spec fn with_slash(p: Seq<char>) -> Seq<char> {
    p.push('/')
}

/// Whether `path` is `root` or lies below it.
pub open spec fn spec_in_hash_tree(path: Seq<char>, root: Seq<char>) -> bool {
    path == root || (path.len() >= root.len() + 1 && path.take(root.len() + 1int) == with_slash(root))
}

/// Where a rename of `old` to `new` moves `path`: `new` for `old` itself,
/// and the same relative place below `new` for paths below `old`.
pub open spec fn spec_renamed_path(path: Seq<char>, old: Seq<char>, new: Seq<char>) -> Seq<char> {
    if path == old {
        new
    } else {
        with_slash(new) + path.skip(old.len() + 1int)
    }
}

/// Whether `path` is `root` or lies below it.
pub fn is_in_hash_tree(path: &str, root: &str) -> (r: bool)
    ensures
        r == spec_in_hash_tree(path@, root@),
{
    let p = chars_of(path);
    let o = chars_of(root);
    if p.len() == o.len() {
        let mut i: usize = 0;
        while i < p.len()
            invariant
                p@ == path@,
                o@ == root@,
                p@.len() == o@.len(),
                i <= p@.len(),
                forall|j: int| 0 <= j < i ==> p@[j] == o@[j],
            decreases p@.len() - i,
        {
            if p[i] != o[i] {
                assert(p@[i as int] != o@[i as int]);
                return false;
            }
            i = i + 1;
        }
        assert(p@ =~= o@);
        return true;
    }
    if p.len() <= o.len() {
        return false;
    }
    let mut i: usize = 0;
    while i < o.len()
        invariant
            p@ == path@,
            o@ == root@,
            p@.len() >= o@.len() + 1,
            p@.len() != o@.len(),
            i <= o@.len(),
            forall|j: int| 0 <= j < i ==> p@[j] == o@[j],
        decreases o@.len() - i,
    {
        if p[i] != o[i] {
            assert(p@.take(o@.len() + 1int)[i as int] != with_slash(o@)[i as int]);
            return false;
        }
        i = i + 1;
    }
    if p[o.len()] != '/' {
        assert(p@.take(o@.len() + 1int)[o@.len() as int] != with_slash(o@)[o@.len() as int]);
        return false;
    }
    assert(p@.take(o@.len() + 1int) =~= with_slash(o@));
    true
}

/// Where a rename of `old_path` to `new_path` moves `path`, which must be
/// `old_path` or lie below it.
pub fn renamed_path(path: &str, old_path: &str, new_path: &str) -> (r: String)
    requires
        spec_in_hash_tree(path@, old_path@),
    ensures
        r@ == spec_renamed_path(path@, old_path@, new_path@),
{
    let p = chars_of(path);
    let o = chars_of(old_path);
    if is_in_hash_tree(path, old_path) && p.len() == o.len() {
        assert(p@ =~= o@) by {
            if p@ != o@ {
                assert(p@.take(o@.len() + 1int).len() == o@.len() + 1);
            }
        }
        return new_path.to_owned();
    }
    let mut out = new_path.to_owned();
    out.push('/');
    let mut i: usize = o.len() + 1;
    let ghost start = out@;
    while i < p.len()
        invariant
            o@.len() + 1 <= i <= p@.len(),
            out@ == start + p@.subrange(o@.len() + 1int, i as int),
        decreases p@.len() - i,
    {
        out.push(p[i]);
        assert(p@.subrange(o@.len() + 1int, i + 1) =~= p@.subrange(o@.len() + 1int, i as int).push(p@[i as int]));
        i = i + 1;
    }
    assert(p@.subrange(o@.len() + 1int, p@.len() as int) =~= p@.skip(o@.len() + 1int));
    out
}

/// Law: a rename keeps paths inside the renamed tree, and renaming back restores them.
pub proof fn lemma_rename_roundtrip(path: Seq<char>, old: Seq<char>, new: Seq<char>)
    requires
        spec_in_hash_tree(path, old),
    ensures
        spec_in_hash_tree(spec_renamed_path(path, old, new), new),
        spec_renamed_path(spec_renamed_path(path, old, new), new, old) == path,
{
    if path != old {
        let moved = spec_renamed_path(path, old, new);
        assert(moved.take(new.len() + 1int) =~= with_slash(new));
        assert(moved.skip(new.len() + 1int) =~= path.skip(old.len() + 1int));
        if moved == new {
            assert(moved.len() == new.len());
        }
        assert(with_slash(old) + path.skip(old.len() + 1int) =~= path) by {
            assert(path.take(old.len() + 1int) == with_slash(old));
            assert(path =~= path.take(old.len() + 1int) + path.skip(old.len() + 1int));
        }
    }
}

} // verus!

verus! {

/// The rows a rename of `old` to `new` moves, in row order: each index of a
/// path in the renamed tree, paired with the path it moves to.
pub open spec fn spec_hash_tree_moves(paths: Seq<Seq<char>>, old: Seq<char>, new: Seq<char>) -> Seq<
    (int, Seq<char>),
>
    decreases paths.len(),
{
    if paths.len() == 0 {
        Seq::empty()
    } else {
        let earlier = spec_hash_tree_moves(paths.drop_last(), old, new);
        let i = paths.len() - 1;
        if spec_in_hash_tree(paths[i], old) {
            earlier.push((i, spec_renamed_path(paths[i], old, new)))
        } else {
            earlier
        }
    }
}

/// The rows that a rename of `old_path` to `new_path` moves: the index of
/// each stored path that is `old_path` or lies below it, with its new path.
pub fn hash_tree_moves(paths: &Vec<String>, old_path: &str, new_path: &str) -> (r: Vec<
    (usize, String),
>)
    ensures
        r@.len() == spec_hash_tree_moves(paths@.map_values(|p: String| p@), old_path@, new_path@).len(),
        forall|k: int|
            0 <= k < r@.len() ==> {
                let m = spec_hash_tree_moves(paths@.map_values(|p: String| p@), old_path@, new_path@)[k];
                &&& (#[trigger] r@[k]).0 as int == m.0
                &&& r@[k].1@ == m.1
            },
{
    let ghost all = paths@.map_values(|p: String| p@);
    let mut out: Vec<(usize, String)> = Vec::new();
    let mut i: usize = 0;
    while i < paths.len()
        invariant
            i <= paths@.len(),
            all == paths@.map_values(|p: String| p@),
            out@.len() == spec_hash_tree_moves(all.take(i as int), old_path@, new_path@).len(),
            forall|k: int|
                0 <= k < out@.len() ==> {
                    let m = spec_hash_tree_moves(all.take(i as int), old_path@, new_path@)[k];
                    &&& (#[trigger] out@[k]).0 as int == m.0
                    &&& out@[k].1@ == m.1
                },
        decreases paths@.len() - i,
    {
        let ghost before = spec_hash_tree_moves(all.take(i as int), old_path@, new_path@);
        assert(all.take(i + 1).drop_last() =~= all.take(i as int));
        assert(all.take(i + 1)[i as int] == paths@[i as int]@);
        let path = paths[i].as_str();
        if is_in_hash_tree(path, old_path) {
            let target = renamed_path(path, old_path, new_path);
            out.push((i, target));
        }
        i = i + 1;
    }
    assert(all.take(paths@.len() as int) =~= all);
    out
}

/// Whether pending modifications are recorded for a kind: folders have no content to send.
pub fn records_pending_modify(kind: ResourceKind) -> (r: bool)
    ensures
        r == (kind != ResourceKind::Folder),
{
    match kind {
        ResourceKind::Folder => false,
        _ => true,
    }
}

/// Whether pending renames are recorded for a kind: settings are not renamed.
pub fn records_pending_rename(kind: ResourceKind) -> (r: bool)
    ensures
        r == (kind != ResourceKind::Setting),
{
    match kind {
        ResourceKind::Setting => false,
        _ => true,
    }
}

/// The synchronisation time read from the store: zero when none is stored.
pub fn sync_time_from_stored(value: Option<i64>) -> (r: Result<
    crate::domain::time::RemoteMillis,
    crate::domain::error::CoreError,
>)
    ensures
        ({
            let v: i64 = match value {
                Some(v) => v,
                None => 0,
            };
            &&& v >= 0 ==> (r matches Ok(m) && m.value() == v)
            &&& v < 0 ==> r == Err::<crate::domain::time::RemoteMillis, crate::domain::error::CoreError>(
                crate::domain::error::CoreError::InvalidTimestamp,
            )
        }),
{
    let v: i64 = match value {
        Some(v) => v,
        None => 0,
    };
    crate::domain::time::RemoteMillis::new(v)
}

/// A stored chunk index read back; values outside `u32` are refused.
pub fn chunk_index_from_i64(value: i64) -> (r: Option<u32>)
    ensures
        0 <= value <= u32::MAX ==> r == Some(value as u32),
        !(0 <= value <= u32::MAX) ==> r is None,
{
    if 0 <= value && value <= u32::MAX as i64 {
        Some(value as u32)
    } else {
        None
    }
}

} // verus!
