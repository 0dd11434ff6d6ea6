use std::path::{Path, PathBuf};
use std::str::FromStr;

use vstd::prelude::*;

use crate::domain::error::CoreError;
use crate::domain::path::{
    lemma_normalize_gives_vault_path, normalize_vault_path, spec_is_vault_path,
    spec_normalize_vault_path, split_on_slash, split_segments,
};
use crate::domain::text::{chars_of, string_of, is_control, is_whitespace, spec_is_control, spec_is_trimmed};

verus! {

/// Whether `c` may not occur in a vault name.
pub open spec fn is_forbidden_name_char(c: char) -> bool {
    c == '/' || c == '\\' || spec_is_control(c)
}

/// Why a vault name is refused, if it is.
pub open spec fn spec_vault_name_error(v: Seq<char>) -> Option<CoreError> {
    if v.len() == 0 || !spec_is_trimmed(v) {
        Some(CoreError::EmptyVaultName)
    } else if exists|i: int| 0 <= i < v.len() && is_forbidden_name_char(#[trigger] v[i]) {
        Some(CoreError::InvalidVaultName)
    } else {
        None
    }
}

/// The name of a vault on the server: not empty, not padded with white
/// space, and free of slashes, backslashes and control characters.
#[derive(Debug, PartialEq, Eq, PartialOrd, Ord, Hash)]
pub struct VaultName(String);

impl View for VaultName {
    type V = Seq<char>;

    closed spec fn view(&self) -> Seq<char> {
        self.0@
    }
}

impl VaultName {
    #[verifier::type_invariant]
    spec fn inv(self) -> bool {
        spec_vault_name_error(self.0@) is None
    }

    /// Accepts `value` exactly when it is a valid vault name.
    pub fn new(value: &str) -> (r: Result<Self, CoreError>)
        ensures
            match spec_vault_name_error(value@) {
                None => r matches Ok(n) && n@ == value@,
                Some(e) => r == Err::<Self, CoreError>(e),
            },
    {
        let chars = chars_of(value);
        let n = chars.len();
        if n == 0 || is_whitespace(chars[0]) || is_whitespace(chars[n - 1]) {
            return Err(CoreError::EmptyVaultName);
        }
        let mut i: usize = 0;
        while i < n
            invariant
                n == chars@.len(),
                chars@ == value@,
                n > 0,
                spec_is_trimmed(value@),
                i <= n,
                forall|j: int| 0 <= j < i ==> !is_forbidden_name_char(#[trigger] chars@[j]),
            decreases n - i,
        {
            let c = chars[i];
            if c == '/' || c == '\\' || is_control(c) {
                assert(is_forbidden_name_char(value@[i as int]));
                return Err(CoreError::InvalidVaultName);
            }
            i = i + 1;
        }
        Ok(VaultName(value.to_owned()))
    }

    pub fn as_str(&self) -> (r: &str)
        ensures
            r@ == self@,
            spec_vault_name_error(r@) is None,
    {
        proof {
            use_type_invariant(self);
        }
        self.0.as_str()
    }

    /// The name as an owned string, as `Display` prints it.
    pub fn to_string(&self) -> (r: String)
        ensures
            r@ == self@,
    {
        self.0.clone()
    }
}

impl Clone for VaultName {
    fn clone(&self) -> (r: Self)
        ensures
            r@ == self@,
    {
        proof {
            use_type_invariant(self);
        }
        VaultName(self.0.clone())
    }
}

impl AsRef<str> for VaultName {
    fn as_ref(&self) -> (r: &str)
        ensures
            r@ == self@,
    {
        self.as_str()
    }
}

impl FromStr for VaultName {
    type Err = CoreError;

    fn from_str(value: &str) -> (r: Result<Self, CoreError>)
        ensures
            match spec_vault_name_error(value@) {
                None => r matches Ok(n) && n@ == value@,
                Some(e) => r == Err::<Self, CoreError>(e),
            },
    {
        Self::new(value)
    }
}

/// A normalised path relative to the vault root, with `/` separators.
#[derive(Debug, PartialEq, Eq, PartialOrd, Ord, Hash)]
pub struct VaultPath(String);

impl View for VaultPath {
    type V = Seq<char>;

    closed spec fn view(&self) -> Seq<char> {
        self.0@
    }
}

impl VaultPath {
    #[verifier::type_invariant]
    spec fn inv(self) -> bool {
        spec_is_vault_path(self.0@)
    }

    /// The normal form of `value` as a vault path, or why it is refused.
    pub fn new(value: &str) -> (r: Result<Self, CoreError>)
        ensures
            match spec_normalize_vault_path(value@) {
                Ok(p) => r matches Ok(vp) && vp@ == p,
                Err(e) => r == Err::<Self, CoreError>(e),
            },
    {
        let s = normalize_vault_path(value)?;
        proof {
            lemma_normalize_gives_vault_path(value@);
        }
        Ok(VaultPath(s))
    }

    pub fn as_str(&self) -> (r: &str)
        ensures
            r@ == self@,
            spec_is_vault_path(r@),
    {
        proof {
            use_type_invariant(self);
        }
        self.0.as_str()
    }

    pub fn into_string(self) -> (r: String)
        ensures
            r@ == self@,
            spec_is_vault_path(r@),
    {
        proof {
            use_type_invariant(&self);
        }
        self.0
    }

    /// The path as an owned string, as `Display` prints it.
    pub fn to_string(&self) -> (r: String)
        ensures
            r@ == self@,
    {
        self.0.clone()
    }

    /// The pieces of the path between slashes, in order.
    pub fn segments(&self) -> (r: Vec<String>)
        ensures
            r@.len() == split_on_slash(self@).len(),
            forall|k: int| 0 <= k < r@.len() ==> #[trigger] r@[k]@ == split_on_slash(self@)[k],
    {
        let chars = chars_of(self.0.as_str());
        let pieces = split_segments(&chars);
        let mut out: Vec<String> = Vec::new();
        let mut i: usize = 0;
        while i < pieces.len()
            invariant
                i <= pieces@.len(),
                chars@ == self@,
                pieces@.len() == split_on_slash(chars@).len(),
                forall|k: int| 0 <= k < pieces@.len() ==> #[trigger] pieces@[k]@ == split_on_slash(chars@)[k],
                out@.len() == i,
                forall|k: int| 0 <= k < i ==> #[trigger] out@[k]@ == split_on_slash(chars@)[k],
            decreases pieces@.len() - i,
        {
            out.push(string_of(&pieces[i]));
            i = i + 1;
        }
        out
    }

    /// The file system path of this vault path under `root`: `root` with
    /// each piece of the path pushed in order.
    pub fn to_path_buf_under(&self, root: &Path) -> (r: PathBuf)
        ensures
            r == path_with_segments(owned_path(root), split_on_slash(self@)),
    {
        let mut path = path_to_owned(root);
        let segments = self.segments();
        let ghost base = owned_path(root);
        let ghost segs = split_on_slash(self@);
        let mut i: usize = 0;
        while i < segments.len()
            invariant
                i <= segments@.len(),
                segments@.len() == segs.len(),
                forall|k: int| 0 <= k < segments@.len() ==> #[trigger] segments@[k]@ == segs[k],
                path == path_with_segments(base, segs.take(i as int)),
            decreases segments.len() - i,
        {
            assert(segs.take(i + 1).drop_last() =~= segs.take(i as int));
            assert(segs.take(i + 1).last() == segments@[i as int]@);
            path_push(&mut path, segments[i].as_str());
            i = i + 1;
        }
        assert(segs.take(segs.len() as int) =~= segs);
        path
    }
}

impl Clone for VaultPath {
    fn clone(&self) -> (r: Self)
        ensures
            r@ == self@,
    {
        proof {
            use_type_invariant(self);
        }
        VaultPath(self.0.clone())
    }
}

impl AsRef<str> for VaultPath {
    fn as_ref(&self) -> (r: &str)
        ensures
            r@ == self@,
    {
        self.as_str()
    }
}

impl FromStr for VaultPath {
    type Err = CoreError;

    fn from_str(value: &str) -> (r: Result<Self, CoreError>)
        ensures
            match spec_normalize_vault_path(value@) {
                Ok(p) => r matches Ok(vp) && vp@ == p,
                Err(e) => r == Err::<Self, CoreError>(e),
            },
    {
        Self::new(value)
    }
}

#[verifier::external_type_specification]
#[verifier::external_body]
pub struct ExPath(Path);

#[verifier::external_type_specification]
#[verifier::external_body]
pub struct ExPathBuf(PathBuf);

/// The owned copy that `Path::to_path_buf` makes of `root`.
pub uninterp spec fn owned_path(root: &Path) -> PathBuf;

/// The path that `PathBuf::push` makes of `base` and `segment`.
pub uninterp spec fn pushed_path(base: PathBuf, segment: Seq<char>) -> PathBuf;

/// `base` with each of `segments` pushed in order.
pub open spec fn path_with_segments(base: PathBuf, segments: Seq<Seq<char>>) -> PathBuf
    decreases segments.len(),
{
    if segments.len() == 0 {
        base
    } else {
        pushed_path(path_with_segments(base, segments.drop_last()), segments.last())
    }
}

/// `Path::to_path_buf`: an owned copy of the path. Stated: the result is
/// the named copy of `root`; what it holds is left unstated, as `Path` is
/// opaque to Verus.
#[verifier::external_body]
fn path_to_owned(root: &Path) -> (r: PathBuf)
    ensures
        r == owned_path(root),
{
    root.to_path_buf()
}

/// `PathBuf::push`: extends the path with one more piece. Stated: the new
/// path is the named result of pushing `segment` onto the old one; how the
/// pieces are joined (separators, platform path rules) is left unstated.
#[verifier::external_body]
fn path_push(path: &mut PathBuf, segment: &str)
    ensures
        *final(path) == pushed_path(*old(path), segment@),
{
    path.push(segment)
}

/// Law: a vault name is accepted exactly when it is not empty, not padded
/// with white space, and free of '/', '\\' and control characters; an empty
/// or padded name is refused as empty, any other refused name as invalid.
pub proof fn lemma_vault_name_rule(v: Seq<char>)
    ensures
        spec_vault_name_error(v) is None <==> (v.len() > 0 && spec_is_trimmed(v) && forall|i: int|
            0 <= i < v.len() ==> #[trigger] v[i] != '/' && v[i] != '\\' && !spec_is_control(v[i])),
        (v.len() == 0 || !spec_is_trimmed(v)) ==> spec_vault_name_error(v) == Some(
            CoreError::EmptyVaultName,
        ),
        (v.len() > 0 && spec_is_trimmed(v) && exists|i: int|
            0 <= i < v.len() && (#[trigger] v[i] == '/' || v[i] == '\\' || spec_is_control(v[i])))
            ==> spec_vault_name_error(v) == Some(CoreError::InvalidVaultName),
{
}

} // verus!
