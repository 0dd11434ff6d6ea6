use vstd::prelude::*;

use crate::domain::digest::PathHash;
use crate::domain::error::CoreError;
use crate::domain::path::spec_normalize_vault_path;
use crate::domain::vault::VaultPath;
use crate::hash::decimal::lemma_decimal_nonempty;
use crate::hash::rolling::rolling_hash;
use crate::hash::text::{encode_utf16, spec_text_hash, text_hash_value};

verus! {

/// The hash of a vault path: the text hash of its normal form, or why the
/// path is refused.
pub fn path_hash(path: &str) -> (r: Result<PathHash, CoreError>)
    ensures
        match spec_normalize_vault_path(path@) {
            Ok(p) => r matches Ok(h) && h@ == spec_text_hash(p),
            Err(e) => r == Err::<PathHash, CoreError>(e),
        },
{
    let path = VaultPath::new(path)?;
    let value = text_hash_value(path.as_str());
    proof {
        lemma_decimal_nonempty(rolling_hash(encode_utf16(path@)));
    }
    Ok(PathHash::from_nonempty(value))
}

} // verus!
