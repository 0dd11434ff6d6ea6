use vstd::prelude::*;

use crate::domain::digest::ContentHash;
use crate::domain::error::CoreError;
use crate::domain::time::RemoteMillis;

verus! {

/// What the store remembers of a resource: its content hash (absent for
/// folders), modification time and size.
#[derive(Debug, Clone, PartialEq, Eq)]
pub struct HashEntry {
    pub content_hash: Option<String>,
    pub mtime: i64,
    pub size: u64,
}

impl HashEntry {
    pub fn new(content_hash: Option<ContentHash>, mtime: RemoteMillis, size: u64) -> (e: Self)
        ensures
            match content_hash {
                Some(h) => e.content_hash matches Some(s) && s@ == h@ && s@.len() > 0,
                None => e.content_hash is None,
            },
            e.mtime == mtime.value(),
            e.mtime >= 0,
            e.size == size,
    {
        let content_hash = match content_hash {
            Some(h) => Some(h.into_string()),
            None => None,
        };
        HashEntry { content_hash, mtime: mtime.as_i64(), size }
    }

    /// The stored content hash, which must be non-empty when present.
    pub fn content_hash(&self) -> (r: Result<Option<ContentHash>, CoreError>)
        ensures
            match self.content_hash {
                None => r == Ok::<Option<ContentHash>, CoreError>(None),
                Some(s) => if s@.len() > 0 {
                    r matches Ok(Some(h)) && h@ == s@
                } else {
                    r == Err::<Option<ContentHash>, CoreError>(CoreError::InvalidHash)
                },
            },
    {
        match &self.content_hash {
            None => Ok(None),
            Some(s) => {
                let h = ContentHash::new(s.clone())?;
                Ok(Some(h))
            },
        }
    }

    /// The stored modification time, which must not be negative.
    pub fn mtime(&self) -> (r: Result<RemoteMillis, CoreError>)
        ensures
            self.mtime >= 0 ==> (r matches Ok(m) && m.value() == self.mtime),
            self.mtime < 0 ==> r == Err::<RemoteMillis, CoreError>(CoreError::InvalidTimestamp),
    {
        RemoteMillis::new(self.mtime)
    }
}

} // verus!
