use vstd::prelude::*;

use crate::domain::digest::{ContentHash, PathHash};
use crate::domain::time::RemoteMillis;
use crate::domain::vault::VaultPath;

verus! {

/// The kinds of resource the client synchronises.
#[derive(Debug, Clone, Copy, PartialEq, Eq, PartialOrd, Ord, Hash, Structural)]
pub enum ResourceKind {
    Note,
    File,
    Folder,
    Setting,
}

/// One batch of a synchronisation request: the resources to check, the
/// ones deleted locally and the ones missing locally.
#[derive(Debug, Clone, PartialEq, Eq)]
pub struct SyncBatch<T> {
    pub context: Option<String>,
    pub last_time: RemoteMillis,
    pub items: Vec<T>,
    pub deleted: Vec<DeletedResource>,
    pub missing: Vec<DeletedResource>,
}

impl<T> SyncBatch<T> {
    /// An empty batch for changes since `last_time`, without a context.
    pub fn new(last_time: RemoteMillis) -> (b: Self)
        ensures
            b.context is None,
            b.last_time == last_time,
            b.items@.len() == 0,
            b.deleted@.len() == 0,
            b.missing@.len() == 0,
    {
        SyncBatch {
            context: None,
            last_time,
            items: Vec::new(),
            deleted: Vec::new(),
            missing: Vec::new(),
        }
    }
}

/// A note or setting known by path, hashes and times.
#[derive(Debug, Clone, PartialEq, Eq)]
pub struct TextResource {
    pub path: VaultPath,
    pub path_hash: PathHash,
    pub content_hash: ContentHash,
    pub ctime: RemoteMillis,
    pub mtime: RemoteMillis,
}

pub type NoteResource = TextResource;

pub type SettingResource = TextResource;

/// An attachment known by path, hashes, size and times.
#[derive(Debug, Clone, PartialEq, Eq)]
pub struct FileResource {
    pub path: VaultPath,
    pub path_hash: PathHash,
    pub content_hash: ContentHash,
    pub size: u64,
    pub ctime: RemoteMillis,
    pub mtime: RemoteMillis,
}

/// A folder known by path, path hash and modification time.
#[derive(Debug, Clone, PartialEq, Eq)]
pub struct FolderResource {
    pub path: VaultPath,
    pub path_hash: PathHash,
    pub mtime: RemoteMillis,
}

/// A resource that no longer exists locally.
#[derive(Debug, Clone, PartialEq, Eq)]
pub struct DeletedResource {
    pub path: VaultPath,
    pub path_hash: PathHash,
}

} // verus!
