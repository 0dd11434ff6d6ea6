//! Shared domain types of the sync client: errors, vault names and paths,
//! content and path hashes, resource descriptions and remote timestamps.

pub mod digest;
pub mod error;
pub mod path;
pub mod resource;
pub mod text;
pub mod time;
pub mod vault;

pub use digest::{ContentHash, PathHash};
pub use error::CoreError;
pub use resource::{
    DeletedResource, FileResource, FolderResource, NoteResource, ResourceKind, SettingResource,
    SyncBatch, TextResource,
};
pub use time::RemoteMillis;
pub use vault::{VaultName, VaultPath};
