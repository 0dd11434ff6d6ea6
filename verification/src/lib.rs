//! Verified core of a headless Fast Note Sync client: vault names and
//! paths, the plugin-compatible rolling hashes, binary websocket frames,
//! protocol action names and protobuf dispatch, the decisions of the local
//! sync-state store, and the reconnect logic of the daemon.

pub mod daemon;
pub mod domain;
pub mod hash;
pub mod protocol;
pub mod store;

pub use daemon::{Daemon, DaemonConfig, DaemonOptions};
pub use domain::{
    ContentHash, CoreError, DeletedResource, FileResource, FolderResource, NoteResource,
    PathHash, RemoteMillis, ResourceKind, SettingResource, SyncBatch, TextResource, VaultName,
    VaultPath,
};
pub use protocol::{Action, BinaryFrame, FileChunkFrame, ProtocolError};
pub use store::HashEntry;
