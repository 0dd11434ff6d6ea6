use vstd::prelude::*;

verus! {

#[derive(Debug, Clone, PartialEq, Eq)]
pub struct FolderSyncCheckRequest {
    pub path: String,
    pub path_hash: String,
    pub mtime: i64,
}

#[derive(Debug, Clone, PartialEq, Eq)]
pub struct FolderSyncDelFolder {
    pub path: String,
    pub path_hash: String,
}

#[derive(Debug, Clone, PartialEq, Eq)]
pub struct FolderSyncRequest {
    pub context: Option<String>,
    pub vault: String,
    pub last_time: i64,
    pub folders: Vec<FolderSyncCheckRequest>,
    pub del_folders: Vec<FolderSyncDelFolder>,
    pub missing_folders: Vec<FolderSyncDelFolder>,
}

#[derive(Debug, Clone, PartialEq, Eq)]
pub struct FolderCreateRequest {
    pub vault: String,
    pub path: String,
    pub path_hash: String,
}

#[derive(Debug, Clone, PartialEq, Eq)]
pub struct FolderDeleteRequest {
    pub vault: String,
    pub path: String,
    pub path_hash: String,
}

#[derive(Debug, Clone, PartialEq, Eq)]
pub struct FolderRenameRequest {
    pub vault: String,
    pub path: String,
    pub path_hash: String,
    pub old_path: String,
    pub old_path_hash: String,
}

#[derive(Debug, Clone, PartialEq, Eq)]
pub struct FolderSyncModifyMessage {
    pub path: String,
    pub path_hash: String,
    pub ctime: i64,
    pub mtime: i64,
    pub last_time: i64,
}

#[derive(Debug, Clone, PartialEq, Eq)]
pub struct FolderSyncDeleteMessage {
    pub path: String,
    pub path_hash: String,
    pub ctime: i64,
    pub mtime: i64,
    pub last_time: i64,
}

#[derive(Debug, Clone, PartialEq, Eq)]
pub struct FolderSyncRenameMessage {
    pub path: String,
    pub path_hash: String,
    pub ctime: i64,
    pub mtime: i64,
    pub old_path: String,
    pub old_path_hash: String,
    pub last_time: i64,
}

#[derive(Debug, Clone, PartialEq, Eq)]
pub struct FolderSyncEndMessage {
    pub last_time: i64,
    pub need_modify_count: i64,
    pub need_delete_count: i64,
}

#[derive(Debug, Clone, PartialEq, Eq)]
pub struct FolderModifyAckMessage {
    pub last_time: i64,
    pub path: String,
    pub path_hash: String,
}

#[derive(Debug, Clone, PartialEq, Eq)]
pub struct FolderRenameAckMessage {
    pub last_time: i64,
    pub path: String,
    pub path_hash: String,
}

#[derive(Debug, Clone, PartialEq, Eq)]
pub struct FolderDeleteAckMessage {
    pub last_time: i64,
    pub path: String,
    pub path_hash: String,
}

} // verus!
