//! The decisions of the local sync-state store: how hash entries are
//! written and read back, how store keys are formed, which kinds record
//! pending work, and which rows a folder rename moves where. The SQLite
//! calls themselves are I/O and stay with the program around the library.

pub mod keys;
pub mod state;

pub use keys::{
    all_resource_kinds, chunk_index_from_i64, hash_tree_moves, is_in_hash_tree, kind_key,
    records_pending_modify, records_pending_rename, renamed_path, size_from_i64,
    sync_time_from_stored, to_i64, NumberTooLarge,
};
pub use state::HashEntry;
