//! The entries that the metadata database keeps for each deleted item, as
//! plain values: timestamps are held as RFC 3339 text, as they are stored.

use vstd::prelude::*;

verus! {

/// A deleted item about to be recorded.
#[derive(Debug, Clone)]
pub struct NewEntry {
    pub dev_major: u32,
    pub dev_minor: u32,
    pub mnt_id: u64,
    pub inode_no: u64,
    pub original_path: String,
    pub filename: String,
    pub file_size: u64,
    pub mode: u16,
    pub uid: u32,
    pub gid: u32,
    pub quick_fingerprint: Option<String>,
    pub vault_path: String,
    pub deleted_at: String,
    pub status: String,
    pub is_directory: bool,
    pub symlink_target: Option<String>,
    pub link_type: String,
}

/// A recorded item, as read back from the database.
#[derive(Debug, Clone)]
pub struct EntryRecord {
    pub id: i64,
    pub dev_major: u32,
    pub dev_minor: u32,
    pub mnt_id: u64,
    pub inode_no: u64,
    pub original_path: String,
    pub filename: String,
    pub file_size: u64,
    pub mode: u16,
    pub uid: u32,
    pub gid: u32,
    pub quick_fingerprint: Option<String>,
    pub vault_path: String,
    pub deleted_at: String,
    pub status: String,
    pub is_directory: bool,
    pub symlink_target: Option<String>,
    pub link_type: String,
    pub restored_at: Option<String>,
    pub purged_at: Option<String>,
}

/// The record read back for an inserted entry: the same fields, an id,
/// and neither a restore nor a purge time yet.
pub open spec fn stored_as(e: NewEntry, r: EntryRecord) -> bool {
    &&& r.dev_major == e.dev_major
    &&& r.dev_minor == e.dev_minor
    &&& r.mnt_id == e.mnt_id
    &&& r.inode_no == e.inode_no
    &&& r.original_path@ == e.original_path@
    &&& r.filename@ == e.filename@
    &&& r.file_size == e.file_size
    &&& r.mode == e.mode
    &&& r.uid == e.uid
    &&& r.gid == e.gid
    &&& r.vault_path@ == e.vault_path@
    &&& r.deleted_at@ == e.deleted_at@
    &&& r.status@ == e.status@
    &&& r.is_directory == e.is_directory
    &&& r.link_type@ == e.link_type@
    &&& r.restored_at is None
    &&& r.purged_at is None
}

/// Status of an item kept in the vault.
pub const STATUS_PRESERVED: &'static str = "PRESERVED";
/// Status of an item moved back to where it was.
pub const STATUS_RESTORED: &'static str = "RESTORED";
/// Status of an item removed for good.
pub const STATUS_PURGED: &'static str = "PURGED";
/// Status of an item removed without vaulting because a rule excluded it.
pub const STATUS_EXCLUDED: &'static str = "EXCLUDED";
/// How a symbolic link was removed: only its target text is kept.
pub const LINK_SYMLINK: &'static str = "SYMLINK";
/// How an item was removed without vaulting.
pub const LINK_UNLINK: &'static str = "UNLINK";
/// An item moved into the vault by a rename on the same filesystem.
pub const LINK_RENAME_MOVE: &'static str = "RENAME_MOVE";
/// An item copied into the vault from another filesystem.
pub const LINK_COPY: &'static str = "COPY";

} // verus!
