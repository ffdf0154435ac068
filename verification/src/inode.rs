//! File metadata as `statx(2)` reports it, held as plain values.

use vstd::prelude::*;

verus! {

/// The metadata of one directory entry.
#[derive(Debug, Clone, Copy, PartialEq, Eq, Structural)]
pub struct StatxInfo {
    pub dev_major: u32,
    pub dev_minor: u32,
    pub mnt_id: u64,
    pub ino: u64,
    pub mode: u16,
    pub nlink: u32,
    pub uid: u32,
    pub gid: u32,
    pub size: u64,
    pub is_dir: bool,
    pub is_symlink: bool,
    pub is_regular: bool,
}

/// A copy of an optional string.
pub fn clone_opt_string(o: &Option<String>) -> (r: Option<String>)
    ensures
        opt_view(*o) == opt_view(r),
{
    match o {
        Some(s) => Some(s.clone()),
        None => None,
    }
}

/// The text of an optional string.
pub open spec fn opt_view(o: Option<String>) -> Option<Seq<char>> {
    match o {
        Some(s) => Some(s@),
        None => None,
    }
}

/// The file-type bits of a mode.
pub open spec fn file_type(mode: u16) -> u16 {
    mode & 0o170000u16
}

/// The metadata of an entry from the fields that `statx(2)` fills: its
/// type is read from the file-type bits of the mode.
pub fn statx_info(
    dev_major: u32,
    dev_minor: u32,
    mnt_id: u64,
    ino: u64,
    mode: u16,
    nlink: u32,
    uid: u32,
    gid: u32,
    size: u64,
) -> (r: StatxInfo)
    ensures
        r == (StatxInfo {
            dev_major,
            dev_minor,
            mnt_id,
            ino,
            mode,
            nlink,
            uid,
            gid,
            size,
            is_dir: file_type(mode) == 0o040000u16,
            is_symlink: file_type(mode) == 0o120000u16,
            is_regular: file_type(mode) == 0o100000u16,
        }),
{
    let t = mode & 0o170000u16;
    StatxInfo {
        dev_major,
        dev_minor,
        mnt_id,
        ino,
        mode,
        nlink,
        uid,
        gid,
        size,
        is_dir: t == 0o040000u16,
        is_symlink: t == 0o120000u16,
        is_regular: t == 0o100000u16,
    }
}

} // verus!
