//! Moving a removed item into the vault: what is recorded for it, under
//! which name it is stored, and in which storage directory. The moves
//! themselves are made by the caller.

use vstd::prelude::*;
use crate::inode::{opt_view, StatxInfo};
use crate::numfmt::{digit_chars, decimal, decimal_string, hex16_string, hex_padded, signed_decimal, signed_decimal_string};
use crate::path::{file_name, file_name_of, join_path, join_paths};
use crate::records::{
    NewEntry, LINK_COPY, LINK_RENAME_MOVE, LINK_SYMLINK, LINK_UNLINK, STATUS_EXCLUDED,
    STATUS_PRESERVED, STATUS_PURGED,
};
use crate::text::{append_chars, chars_of, string_of};

verus! {

/// The name recorded for a removed path: its last component, or `unknown`
/// when it has none (such as `/` or a path ending in `..`).
pub open spec fn record_name(path: Seq<char>) -> Seq<char> {
    match file_name(path) {
        Some(n) => n,
        None => "unknown"@,
    }
}

/// The name recorded for a removed path (see `record_name`).
pub fn name_for_record(path: &str) -> (r: String)
    ensures
        r@ == record_name(path@),
{
    let p = chars_of(path);
    match file_name_of(p.as_slice()) {
        Some(n) => string_of(n.as_slice()),
        None => {
            proof {
                reveal_strlit("unknown");
            }
            "unknown".to_owned()
        },
    }
}

/// The removed path made absolute against the working directory `cwd`.
pub fn absolute_path(path: &str, cwd: &str) -> (r: String)
    ensures
        r@ == join_path(cwd@, path@),
{
    let p = chars_of(path);
    let c = chars_of(cwd);
    let j = join_paths(c.as_slice(), p.as_slice());
    string_of(j.as_slice())
}

/// What becomes of a removed item.
#[derive(Debug, Clone, Copy, PartialEq, Eq, Structural)]
pub enum Disposal {
    /// Removed for good at the user's request; recorded as purged.
    Purge,
    /// Removed without vaulting because a rule excludes it; recorded as
    /// excluded.
    Exclude,
    /// Kept: a link is recorded with its target, anything else is moved
    /// into the vault.
    Keep,
}

/// A permanent removal wins over an exclusion rule; otherwise the item is
/// kept.
pub fn disposal_for(permanent: bool, excluded: bool) -> (r: Disposal)
    ensures
        r == (if permanent {
            Disposal::Purge
        } else if excluded {
            Disposal::Exclude
        } else {
            Disposal::Keep
        }),
{
    if permanent {
        Disposal::Purge
    } else if excluded {
        Disposal::Exclude
    } else {
        Disposal::Keep
    }
}

/// The fields that every record takes from the item's metadata and from
/// where and when it was removed.
pub open spec fn describes(e: NewEntry, info: StatxInfo, path: Seq<char>, name: Seq<char>, deleted_at: Seq<char>) -> bool {
    &&& e.dev_major == info.dev_major
    &&& e.dev_minor == info.dev_minor
    &&& e.mnt_id == info.mnt_id
    &&& e.inode_no == info.ino
    &&& e.original_path@ == path
    &&& e.filename@ == name
    &&& e.mode == info.mode
    &&& e.uid == info.uid
    &&& e.gid == info.gid
    &&& e.deleted_at@ == deleted_at
}

/// The record of an item removed without vaulting (purged or excluded): no
/// size for a link, no fingerprint, no storage path, and the link target
/// only for a link.
pub fn unkept_entry(
    info: &StatxInfo,
    path: &str,
    name: &str,
    link_target: Option<String>,
    disposal: Disposal,
    deleted_at: String,
) -> (e: NewEntry)
    requires
        disposal != Disposal::Keep,
    ensures
        describes(e, *info, path@, name@, deleted_at@),
        e.file_size == (if info.is_symlink { 0 } else { info.size }),
        e.quick_fingerprint is None,
        e.vault_path@ == Seq::<char>::empty(),
        e.status@ == (if disposal == Disposal::Purge { STATUS_PURGED@ } else { STATUS_EXCLUDED@ }),
        e.is_directory == info.is_dir,
        opt_view(e.symlink_target) == (if info.is_symlink { opt_view(link_target) } else { None }),
        e.link_type@ == (if info.is_symlink { LINK_SYMLINK@ } else { LINK_UNLINK@ }),
{
    let status = if disposal == Disposal::Purge { STATUS_PURGED } else { STATUS_EXCLUDED };
    let link = if info.is_symlink { LINK_SYMLINK } else { LINK_UNLINK };
    let target = if info.is_symlink { link_target } else { None };
    proof {
        reveal_strlit("");
    }
    NewEntry {
        dev_major: info.dev_major,
        dev_minor: info.dev_minor,
        mnt_id: info.mnt_id,
        inode_no: info.ino,
        original_path: path.to_owned(),
        filename: name.to_owned(),
        file_size: if info.is_symlink { 0 } else { info.size },
        mode: info.mode,
        uid: info.uid,
        gid: info.gid,
        quick_fingerprint: None,
        vault_path: "".to_owned(),
        deleted_at,
        status: status.to_owned(),
        is_directory: info.is_dir,
        symlink_target: target,
        link_type: link.to_owned(),
    }
}

/// The record of a symbolic link that is kept: only its target is stored.
pub fn link_entry(info: &StatxInfo, path: &str, name: &str, target: String, deleted_at: String) -> (e: NewEntry)
    ensures
        describes(e, *info, path@, name@, deleted_at@),
        e.file_size == 0,
        e.quick_fingerprint is None,
        e.vault_path@ == Seq::<char>::empty(),
        e.status@ == STATUS_PRESERVED@,
        !e.is_directory,
        opt_view(e.symlink_target) == Some(target@),
        e.link_type@ == LINK_SYMLINK@,
{
    proof {
        reveal_strlit("");
    }
    NewEntry {
        dev_major: info.dev_major,
        dev_minor: info.dev_minor,
        mnt_id: info.mnt_id,
        inode_no: info.ino,
        original_path: path.to_owned(),
        filename: name.to_owned(),
        file_size: 0,
        mode: info.mode,
        uid: info.uid,
        gid: info.gid,
        quick_fingerprint: None,
        vault_path: "".to_owned(),
        deleted_at,
        status: STATUS_PRESERVED.to_owned(),
        is_directory: false,
        symlink_target: Some(target),
        link_type: LINK_SYMLINK.to_owned(),
    }
}

/// A record of an item moved into the vault at `vault_path` (by a copy when
/// `copied`): it describes the item, is kept, and is no link.
pub open spec fn vaulted(
    e: NewEntry,
    info: StatxInfo,
    path: Seq<char>,
    name: Seq<char>,
    vault_path: Seq<char>,
    copied: bool,
    deleted_at: Seq<char>,
) -> bool {
    &&& describes(e, info, path, name, deleted_at)
    &&& e.file_size == info.size
    &&& e.vault_path@ == vault_path
    &&& e.status@ == STATUS_PRESERVED@
    &&& e.is_directory == info.is_dir
    &&& e.symlink_target is None
    &&& e.link_type@ == (if copied { LINK_COPY@ } else { LINK_RENAME_MOVE@ })
}

/// The record of a file or directory moved into the vault at `vault_path`,
/// by a rename or, across filesystems, by a copy (`copied`). Only a regular
/// file keeps its fingerprint.
pub fn vaulted_entry(
    info: &StatxInfo,
    path: &str,
    name: &str,
    fingerprint: Option<String>,
    vault_path: String,
    copied: bool,
    deleted_at: String,
) -> (e: NewEntry)
    ensures
        describes(e, *info, path@, name@, deleted_at@),
        e.file_size == info.size,
        opt_view(e.quick_fingerprint) == (if info.is_regular { opt_view(fingerprint) } else { None }),
        e.vault_path@ == vault_path@,
        e.status@ == STATUS_PRESERVED@,
        e.is_directory == info.is_dir,
        e.symlink_target is None,
        e.link_type@ == (if copied { LINK_COPY@ } else { LINK_RENAME_MOVE@ }),
        vaulted(e, *info, path@, name@, vault_path@, copied, deleted_at@),
{
    let fp = if info.is_regular { fingerprint } else { None };
    let link = if copied { LINK_COPY } else { LINK_RENAME_MOVE };
    NewEntry {
        dev_major: info.dev_major,
        dev_minor: info.dev_minor,
        mnt_id: info.mnt_id,
        inode_no: info.ino,
        original_path: path.to_owned(),
        filename: name.to_owned(),
        file_size: info.size,
        mode: info.mode,
        uid: info.uid,
        gid: info.gid,
        quick_fingerprint: fp,
        vault_path,
        deleted_at,
        status: STATUS_PRESERVED.to_owned(),
        is_directory: info.is_dir,
        symlink_target: None,
        link_type: link.to_owned(),
    }
}

/// `char::is_alphanumeric`: the character is alphabetic or numeric in the
/// Unicode sense.
pub uninterp spec fn alphanumeric(c: char) -> bool;

/// An ASCII letter or digit.
pub open spec fn ascii_alphanumeric(c: char) -> bool {
    ('a' <= c && c <= 'z') || ('A' <= c && c <= 'Z') || ('0' <= c && c <= '9')
}

/// Calls `char::is_alphanumeric`. Its result is named `alphanumeric`; on
/// ASCII it holds exactly of letters and digits, as std documents.
#[verifier::external_body]
fn is_alphanumeric(c: char) -> (r: bool)
    ensures
        r == alphanumeric(c),
        (c as u32) < 128 ==> (r == ascii_alphanumeric(c)),
{
    c.is_alphanumeric()
}

/// A character kept in a stored name; anything else becomes `_`.
pub open spec fn kept_char(c: char) -> bool {
    alphanumeric(c) || c == '.' || c == '-' || c == '_'
}

/// `name` with every character that is not kept replaced by `_`.
pub open spec fn sanitized(name: Seq<char>) -> Seq<char> {
    Seq::new(name.len(), |i: int| if kept_char(name[i]) { name[i] } else { '_' })
}

/// Replaces every character of `name` that is not kept by `_`.
pub fn sanitize_name(name: &str) -> (r: Vec<char>)
    ensures
        r@ == sanitized(name@),
        !r@.contains('/'),
{
    let s = chars_of(name);
    let mut out: Vec<char> = Vec::new();
    let mut i: usize = 0;
    while i < s.len()
        invariant
            i <= s.len(),
            s@ == name@,
            out@ == sanitized(name@).take(i as int),
            !out@.contains('/'),
        decreases s.len() - i,
    {
        let c = s[i];
        let keep = is_alphanumeric(c) || c == '.' || c == '-' || c == '_';
        if keep {
            out.push(c);
        } else {
            out.push('_');
        }
        i += 1;
        assert(out@ =~= sanitized(name@).take(i as int));
        assert(!out@.contains('/')) by {
            if out@.contains('/') {
                let k = choose|k: int| 0 <= k < out@.len() && out@[k] == '/';
                assert(out@[k] == '/');
                if k < out@.len() - 1 {
                    assert(out@.drop_last()[k] == '/');
                    assert(out@.drop_last() =~= sanitized(name@).take((i - 1) as int));
                }
            }
        }
    }
    assert(sanitized(name@).take(s.len() as int) =~= sanitized(name@));
    out
}

/// The name under which an item is stored:
/// `{sanitized}__{inode}_{device}_{nanos}_{random:016x}`.
pub open spec fn vault_name(name: Seq<char>, inode: u64, dev: u32, nanos: i64, random: u64) -> Seq<char> {
    sanitized(name) + "__"@ + decimal(inode as nat) + "_"@ + decimal(dev as nat) + "_"@
        + signed_decimal(nanos as int) + "_"@ + hex_padded(random as nat, 16)
}

/// Builds the stored name (see `vault_name`).
pub fn vault_file_name(name: &str, inode: u64, dev: u32, nanos: i64, random: u64) -> (r: String)
    ensures
        r@ == vault_name(name@, inode, dev, nanos, random),
        !r@.contains('/'),
{
    let mut out = sanitize_name(name);
    let sep2 = chars_of("__");
    let sep = chars_of("_");
    let ino = chars_of(decimal_string(inode).as_str());
    let dv = chars_of(decimal_string(dev as u64).as_str());
    let ns = chars_of(signed_decimal_string(nanos).as_str());
    let rnd = chars_of(hex16_string(random).as_str());
    append_chars(&mut out, sep2.as_slice());
    append_chars(&mut out, ino.as_slice());
    append_chars(&mut out, sep.as_slice());
    append_chars(&mut out, dv.as_slice());
    append_chars(&mut out, sep.as_slice());
    append_chars(&mut out, ns.as_slice());
    append_chars(&mut out, sep.as_slice());
    append_chars(&mut out, rnd.as_slice());
    proof {
        lemma_decimal_digits(inode as nat);
        lemma_decimal_digits(dev as nat);
        lemma_decimal_digits((if nanos < 0 { -nanos } else { nanos as int }) as nat);
        lemma_hex_digits(random as nat, 16);
        reveal_strlit("__");
        reveal_strlit("_");
        lemma_no_slash_concat(sanitized(name@), "__"@);
        let a = sanitized(name@) + "__"@;
        lemma_no_slash_concat(a, decimal(inode as nat));
        let b = a + decimal(inode as nat);
        lemma_no_slash_concat(b, "_"@);
        let c = b + "_"@;
        lemma_no_slash_concat(c, decimal(dev as nat));
        let d = c + decimal(dev as nat);
        lemma_no_slash_concat(d, "_"@);
        let e = d + "_"@;
        if nanos < 0 {
            lemma_no_slash_concat(seq!['-'], decimal((-nanos) as nat));
        }
        lemma_no_slash_concat(e, signed_decimal(nanos as int));
        let f = e + signed_decimal(nanos as int);
        lemma_no_slash_concat(f, "_"@);
        let g = f + "_"@;
        lemma_no_slash_concat(g, hex_padded(random as nat, 16));
    }
    string_of(out.as_slice())
}

/// Neither part holds a slash, so neither does the whole.
proof fn lemma_no_slash_concat(a: Seq<char>, b: Seq<char>)
    requires
        !a.contains('/'),
        !b.contains('/'),
    ensures
        !(a + b).contains('/'),
{
    if (a + b).contains('/') {
        let k = choose|k: int| 0 <= k < (a + b).len() && (a + b)[k] == '/';
        if k < a.len() {
            assert(a[k] == '/');
        } else {
            assert(b[k - a.len()] == '/');
        }
    }
}

/// Decimal text is made of digits only.
proof fn lemma_decimal_digits(n: nat)
    ensures
        !decimal(n).contains('/'),
    decreases n,
{
    if n >= 10 {
        lemma_decimal_digits(n / 10);
        let d = decimal(n / 10);
        let c = digit_chars()[(n % 10) as int];
        assert(c != '/');
        assert(d.push(c) =~= d + seq![c]);
        lemma_no_slash_concat(d, seq![c]);
    } else {
        assert(digit_chars()[n as int] != '/');
        assert(decimal(n) =~= seq![digit_chars()[n as int]]);
    }
}

/// Hexadecimal text is made of digits only.
proof fn lemma_hex_digits(n: nat, width: nat)
    ensures
        !hex_padded(n, width).contains('/'),
    decreases width,
{
    if width > 0 {
        lemma_hex_digits(n / 16, (width - 1) as nat);
        let d = hex_padded(n / 16, (width - 1) as nat);
        let c = digit_chars()[(n % 16) as int];
        assert(c != '/');
        assert(d.push(c) =~= d + seq![c]);
        lemma_no_slash_concat(d, seq![c]);
    }
}

/// The random part used when the kernel gives no random bytes: the process
/// id and the time mixed by two odd multipliers.
pub open spec fn mixed_random(pid: u64, nanos: i64) -> u64 {
    pid.wrapping_mul(0x9e3779b97f4a7c15u64) ^ (nanos as u64).wrapping_mul(0xbf58476d1ce4e5b9u64)
}

/// The random part of a stored name: the kernel's random bytes when there
/// were eight of them, otherwise `mixed_random`.
pub fn random_part(random: Option<u64>, pid: u64, nanos: i64) -> (r: u64)
    ensures
        r == (match random {
            Some(v) => v,
            None => mixed_random(pid, nanos),
        }),
{
    match random {
        Some(v) => v,
        None => pid.wrapping_mul(0x9e3779b97f4a7c15u64) ^ (nanos as u64).wrapping_mul(0xbf58476d1ce4e5b9u64),
    }
}

/// A fresh stored name for `name` (see `vault_name`), stamped with the time
/// given in nanoseconds since the Unix epoch (zero when there is none) and
/// the random part given by `random_part`.
pub fn generate_vault_filename(
    name: &str,
    inode: u64,
    dev: u32,
    now_nanos: Option<i64>,
    random: Option<u64>,
    pid: u32,
) -> (r: String)
    ensures
        r@ == vault_name(name@, inode, dev, stamp(now_nanos), random_value(random, pid as u64, stamp(now_nanos))),
        !r@.contains('/'),
{
    let nanos = match now_nanos {
        Some(n) => n,
        None => 0,
    };
    let rnd = random_part(random, pid as u64, nanos);
    vault_file_name(name, inode, dev, nanos, rnd)
}

/// The time stamp of a stored name: the given nanoseconds, or zero.
pub open spec fn stamp(now_nanos: Option<i64>) -> i64 {
    match now_nanos {
        Some(n) => n,
        None => 0,
    }
}

/// The random part for the given kernel bytes, process id and time.
pub open spec fn random_value(random: Option<u64>, pid: u64, nanos: i64) -> u64 {
    match random {
        Some(v) => v,
        None => mixed_random(pid, nanos),
    }
}

/// The temporary name of a copy made across filesystems before it is
/// renamed into place: `.tmp.{stored name}.{pid}`.
pub fn temp_copy_name(stored_name: &str, pid: u32) -> (r: String)
    ensures
        r@ == ".tmp."@ + stored_name@ + "."@ + decimal(pid as nat),
{
    let mut out = chars_of(".tmp.");
    let n = chars_of(stored_name);
    let dot = chars_of(".");
    let p = chars_of(decimal_string(pid as u64).as_str());
    append_chars(&mut out, n.as_slice());
    append_chars(&mut out, dot.as_slice());
    append_chars(&mut out, p.as_slice());
    string_of(out.as_slice())
}

/// The storage directory at the root of a mount, `.rinode-vault`, and the
/// other name it may have from an earlier layout, `.rinode-storage`.
pub open spec fn storage_dirs(mount_root: Seq<char>) -> (Seq<char>, Seq<char>) {
    (join_path(mount_root, ".rinode-vault"@), join_path(mount_root, ".rinode-storage"@))
}

/// The storage directory and its other, earlier name under `mount_root`.
pub fn storage_dir_paths(mount_root: &str) -> (r: (String, String))
    ensures
        (r.0@, r.1@) == storage_dirs(mount_root@),
{
    let root = chars_of(mount_root);
    let cur = chars_of(".rinode-vault");
    let old = chars_of(".rinode-storage");
    let a = join_paths(root.as_slice(), cur.as_slice());
    let b = join_paths(root.as_slice(), old.as_slice());
    (string_of(a.as_slice()), string_of(b.as_slice()))
}

/// The directory under the earlier name is used only while it exists and
/// `.rinode-vault` does not; otherwise `.rinode-vault` is used (and made).
pub fn choose_storage_dir(dirs: (String, String), legacy_exists: bool, current_exists: bool) -> (r: String)
    ensures
        r@ == (if legacy_exists && !current_exists { dirs.1@ } else { dirs.0@ }),
{
    if legacy_exists && !current_exists {
        dirs.1
    } else {
        dirs.0
    }
}

/// Where items are stored when the mount root cannot be written: the
/// user's data directory, then `rinode/storage`.
pub fn user_storage_dir(base_data_dir: &str) -> (r: String)
    ensures
        r@ == join_path(join_path(base_data_dir@, "rinode"@), "storage"@),
{
    let base = chars_of(base_data_dir);
    let a = chars_of("rinode");
    let b = chars_of("storage");
    let j = join_paths(base.as_slice(), a.as_slice());
    let k = join_paths(j.as_slice(), b.as_slice());
    string_of(k.as_slice())
}

} // verus!
