use rinode::inode::StatxInfo;
use rinode::vault::{
    absolute_path, choose_storage_dir, disposal_for, generate_vault_filename, link_entry, name_for_record,
    random_part, sanitize_name, storage_dir_paths, temp_copy_name, unkept_entry, user_storage_dir,
    vault_file_name, vaulted_entry, Disposal,
};

fn info(is_dir: bool, is_symlink: bool, is_regular: bool) -> StatxInfo {
    StatxInfo {
        dev_major: 8,
        dev_minor: 3,
        mnt_id: 77,
        ino: 123456,
        mode: 0o100600,
        nlink: 1,
        uid: 1000,
        gid: 100,
        size: 4096,
        is_dir,
        is_symlink,
        is_regular,
    }
}

#[test]
fn record_names() {
    assert_eq!(name_for_record("/home/u/a.txt"), "a.txt");
    assert_eq!(name_for_record("dir/sub/"), "sub");
    assert_eq!(name_for_record("/"), "unknown");
    assert_eq!(name_for_record("foo/.."), "unknown");
}

#[test]
fn absolute_paths() {
    assert_eq!(absolute_path("a.txt", "/home/u"), "/home/u/a.txt");
    assert_eq!(absolute_path("/etc/x", "/home/u"), "/etc/x");
    assert_eq!(absolute_path("x", "/"), "/x");
}

#[test]
fn disposal_order() {
    assert_eq!(disposal_for(true, true), Disposal::Purge);
    assert_eq!(disposal_for(false, true), Disposal::Exclude);
    assert_eq!(disposal_for(false, false), Disposal::Keep);
}

#[test]
fn records_of_unkept_items() {
    let e = unkept_entry(&info(false, false, true), "/a/b", "b", None, Disposal::Purge, "T".into());
    assert_eq!(e.status, "PURGED");
    assert_eq!(e.link_type, "UNLINK");
    assert_eq!(e.file_size, 4096);
    assert_eq!(e.vault_path, "");
    assert_eq!(e.inode_no, 123456);
    assert_eq!(e.deleted_at, "T");
    let l = unkept_entry(&info(false, true, false), "/a/l", "l", Some("t".into()), Disposal::Exclude, "T".into());
    assert_eq!(l.status, "EXCLUDED");
    assert_eq!(l.link_type, "SYMLINK");
    assert_eq!(l.file_size, 0);
    assert_eq!(l.symlink_target, Some("t".to_string()));
    // A target is kept only for a link.
    let f = unkept_entry(&info(false, false, true), "/a/b", "b", Some("t".into()), Disposal::Exclude, "T".into());
    assert_eq!(f.symlink_target, None);
}

#[test]
fn records_of_kept_items() {
    let l = link_entry(&info(false, true, false), "/a/l", "l", "../x".into(), "T".into());
    assert_eq!((l.status.as_str(), l.link_type.as_str(), l.file_size), ("PRESERVED", "SYMLINK", 0));
    assert_eq!(l.symlink_target.as_deref(), Some("../x"));
    assert!(!l.is_directory);
    let v = vaulted_entry(&info(false, false, true), "/a/f", "f", Some("00ff".into()), "/v/f__1".into(), false, "T".into());
    assert_eq!((v.status.as_str(), v.link_type.as_str()), ("PRESERVED", "RENAME_MOVE"));
    assert_eq!(v.quick_fingerprint.as_deref(), Some("00ff"));
    assert_eq!(v.vault_path, "/v/f__1");
    let d = vaulted_entry(&info(true, false, false), "/a/d", "d", Some("00ff".into()), "/v/d__1".into(), true, "T".into());
    assert_eq!(d.link_type, "COPY");
    assert_eq!(d.quick_fingerprint, None);
    assert!(d.is_directory);
}

#[test]
fn stored_names() {
    assert_eq!(sanitize_name("my file/é?.txt").into_iter().collect::<String>(), "my_file_é_.txt");
    assert_eq!(vault_file_name("a b.txt", 12, 3, 1700000000123456789, 0xabc), "a_b.txt__12_3_1700000000123456789_0000000000000abc");
    assert_eq!(vault_file_name("x", 0, 0, -5, u64::MAX), "x__0_0_-5_ffffffffffffffff");
    assert_eq!(temp_copy_name("x__1", 4242), ".tmp.x__1.4242");
}

#[test]
fn random_part_falls_back_to_a_mix() {
    assert_eq!(random_part(Some(7), 1, 2), 7);
    let pid: u64 = 1234;
    let nanos: i64 = 987654321;
    let expected = pid.wrapping_mul(0x9e3779b97f4a7c15) ^ (nanos as u64).wrapping_mul(0xbf58476d1ce4e5b9);
    assert_eq!(random_part(None, pid, nanos), expected);
}

#[test]
fn generated_names_are_single_components() {
    let n = generate_vault_filename("../../etc/passwd", 5, 6, Some(1789062920171503320), Some(0xdead), 99);
    assert!(!n.contains('/'));
    assert!(n.starts_with(".._.._etc_passwd__5_6_"));
    assert!(n.ends_with("_000000000000dead"));
    assert_eq!(n, ".._.._etc_passwd__5_6_1789062920171503320_000000000000dead");
    let m = generate_vault_filename("report.pdf", 1982182, 0, None, None, 7);
    assert!(m.starts_with("report.pdf__1982182_0_0_"));
}

#[test]
fn storage_directories() {
    let (cur, old) = storage_dir_paths("/mnt/data");
    assert_eq!(cur, "/mnt/data/.rinode-vault");
    assert_eq!(old, "/mnt/data/.rinode-storage");
    assert_eq!(choose_storage_dir((cur.clone(), old.clone()), true, false), old);
    assert_eq!(choose_storage_dir((cur.clone(), old.clone()), true, true), cur);
    assert_eq!(choose_storage_dir((cur.clone(), old.clone()), false, false), cur);
    assert_eq!(storage_dir_paths("/").0, "/.rinode-vault");
    assert_eq!(user_storage_dir("/home/u/.local/share"), "/home/u/.local/share/rinode/storage");
}
