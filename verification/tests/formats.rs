use rinode::numfmt::{decimal_string, hex16_string, mode_octal, signed_decimal_string};
use rinode::queries::{active_query, all_query, history_query, path_suffix_pattern, SELECT_COLS};
use rinode::storage::{first_existing, storage_path_candidates};

#[test]
fn numbers_as_text() {
    for n in [0u64, 7, 10, 99, 100, 12345, u64::MAX] {
        assert_eq!(decimal_string(n), format!("{}", n));
        assert_eq!(hex16_string(n), format!("{:016x}", n));
    }
    for v in [0i64, -1, 42, i64::MIN, i64::MAX] {
        assert_eq!(signed_decimal_string(v), format!("{}", v));
    }
    for m in [0u16, 7, 0o644, 0o7777, 0o10000, 0o100644, u16::MAX] {
        assert_eq!(mode_octal(m), format!("{:04o}", m));
    }
}

#[test]
fn queries() {
    assert_eq!(
        active_query(Some(20)),
        format!("SELECT {} FROM entries WHERE status = 'PRESERVED' ORDER BY deleted_at DESC LIMIT 20", SELECT_COLS)
    );
    assert_eq!(active_query(None), format!("SELECT {} FROM entries WHERE status = 'PRESERVED' ORDER BY deleted_at DESC ", SELECT_COLS));
    assert_eq!(
        history_query(None),
        format!("SELECT {} FROM entries WHERE status IN ('RESTORED', 'PURGED', 'EXCLUDED') ORDER BY COALESCE(purged_at, restored_at, deleted_at) DESC, id DESC ", SELECT_COLS)
    );
    assert_eq!(all_query(Some(3)), format!("SELECT {} FROM entries ORDER BY id DESC LIMIT 3", SELECT_COLS));
    assert_eq!(path_suffix_pattern("a.txt"), "%a.txt");
    assert!(SELECT_COLS.starts_with("id, dev_major"));
    assert!(SELECT_COLS.contains("filename, file_size"));
}

#[test]
fn storage_candidates_follow_old_layouts() {
    let c = storage_path_candidates("/home/u/.local/share/recent-inode/vault/f__1");
    assert_eq!(c[0], "/home/u/.local/share/rinode/storage/f__1");
    assert_eq!(c[1], "/home/u/.local/share/rinode/vault/f__1");
    assert_eq!(c[2], "/home/u/.local/share/recent-inode/vault/f__1");
    assert_eq!(c.len(), 5);
    assert_eq!(first_existing("/m/.rinode-vault/x", &[false, false, false, true, false, false]), Some("/m/.rinode-storage/x".to_string()));
    assert_eq!(first_existing("/m/.rinode-vault/x", &[false; 6]), None);
    assert_eq!(first_existing("/m/a", &[true, false, false, false, false, false]), Some("/m/a".to_string()));
}
