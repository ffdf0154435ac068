use rinode::commands::{
    exclude_action, expired_summary, inspect_lines, kind_label, listing_layout, pick_purge_match,
    purge_check, purge_done_line, purge_failed_line, purge_fails, purge_needs_storage_check,
    purge_no_match_line, purge_skip_notice, removal_line, removal_summary, restored_line, retention_days,
    rules_listing, sample_file_name, size_cell, status_cell, storage_location, EntryTimes, ExcludeAction,
    PurgeCheck,
};
use rinode::config::{Config, ExclusionKind, ExclusionsConfig};
use rinode::records::EntryRecord;

fn entry(id: i64, name: &str, status: &str) -> EntryRecord {
    EntryRecord {
        id,
        dev_major: 8,
        dev_minor: 1,
        mnt_id: 42,
        inode_no: 777,
        original_path: format!("/home/u/{}", name),
        filename: name.to_string(),
        file_size: 1536,
        mode: 0o100644,
        uid: 1000,
        gid: 100,
        quick_fingerprint: None,
        vault_path: format!("/v/{}", name),
        deleted_at: "2024-01-02T03:04:05+00:00".to_string(),
        status: status.to_string(),
        is_directory: false,
        symlink_target: None,
        link_type: "RENAME_MOVE".to_string(),
        restored_at: None,
        purged_at: None,
    }
}

#[test]
fn removal_lines() {
    assert_eq!(removal_line(&entry(4, "a.txt", "PRESERVED")), "Deleted [4] 'a.txt' (inode: 777, size: 1.5 KB)");
    assert_eq!(
        removal_line(&entry(5, "b", "PURGED")),
        "Deleted [5] 'b' permanently (inode: 777, size: 1.5 KB)"
    );
}

#[test]
fn removal_summaries() {
    let undo = ". Run 'rinode ls' or 'rinode restore <id>' to undo.";
    assert_eq!(removal_summary(3, 0, 0), Some(format!("Deleted 3 item(s){}", undo)));
    assert_eq!(removal_summary(3, 2, 1), Some(format!("Deleted 5 item(s) (2 permanently, 1 excluded){}", undo)));
    assert_eq!(removal_summary(1, 2, 0), Some(format!("Deleted 3 item(s) (2 permanently){}", undo)));
    assert_eq!(removal_summary(1, 0, 4), Some(format!("Deleted 1 item(s) (4 excluded){}", undo)));
    assert_eq!(removal_summary(0, 2, 1), Some("Deleted 2 item(s) permanently (1 excluded, tracked in history).".into()));
    assert_eq!(removal_summary(0, 2, 0), Some("Deleted 2 item(s) permanently (tracked in history).".into()));
    assert_eq!(removal_summary(0, 0, 3), Some("Deleted 0 item(s) (3 excluded).".into()));
    assert_eq!(removal_summary(0, 0, 0), None);
}

#[test]
fn listing_layouts() {
    assert_eq!(listing_layout(Some(200), false), (2, 36));
    assert_eq!(listing_layout(Some(120), true), (2, 28));
    assert_eq!(listing_layout(Some(100), true), (1, 20));
    assert_eq!(listing_layout(Some(100), false), (1, 24));
    assert_eq!(listing_layout(Some(85), true), (1, 15));
    assert_eq!(listing_layout(Some(79), false), (1, 14));
    assert_eq!(listing_layout(Some(50), true), (1, 14));
    assert_eq!(listing_layout(None, false), (2, 26));
}

#[test]
fn table_cells() {
    let mut e = entry(1, "a", "PRESERVED");
    assert_eq!(size_cell(&e), "1.5 KB");
    e.link_type = "SYMLINK".into();
    assert_eq!(size_cell(&e), "<SYMLINK>");
    e.is_directory = true;
    assert_eq!(size_cell(&e), "<DIR>");
    assert_eq!(status_cell("PRESERVED"), "DELETED");
    assert_eq!(status_cell("RESTORED"), "RESTORED");
    assert_eq!(status_cell("ODD"), "ODD");
}

#[test]
fn storage_locations() {
    assert_eq!(storage_location(&entry(1, "a", "EXCLUDED")), "(none - excluded by rule)");
    let mut p = entry(1, "a", "PURGED");
    p.vault_path = String::new();
    assert_eq!(storage_location(&p), "(none - permanently unlinked)");
    p.status = "PRESERVED".into();
    assert_eq!(storage_location(&p), "(none)");
    assert_eq!(storage_location(&entry(1, "a", "PRESERVED")), "/v/a");
}

#[test]
fn purge_decisions() {
    let e = entry(6, "a", "PURGED");
    assert_eq!(purge_check(&e, true), PurgeCheck::AlreadyPurged);
    assert_eq!(purge_skip_notice(PurgeCheck::AlreadyPurged, &e, false), (Some("rinode: entry [6] 'a' is already purged.".into()), false));
    assert_eq!(purge_skip_notice(PurgeCheck::AlreadyPurged, &e, true), (None, false));
    let x = entry(7, "b", "EXCLUDED");
    assert_eq!(purge_check(&x, true), PurgeCheck::NeverStored);
    assert_eq!(
        purge_skip_notice(PurgeCheck::NeverStored, &x, false),
        (Some("rinode: entry [7] was excluded and never stored in storage.".into()), true)
    );
    let r = entry(8, "c", "RESTORED");
    assert!(purge_needs_storage_check(&r));
    assert!(!purge_needs_storage_check(&e));
    assert_eq!(purge_check(&r, false), PurgeCheck::NotInStorage);
    assert_eq!(purge_check(&r, true), PurgeCheck::Purge);
    assert_eq!(
        purge_skip_notice(PurgeCheck::NotInStorage, &r, false),
        (Some("rinode: entry [8] 'c' was already restored and is not in storage.".into()), true)
    );
    assert_eq!(purge_check(&entry(9, "d", "PRESERVED"), false), PurgeCheck::Purge);
    assert_eq!(purge_done_line(&r), "Purged [8] 'c' from storage.");
    assert_eq!(purge_failed_line(&r, "disk I/O error"), "rinode: failed to purge [8] 'c': disk I/O error");
    assert_eq!(purge_no_match_line("zz"), "rinode: no entry found matching 'zz'");
    assert!(purge_fails(true, false, 0));
    assert!(!purge_fails(true, true, 0));
    assert!(!purge_fails(true, false, 1));
    assert!(!purge_fails(false, false, 0));
    assert_eq!(retention_days(true, Some(3), 14), 0);
    assert_eq!(retention_days(false, Some(3), 14), 3);
    assert_eq!(retention_days(false, None, 14), 14);
    assert_eq!(expired_summary(4), "Purged 4 expired file(s) from storage.");
    assert_eq!(restored_line(&r), "Restored [8] 'c' to '/home/u/c'");
}

#[test]
fn purge_prefers_a_kept_entry() {
    let m = vec![entry(1, "a", "RESTORED"), entry(2, "a", "PRESERVED"), entry(3, "a", "PRESERVED")];
    assert_eq!(pick_purge_match(m).unwrap().id, 2);
    let m = vec![entry(1, "a", "RESTORED"), entry(2, "a", "PURGED")];
    assert_eq!(pick_purge_match(m).unwrap().id, 1);
    assert!(pick_purge_match(vec![]).is_none());
}

#[test]
fn exclude_dispatch() {
    let s = |x: &str| Some(x.to_string());
    assert_eq!(exclude_action(s("p"), true, s("t"), s("r")), ExcludeAction::Test("t".into()));
    assert_eq!(exclude_action(s("p"), true, None, s("r")), ExcludeAction::Remove("r".into()));
    assert_eq!(exclude_action(s("p"), true, None, None), ExcludeAction::List);
    assert_eq!(exclude_action(s("p"), false, None, None), ExcludeAction::Add("p".into()));
    assert_eq!(exclude_action(None, false, None, None), ExcludeAction::Usage);
    assert_eq!(kind_label(ExclusionKind::SystemPath), "System path prefix");
    assert_eq!(kind_label(ExclusionKind::PathRegex), "Path regex pattern");
    assert_eq!(kind_label(ExclusionKind::FilenameRegex), "Filename regex pattern");
    assert_eq!(sample_file_name("/var/log/x.log"), "x.log");
    assert_eq!(sample_file_name("/"), "");
}

#[test]
fn listing_of_rules() {
    let cfg = Config::default();
    let lines = rules_listing(&cfg.exclusions);
    assert_eq!(lines[0], "rinode active exclusion rules");
    assert_eq!(lines[2], "System Paths (Prefix match):");
    assert_eq!(lines[3], "  • /proc");
    let empty = ExclusionsConfig { system_paths: vec![], path_regex: vec!["a".into()], filename_regex: vec![] };
    assert_eq!(
        rules_listing(&empty),
        vec![
            "rinode active exclusion rules",
            "------------------------------------------------------------",
            "System Paths (Prefix match):",
            "  (none)",
            "",
            "Path Patterns (Regex match):",
            "  • a",
            "",
            "Filename Patterns (Regex match):",
            "  (none)",
        ]
    );
}

#[test]
fn inspect_report() {
    let mut e = entry(12, "notes.txt", "RESTORED");
    e.symlink_target = None;
    e.quick_fingerprint = Some("0123456789abcdef".into());
    let times = EntryTimes { deleted: "D".into(), restored: Some("R".into()), purged: None };
    let lines = inspect_lines(&e, &times);
    assert_eq!(
        lines,
        vec![
            "Inode Metadata for Entry #12",
            "-----------------------------------------",
            "  Filename:          notes.txt",
            "  Original Path:     /home/u/notes.txt",
            "  Inode Number:      777",
            "  Mount/Device:      8:1 (mnt_id: 42)",
            "  File Size:         1.5 KB (1536 bytes)",
            "  Permissions (Oct): 100644",
            "  Owner UID / GID:   1000 / 100",
            "  Link / Move Type:  RENAME_MOVE",
            "  Status:            RESTORED",
            "  Deleted At:        D",
            "  Restored At:       R",
            "  Fast Fingerprint:  0123456789abcdef",
            "  Vault Location:    /v/notes.txt",
        ]
    );
    e.mode = 0o644;
    assert_eq!(inspect_lines(&e, &times)[7], format!("  Permissions (Oct): {:04o}", 0o644));
    e.mode = 0o7;
    assert_eq!(inspect_lines(&e, &times)[7], "  Permissions (Oct): 0007");
}

#[test]
fn inspect_report_as_documented() {
    let e = EntryRecord {
        id: 1,
        dev_major: 252,
        dev_minor: 0,
        mnt_id: 47,
        inode_no: 1982182,
        original_path: "/home/user/documents/report.pdf".to_string(),
        filename: "report.pdf".to_string(),
        file_size: 2516582,
        mode: 0o100644,
        uid: 1000,
        gid: 1000,
        quick_fingerprint: Some("dc1025ce6c498bd0".to_string()),
        vault_path: "/home/user/.rinode-vault/report.pdf__1982182_0_1789062920171503320_cac889".to_string(),
        deleted_at: "2026-09-10T17:55:20.171592361+00:00".to_string(),
        status: "PRESERVED".to_string(),
        is_directory: false,
        symlink_target: None,
        link_type: "RENAME_MOVE".to_string(),
        restored_at: None,
        purged_at: None,
    };
    let times = EntryTimes { deleted: e.deleted_at.clone(), restored: None, purged: None };
    assert_eq!(
        inspect_lines(&e, &times),
        vec![
            "Inode Metadata for Entry #1",
            "-----------------------------------------",
            "  Filename:          report.pdf",
            "  Original Path:     /home/user/documents/report.pdf",
            "  Inode Number:      1982182",
            "  Mount/Device:      252:0 (mnt_id: 47)",
            "  File Size:         2.4 MB (2516582 bytes)",
            "  Permissions (Oct): 100644",
            "  Owner UID / GID:   1000 / 1000",
            "  Link / Move Type:  RENAME_MOVE",
            "  Status:            PRESERVED",
            "  Deleted At:        2026-09-10T17:55:20.171592361+00:00",
            "  Fast Fingerprint:  dc1025ce6c498bd0",
            "  Vault Location:    /home/user/.rinode-vault/report.pdf__1982182_0_1789062920171503320_cac889",
        ]
    );
}
