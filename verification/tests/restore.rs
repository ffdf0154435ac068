use rinode::records::EntryRecord;
use rinode::restore::{
    check_restorable, clear_destination, needs_storage, parse_entry_id, restore_method, restore_target,
    select_entry, Clearing, DestinationState, RestoreMethod, RestoreRefusal, RestoreTarget,
};

fn entry(id: i64, name: &str, status: &str, link: &str) -> EntryRecord {
    EntryRecord {
        id,
        dev_major: 8,
        dev_minor: 1,
        mnt_id: 42,
        inode_no: 1000 + id as u64,
        original_path: format!("/home/u/{}", name),
        filename: name.to_string(),
        file_size: 2048,
        mode: 0o100644,
        uid: 1000,
        gid: 1000,
        quick_fingerprint: None,
        vault_path: format!("/data/.rinode-storage/{}__1", name),
        deleted_at: "2024-01-02T03:04:05+00:00".to_string(),
        status: status.to_string(),
        is_directory: false,
        symlink_target: None,
        link_type: link.to_string(),
        restored_at: None,
        purged_at: None,
    }
}

const NOTHING: DestinationState = DestinationState { exists: false, is_dir: false, is_symlink: false };
const FILE: DestinationState = DestinationState { exists: true, is_dir: false, is_symlink: false };
const DIR: DestinationState = DestinationState { exists: true, is_dir: true, is_symlink: false };

#[test]
fn parse_entry_id_reads_integers_like_str_parse() {
    for s in ["0", "42", "-7", "+15", "9223372036854775807", "-9223372036854775808", "", "-", "+", "12a", " 1", "9223372036854775808", "x"] {
        assert_eq!(parse_entry_id(s), s.parse::<i64>().ok(), "input {:?}", s);
    }
}

#[test]
fn restore_target_is_an_id_or_a_name() {
    assert_eq!(restore_target("17"), RestoreTarget::Id(17));
    assert_eq!(restore_target("notes.txt"), RestoreTarget::Name("notes.txt".to_string()));
}

#[test]
fn refusal_messages() {
    assert_eq!(RestoreRefusal::IdNotFound(5).message(), "Entry with ID 5 not found");
    assert_eq!(RestoreRefusal::IdNotFound(-3).message(), "Entry with ID -3 not found");
    assert_eq!(RestoreRefusal::NoMatch("a.txt".into()).message(), "No deleted entries found matching 'a.txt'");
    assert_eq!(
        RestoreRefusal::Excluded("a.log".into()).message(),
        "Cannot restore 'a.log': file was excluded by config and permanently unlinked without vaulting"
    );
    assert_eq!(
        RestoreRefusal::Purged("a".into()).message(),
        "Cannot restore 'a': file was permanently unlinked and not stored in storage"
    );
    assert_eq!(
        RestoreRefusal::DestinationExists("/x/y".into()).message(),
        "Destination '/x/y' already exists. Use --force to overwrite."
    );
    assert_eq!(RestoreRefusal::StorageMissing("/s/v".into()).message(), "Storage file '/s/v' is missing on disk");
}

#[test]
fn select_entry_by_id_and_by_name() {
    let found = select_entry(&RestoreTarget::Id(3), Some(entry(3, "a", "PRESERVED", "RENAME_MOVE")), vec![]);
    assert_eq!(found.unwrap().id, 3);
    let missing = select_entry(&RestoreTarget::Id(9), None, vec![]);
    assert_eq!(missing.unwrap_err(), RestoreRefusal::IdNotFound(9));
    let first = select_entry(
        &RestoreTarget::Name("a".into()),
        None,
        vec![entry(8, "a", "PRESERVED", "RENAME_MOVE"), entry(2, "a", "PRESERVED", "RENAME_MOVE")],
    );
    assert_eq!(first.unwrap().id, 8);
    let none = select_entry(&RestoreTarget::Name("zz".into()), None, vec![]);
    assert_eq!(none.unwrap_err(), RestoreRefusal::NoMatch("zz".into()));
}

#[test]
fn excluded_and_purged_entries_are_refused() {
    assert_eq!(
        check_restorable(&entry(1, "a.log", "EXCLUDED", "UNLINK")),
        Err(RestoreRefusal::Excluded("a.log".into()))
    );
    assert_eq!(check_restorable(&entry(1, "b", "PURGED", "UNLINK")), Err(RestoreRefusal::Purged("b".into())));
    assert_eq!(check_restorable(&entry(1, "c", "PRESERVED", "RENAME_MOVE")), Ok(()));
    assert_eq!(check_restorable(&entry(1, "c", "RESTORED", "RENAME_MOVE")), Ok(()));
}

#[test]
fn destination_handling() {
    let file = entry(1, "f", "PRESERVED", "RENAME_MOVE");
    let link = entry(2, "l", "PRESERVED", "SYMLINK");
    // Nothing there: nothing to do.
    assert_eq!(clear_destination(&file, false, false, NOTHING), Ok(Clearing::Keep));
    // With force the destination is cleared, directories as a tree.
    assert_eq!(clear_destination(&file, false, true, FILE), Ok(Clearing::RemoveFile));
    assert_eq!(clear_destination(&file, false, true, DIR), Ok(Clearing::RemoveTree));
    let link_to_dir = DestinationState { exists: true, is_dir: true, is_symlink: true };
    assert_eq!(clear_destination(&file, false, true, link_to_dir), Ok(Clearing::RemoveFile));
    // A link entry is never cleared here; without force it is refused.
    assert_eq!(clear_destination(&link, false, true, FILE), Ok(Clearing::Keep));
    assert_eq!(
        clear_destination(&link, false, false, FILE),
        Err(RestoreRefusal::DestinationExists("/home/u/l".into()))
    );
    // Keeping the vault copy without force refuses an existing file.
    assert_eq!(
        clear_destination(&file, true, false, FILE),
        Err(RestoreRefusal::DestinationExists("/home/u/f".into()))
    );
    // A consuming restore leaves the refusal to the rename.
    assert_eq!(clear_destination(&file, false, false, FILE), Ok(Clearing::Keep));
}

#[test]
fn restore_methods() {
    let mut link = entry(2, "l", "PRESERVED", "SYMLINK");
    link.symlink_target = Some("../target".into());
    assert!(!needs_storage(&link));
    assert_eq!(
        restore_method(&link, false, true, None),
        Ok(RestoreMethod::Symlink { target: "../target".into(), remove_first: true })
    );
    link.symlink_target = None;
    assert_eq!(
        restore_method(&link, false, false, None),
        Ok(RestoreMethod::Symlink { target: String::new(), remove_first: false })
    );

    let file = entry(1, "f", "PRESERVED", "RENAME_MOVE");
    assert!(needs_storage(&file));
    assert_eq!(
        restore_method(&file, false, false, None),
        Err(RestoreRefusal::StorageMissing("/data/.rinode-storage/f__1".into()))
    );
    assert_eq!(
        restore_method(&file, true, false, Some("/s/f".into())),
        Ok(RestoreMethod::SnapshotCopy { from: "/s/f".into(), permissions: 0o644 })
    );
    assert_eq!(
        restore_method(&file, false, false, Some("/s/f".into())),
        Ok(RestoreMethod::Rename { from: "/s/f".into(), replace: false })
    );
    assert_eq!(
        restore_method(&file, false, true, Some("/s/f".into())),
        Ok(RestoreMethod::Rename { from: "/s/f".into(), replace: true })
    );
    let mut dir = entry(3, "d", "PRESERVED", "RENAME_MOVE");
    dir.is_directory = true;
    assert_eq!(
        restore_method(&dir, true, false, Some("/s/d".into())),
        Ok(RestoreMethod::Rename { from: "/s/d".into(), replace: false })
    );
}

#[test]
fn without_force_nothing_is_overwritten() {
    let file = entry(1, "f", "PRESERVED", "RENAME_MOVE");
    let link = entry(2, "l", "PRESERVED", "SYMLINK");
    for keep in [false, true] {
        for dest in [NOTHING, FILE, DIR] {
            for e in [&file, &link] {
                match clear_destination(e, keep, false, dest) {
                    Ok(c) => assert_eq!(c, Clearing::Keep),
                    Err(r) => assert!(matches!(r, RestoreRefusal::DestinationExists(_))),
                }
            }
        }
        match restore_method(&file, keep, false, Some("/s".into())).unwrap() {
            RestoreMethod::Rename { replace, .. } => assert!(!replace),
            RestoreMethod::SnapshotCopy { .. } => assert!(keep),
            RestoreMethod::Symlink { .. } => panic!("not a link"),
        }
    }
}

#[test]
fn a_preserved_file_comes_back_where_it_was() {
    let info = rinode::inode::StatxInfo {
        dev_major: 8,
        dev_minor: 0,
        mnt_id: 9,
        ino: 1982182,
        mode: 0o100644,
        nlink: 1,
        uid: 1000,
        gid: 1000,
        size: 2516582,
        is_dir: false,
        is_symlink: false,
        is_regular: true,
    };
    let vault_path = "/home/user/.rinode-vault/report.pdf__1982182_0_1789062920171503320_cac889".to_string();
    let e = rinode::vault::vaulted_entry(
        &info,
        "/home/user/documents/report.pdf",
        "report.pdf",
        Some("0123456789abcdef".to_string()),
        vault_path.clone(),
        false,
        "2026-09-10T17:55:20+00:00".to_string(),
    );
    let rec = EntryRecord {
        id: 1,
        dev_major: e.dev_major,
        dev_minor: e.dev_minor,
        mnt_id: e.mnt_id,
        inode_no: e.inode_no,
        original_path: e.original_path.clone(),
        filename: e.filename.clone(),
        file_size: e.file_size,
        mode: e.mode,
        uid: e.uid,
        gid: e.gid,
        quick_fingerprint: e.quick_fingerprint.clone(),
        vault_path: e.vault_path.clone(),
        deleted_at: e.deleted_at.clone(),
        status: e.status.clone(),
        is_directory: e.is_directory,
        symlink_target: e.symlink_target.clone(),
        link_type: e.link_type.clone(),
        restored_at: None,
        purged_at: None,
    };
    assert_eq!(rec.link_type, "RENAME_MOVE");
    assert_eq!(rec.inode_no, 1982182);
    assert_eq!(check_restorable(&rec), Ok(()));
    assert_eq!(clear_destination(&rec, false, false, NOTHING), Ok(Clearing::Keep));
    assert_eq!(
        restore_method(&rec, false, false, Some(vault_path.clone())),
        Ok(RestoreMethod::Rename { from: vault_path.clone(), replace: false })
    );
    assert_eq!(rec.original_path, "/home/user/documents/report.pdf");
    assert_eq!(
        restore_method(&rec, true, false, Some(vault_path.clone())),
        Ok(RestoreMethod::SnapshotCopy { from: vault_path, permissions: 0o644 })
    );
}
