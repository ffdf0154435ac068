use rinode::dashboard::{
    entry_kind, history_event, history_time, history_time_column, vault_display, ActivePane, Command, Dashboard, Key,
    Reloaded, ViewMode,
};
use rinode::records::EntryRecord;

fn entry(id: i64, name: &str, status: &str) -> EntryRecord {
    EntryRecord {
        id,
        dev_major: 8,
        dev_minor: 1,
        mnt_id: 42,
        inode_no: 500 + id as u64,
        original_path: format!("/home/u/{}", name),
        filename: name.to_string(),
        file_size: 10,
        mode: 0o100644,
        uid: 1000,
        gid: 1000,
        quick_fingerprint: None,
        vault_path: format!("/v/{}", name),
        deleted_at: "2024-01-02T03:04:05+00:00".to_string(),
        status: status.to_string(),
        is_directory: false,
        symlink_target: None,
        link_type: "RENAME_MOVE".to_string(),
        restored_at: None,
        purged_at: None,
    }
}

fn ch(c: char) -> Key {
    Key::Char { c, ctrl: false }
}

fn three() -> Dashboard {
    Dashboard::new(
        vec![entry(3, "c", "PRESERVED"), entry(2, "b", "PRESERVED"), entry(1, "a", "PRESERVED")],
        vec![entry(9, "old", "RESTORED")],
        0,
        5,
    )
}

#[test]
fn starts_on_the_first_rows() {
    let d = three();
    assert_eq!(d.selected, Some(0));
    assert_eq!(d.history_selected, Some(0));
    assert_eq!(d.pane, ActivePane::Preserved);
    assert_eq!(d.mode, ViewMode::Browsing);
    let e = Dashboard::new(vec![], vec![], 0, 0);
    assert_eq!(e.selected, None);
    assert_eq!(e.history_selected, None);
}

#[test]
fn cursor_moves_within_the_list() {
    let mut d = three();
    for _ in 0..5 {
        assert_eq!(d.handle_key(Key::Down), Command::Stay);
    }
    assert_eq!(d.selected, Some(2));
    d.handle_key(ch('k'));
    assert_eq!(d.selected, Some(1));
    d.handle_key(Key::Up);
    d.handle_key(Key::Up);
    assert_eq!(d.selected, Some(0));
}

#[test]
fn switching_panes() {
    let mut d = three();
    d.handle_key(Key::Tab);
    assert_eq!(d.pane, ActivePane::History);
    d.handle_key(ch('l'));
    assert_eq!(d.pane, ActivePane::History);
    d.handle_key(Key::Left);
    assert_eq!(d.pane, ActivePane::Preserved);
    let mut e = Dashboard::new(vec![entry(1, "a", "PRESERVED")], vec![], 0, 0);
    e.handle_key(Key::Right);
    assert_eq!(e.pane, ActivePane::Preserved);
    assert_eq!(e.status.as_deref(), Some("No records in history yet"));
}

#[test]
fn theme_cycles_through_all_themes() {
    let mut d = three();
    assert_eq!(d.handle_key(ch('t')), Command::SaveTheme(1));
    assert_eq!(d.status.as_deref(), Some("Switched theme to Catppuccin Mocha"));
    for _ in 0..11 {
        d.handle_key(ch('t'));
    }
    assert_eq!(d.theme, 0);
    assert_eq!(d.status.as_deref(), Some("Switched theme to Default"));
}

#[test]
fn quit_only_while_browsing() {
    let mut d = three();
    d.handle_key(Key::Enter);
    assert_eq!(d.mode, ViewMode::ActionMenu);
    assert_eq!(d.handle_key(ch('q')), Command::Stay);
    assert_eq!(d.mode, ViewMode::Browsing);
    d.handle_key(ch('e'));
    assert_eq!(d.mode, ViewMode::ExclusionModal);
    d.handle_key(ch('e'));
    assert_eq!(d.mode, ViewMode::Browsing);
    assert_eq!(d.handle_key(ch('q')), Command::Quit);
}

#[test]
fn menu_cursor_stays_on_the_menu() {
    let mut d = three();
    d.handle_key(Key::Enter);
    for _ in 0..7 {
        d.handle_key(ch('j'));
    }
    assert_eq!(d.action, 4);
    d.handle_key(Key::Up);
    assert_eq!(d.action, 3);
    assert_eq!(d.handle_key(ch('5')), Command::Stay);
    assert_eq!(d.status.as_deref(), Some("Path: /home/u/c"));
    assert_eq!(d.mode, ViewMode::Browsing);
    d.handle_key(Key::Enter);
    assert_eq!(d.handle_key(ch('3')), Command::Stay);
    assert_eq!(d.mode, ViewMode::InspectModal);
    d.handle_key(Key::Esc);
    assert_eq!(d.mode, ViewMode::Browsing);
}

#[test]
fn restore_from_the_menu() {
    let mut d = three();
    d.handle_key(Key::Down);
    d.handle_key(Key::Enter);
    let cmd = d.handle_key(ch('1'));
    assert_eq!(cmd, Command::Restore { index: 1, keep_vault: false, from_menu: true });
    let reload = Reloaded {
        preserved: vec![entry(3, "c", "PRESERVED"), entry(1, "a", "PRESERVED")],
        history: vec![entry(2, "b", "RESTORED"), entry(9, "old", "RESTORED")],
        version: Some(99),
    };
    d.complete(cmd, None, Some(reload));
    assert_eq!(d.status.as_deref(), Some("Restored 'b' (consumed from vault)"));
    assert_eq!(d.mode, ViewMode::Browsing);
    assert_eq!(d.preserved.len(), 2);
    assert_eq!(d.history.len(), 2);
    assert_eq!(d.selected, Some(1));
    assert_eq!(d.data_version, 5);
}

#[test]
fn keeping_the_vault_copy_changes_no_list() {
    let mut d = three();
    d.handle_key(Key::Enter);
    let cmd = d.handle_key(ch('2'));
    assert_eq!(cmd, Command::Restore { index: 0, keep_vault: true, from_menu: true });
    d.complete(cmd, None, None);
    assert_eq!(d.status.as_deref(), Some("Restored 'c' (vault copy kept)"));
    assert_eq!(d.preserved.len(), 3);
}

#[test]
fn quick_restore_and_purge() {
    let mut d = three();
    d.handle_key(Key::Down);
    d.handle_key(Key::Down);
    let cmd = d.handle_key(ch('r'));
    assert_eq!(cmd, Command::Restore { index: 2, keep_vault: false, from_menu: false });
    d.complete(cmd, Some("Destination '/home/u/a' already exists. Use --force to overwrite.".into()), None);
    assert_eq!(
        d.status.as_deref(),
        Some("Restore error: Destination '/home/u/a' already exists. Use --force to overwrite.")
    );
    let cmd = d.handle_key(ch('x'));
    assert_eq!(cmd, Command::Purge { index: 2, from_menu: false });
    let reload = Reloaded {
        preserved: vec![entry(3, "c", "PRESERVED"), entry(2, "b", "PRESERVED")],
        history: vec![entry(1, "a", "PURGED")],
        version: Some(6),
    };
    d.complete(cmd, None, Some(reload));
    assert_eq!(d.status.as_deref(), Some("Purged 'a'"));
    assert_eq!(d.selected, Some(1));
    assert_eq!(d.data_version, 6);
    // Control-r asks for a reload instead of a restore.
    assert_eq!(d.handle_key(Key::Char { c: 'r', ctrl: true }), Command::Stay);
    assert_eq!(d.data_version, -1);
    assert_eq!(d.status.as_deref(), Some("Refreshed"));
}

#[test]
fn refresh_keeps_the_selected_entry() {
    let mut d = three();
    d.handle_key(Key::Down);
    assert_eq!(d.preserved[1].id, 2);
    let current = d.observed_version(None);
    assert!(!d.needs_refresh(current));
    let current = d.observed_version(Some(8));
    assert!(d.needs_refresh(current));
    d.refresh(
        current,
        Some(vec![entry(4, "d", "PRESERVED"), entry(3, "c", "PRESERVED"), entry(2, "b", "PRESERVED")]),
        None,
    );
    assert_eq!(d.selected, Some(2));
    assert_eq!(d.preserved[2].id, 2);
    assert_eq!(d.data_version, 8);
    // The selected entry gone: the position is kept within the list.
    d.refresh(9, Some(vec![entry(4, "d", "PRESERVED")]), Some(vec![]));
    assert_eq!(d.selected, Some(0));
    assert_eq!(d.history_selected, None);
}

#[test]
fn emptied_list_closes_the_menu() {
    let mut d = three();
    d.handle_key(Key::Enter);
    assert_eq!(d.mode, ViewMode::ActionMenu);
    d.refresh(6, Some(vec![]), None);
    assert_eq!(d.mode, ViewMode::Browsing);
    assert_eq!(d.selected, None);
    assert_eq!(d.handle_key(ch('r')), Command::Stay);
}

#[test]
fn details_of_an_entry() {
    let mut e = entry(1, "a", "RESTORED");
    assert_eq!(entry_kind(&e), "FILE");
    assert_eq!(history_event("RESTORED"), Some("RESTORED"));
    assert_eq!(history_event("PRESERVED"), None);
    assert_eq!(history_time(&e), "2024-01-02T03:04:05+00:00");
    e.restored_at = Some("2024-02-01T00:00:00+00:00".into());
    assert_eq!(history_time(&e), "2024-02-01T00:00:00+00:00");
    e.status = "EXCLUDED".into();
    assert_eq!(history_time(&e), "2024-01-02T03:04:05+00:00");
    assert_eq!(vault_display(&e), "(none - excluded by rule)");
    e.status = "PURGED".into();
    e.purged_at = Some("P".into());
    assert_eq!(history_time(&e), "P");
    assert_eq!(vault_display(&e), "/v/a");
    e.link_type = "SYMLINK".into();
    assert_eq!(entry_kind(&e), "SYMLINK");
    e.is_directory = true;
    assert_eq!(entry_kind(&e), "DIR");
    assert_eq!(history_time_column(46), ("%m-%d %H:%M", 11));
    assert_eq!(history_time_column(45), ("%H:%M", 5));
}
