use rinode::ceremony::{AuditResult, SafetyDenial, SafetyFlags, SafetyPrompt};
use rinode::config::Config;
use rinode::notices::{answer_is_yes, audit_record, denial_text, flags_text, prompt_text, ProcessContext};
use rinode::safety::{resolve_checked, PathProbe, SafetyVerdict};

fn verdicts() -> Vec<SafetyVerdict> {
    let cfg = Config::default();
    vec![
        resolve_checked("/etc/test.conf", "/", &PathProbe::missing(), &cfg).unwrap(),
        resolve_checked("/home/user/.ssh/id_ed25519", "/", &PathProbe::missing(), &cfg).unwrap(),
    ]
}

#[test]
fn prompts() {
    let v = verdicts();
    assert_eq!(
        prompt_text(SafetyPrompt::T1 { item: 0 }, &v),
        "rinode: '/etc/test.conf' is a T1 protected path. Move to storage? [y/N]: "
    );
    assert_eq!(
        prompt_text(SafetyPrompt::T2 { item: 1, permanent: true }, &v),
        "rinode: WARNING: '/home/user/.ssh/id_ed25519' contains sensitive credentials. Permanently delete from disk? [y/N]: "
    );
    assert_eq!(
        prompt_text(SafetyPrompt::T2 { item: 1, permanent: false }, &v),
        "rinode: WARNING: '/home/user/.ssh/id_ed25519' contains sensitive credentials. Move to storage (will remain in vault until purged)? [y/N]: "
    );
    assert_eq!(
        prompt_text(SafetyPrompt::T3 { item: 0 }, &v),
        "rinode: '/etc/test.conf' is in a T3 semi-protected path (/opt or /srv). Move to storage? [y/N]: "
    );
    assert_eq!(
        prompt_text(SafetyPrompt::T1Bulk { count: 12, total_size: 1610612736 }, &v),
        "rinode: T1 bulk operation detected (12 protected items, 1.5 GiB). Move to storage? [y/N]: "
    );
}

#[test]
fn answers() {
    for yes in ["y", "Y", "yes", " YES \n", "\tYes\r\n"] {
        assert!(answer_is_yes(yes), "{:?}", yes);
    }
    for no in ["", "n", "no", "ye", "yess", "y y", "\n"] {
        assert!(!answer_is_yes(no), "{:?}", no);
    }
}

#[test]
fn denials() {
    let v = verdicts();
    assert_eq!(
        denial_text(SafetyDenial::PermanentOnT0 { item: 0 }, &v),
        "refusing to permanently delete T0 protected path '/etc/test.conf' (vaulting required, --no-storage is not permitted)"
    );
    assert_eq!(
        denial_text(SafetyDenial::MissingT0Flags { item: 0 }, &v),
        "refusing to remove T0 protected path '/etc/test.conf'. Overriding requires: --no-preserve-root --allow-protected --force"
    );
    assert_eq!(denial_text(SafetyDenial::Cancelled, &v), "operation cancelled by user");
    assert_eq!(
        denial_text(SafetyDenial::T1BulkNonInteractive, &v),
        "refusing bulk deletion of T1 protected items in non-interactive session. Requires: --allow-protected --force"
    );
    assert_eq!(
        denial_text(SafetyDenial::T1NonInteractive { item: 0 }, &v),
        "refusing to remove T1 protected path '/etc/test.conf' in non-interactive session. Use --allow-protected to proceed"
    );
    assert_eq!(
        denial_text(SafetyDenial::T2NonInteractive { item: 1 }, &v),
        "refusing to remove T2 sensitive path '/home/user/.ssh/id_ed25519' without confirmation. Use -f / --force to confirm in scripts"
    );
    assert_eq!(
        denial_text(SafetyDenial::T3NonInteractive { item: 0 }, &v),
        "refusing to remove T3 semi-protected path '/etc/test.conf' in non-interactive session. Use -f / --force or --allow-protected"
    );
    assert_eq!(
        denial_text(SafetyDenial::PermanentOnT1 { item: 0 }, &v),
        "refusing to permanently delete T1 protected path '/etc/test.conf' (vaulting required, --no-storage is not permitted)"
    );
}

#[test]
fn audit_records() {
    assert_eq!(flags_text(&SafetyFlags::default()), "");
    let all = SafetyFlags { allow_protected: true, no_preserve_root: true, force: true, permanent: true, ..Default::default() };
    assert_eq!(flags_text(&all), "--allow-protected --no-preserve-root -f/--force -p/--permanent");
    let some = SafetyFlags { force: true, permanent: true, ..Default::default() };
    assert_eq!(flags_text(&some), "-f/--force -p/--permanent");

    let v = verdicts();
    let ctx = ProcessContext { timestamp: "2024".into(), uid: 1, euid: 0, pid: 10, ppid: 9, cwd: "/w".into() };
    let r = audit_record(&v[0], &some, AuditResult::AllowedT1Flag, ctx);
    assert_eq!(r.canonical_path, "/etc/test.conf");
    assert_eq!(r.tier, "T1 (PROTECTED ROOT)");
    assert_eq!(r.flags, "-f/--force -p/--permanent");
    assert_eq!(r.result, "ALLOWED_T1_FLAG");
    assert_eq!((r.uid, r.euid, r.pid, r.ppid), (1, 0, 10, 9));
    assert_eq!(r.cwd, "/w");
    assert_eq!(r.timestamp, "2024");
}
