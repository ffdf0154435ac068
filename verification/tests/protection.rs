use rinode::ceremony::{verify_safety, AuditResult, SafetyDenial, SafetyFlags, SafetyPrompt, SafetyStatus};
use rinode::config::Config;
use rinode::inode::{statx_info, StatxInfo};
use rinode::notices::{denial_text, prompt_text};
use rinode::safety::{resolve_checked, PathProbe, SafetyTier};

fn stat(mnt_id: u64) -> StatxInfo {
    statx_info(8, 1, mnt_id, 99, 0o040755, 2, 0, 0, 4096)
}

#[test]
fn a_link_is_as_protected_as_its_target() {
    let cfg = Config::default();
    let probe = PathProbe {
        is_symlink: true,
        link_target: Some("../../etc/passwd".into()),
        stat: None,
        parent_mnt_id: None,
        canonical: None,
    };
    let v = resolve_checked("/home/user/link", "/", &probe, &cfg).unwrap();
    assert_eq!(v.tier, SafetyTier::T1ProtectedRoot);
    let probe = PathProbe { link_target: Some("/proc/self".into()), ..probe };
    assert_eq!(resolve_checked("/home/user/link", "/", &probe, &cfg).unwrap().tier, SafetyTier::T0Refuse);
}

#[test]
fn a_mount_root_is_protected() {
    let cfg = Config::default();
    let probe = PathProbe { is_symlink: false, link_target: None, stat: Some(stat(7)), parent_mnt_id: Some(3), canonical: None };
    let v = resolve_checked("/mnt/data", "/", &probe, &cfg).unwrap();
    assert!(v.is_mount_root);
    assert_eq!(v.tier, SafetyTier::T1ProtectedRoot);
    let same = PathProbe { parent_mnt_id: Some(7), ..probe };
    let v = resolve_checked("/mnt/data", "/", &same, &cfg).unwrap();
    assert!(!v.is_mount_root);
    assert_eq!(v.tier, SafetyTier::Standard);
    assert!(v.is_dir);
}

#[test]
fn extra_protected_paths_count_as_protected_roots() {
    let mut cfg = Config::default();
    cfg.safety.extra_protected.push("/data/critical".into());
    let v = resolve_checked("/data/critical/db", "/", &PathProbe::missing(), &cfg).unwrap();
    assert_eq!(v.tier, SafetyTier::T1ProtectedRoot);
    let v = resolve_checked("/data/criticality", "/", &PathProbe::missing(), &cfg).unwrap();
    assert_eq!(v.tier, SafetyTier::Standard);
}

#[test]
fn questions_and_refusals_name_the_batch() {
    let cfg = Config::default();
    let v = vec![
        resolve_checked("/home/user/notes.txt", "/", &PathProbe::missing(), &cfg).unwrap(),
        resolve_checked("/home/user/.ssh/id_rsa", "/", &PathProbe::missing(), &cfg).unwrap(),
    ];
    let quiet = SafetyFlags::default();
    let r = verify_safety(&v, &quiet, &cfg, &[]);
    assert_eq!(r.status, SafetyStatus::Denied(SafetyDenial::T2NonInteractive { item: 1 }));
    assert_eq!(r.audits.len(), 1);
    assert_eq!(r.audits[0].result, AuditResult::DeniedT2NonTty);
    if let SafetyStatus::Denied(d) = r.status {
        assert!(denial_text(d, &v).contains("/home/user/.ssh/id_rsa"));
    }

    let asking = SafetyFlags { is_interactive: true, permanent: true, ..Default::default() };
    let r = verify_safety(&v, &asking, &cfg, &[]);
    assert_eq!(r.status, SafetyStatus::Ask(SafetyPrompt::T2 { item: 1, permanent: true }));
    if let SafetyStatus::Ask(p) = r.status {
        assert!(prompt_text(p, &v).contains("Permanently delete from disk?"));
    }
    let r = verify_safety(&v, &asking, &cfg, &[true]);
    assert_eq!(r.status, SafetyStatus::Allowed);
    let r = verify_safety(&v, &asking, &cfg, &[false]);
    assert_eq!(r.status, SafetyStatus::Denied(SafetyDenial::Cancelled));
}
