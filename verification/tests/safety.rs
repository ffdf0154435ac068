use rinode::ceremony::{verify_safety, SafetyFlags};
use rinode::config::Config;
use rinode::safety::{resolve_checked, PathProbe, SafetyTier, SafetyVerdict};

const CWD: &str = "/home/user/work";

fn check(path: &str, cfg: &Config) -> Result<SafetyVerdict, rinode::safety::SafetyError> {
    resolve_checked(path, CWD, &PathProbe::missing(), cfg)
}

#[test]
fn test_lexical_dot_refusal() {
    let cfg = Config::default();
    assert!(check(".", &cfg).is_err());
    assert!(check("..", &cfg).is_err());
    assert!(check("foo/.", &cfg).is_err());
    assert!(check("foo/..", &cfg).is_err());
    assert!(check("./", &cfg).is_err());
    assert!(check("../", &cfg).is_err());
    assert!(check("/.", &cfg).is_err());
    assert!(check("/./", &cfg).is_err());
}

#[test]
fn test_slash_normalization_and_root() {
    let cfg = Config::default();
    let v1 = check("/", &cfg).unwrap();
    assert_eq!(v1.tier, SafetyTier::T0Refuse);

    let v2 = check("///", &cfg).unwrap();
    assert_eq!(v2.tier, SafetyTier::T0Refuse);

    let v3 = check("//", &cfg).unwrap();
    assert_eq!(v3.tier, SafetyTier::T0Refuse);
}

#[test]
fn test_ancestor_matching_t1() {
    let cfg = Config::default();
    let v = check("/etc/nginx/sites-available/old.conf", &cfg).unwrap();
    assert_eq!(v.tier, SafetyTier::T1ProtectedRoot);

    let v_bin = check("/usr/bin/some_binary", &cfg).unwrap();
    assert_eq!(v_bin.tier, SafetyTier::T1ProtectedRoot);
}

#[test]
fn test_tmp_contents_allowed() {
    let cfg = Config::default();
    let v_tmp = check("/tmp", &cfg).unwrap();
    assert_eq!(v_tmp.tier, SafetyTier::T0Refuse);

    let v_file = check("/tmp/scratch.txt", &cfg).unwrap();
    assert_eq!(v_file.tier, SafetyTier::Standard);
}

#[test]
fn test_t2_sensitive_matching() {
    let cfg = Config::default();
    let v_env = check("/home/user/project/.env", &cfg).unwrap();
    assert_eq!(v_env.tier, SafetyTier::T2Sensitive);

    let v_key = check("/home/user/.ssh/id_ed25519", &cfg).unwrap();
    assert_eq!(v_key.tier, SafetyTier::T2Sensitive);

    let v_pem = check("/home/user/certs/cert.pem", &cfg).unwrap();
    assert_eq!(v_pem.tier, SafetyTier::T2Sensitive);
}

#[test]
fn test_t3_semi_protected() {
    let cfg = Config::default();
    let v_opt = check("/opt/my_service/config", &cfg).unwrap();
    assert_eq!(v_opt.tier, SafetyTier::T3SemiProtected);
}

#[test]
fn test_self_protection_rinode_storage_and_db() {
    let cfg = Config::default();
    let v_storage = check("/data/.rinode-storage", &cfg).unwrap();
    assert_eq!(v_storage.tier, SafetyTier::T0Refuse);

    let v_db = check("/home/user/.local/share/rinode/rinode.db", &cfg).unwrap();
    assert_eq!(v_db.tier, SafetyTier::T0Refuse);
}

#[test]
fn test_verify_safety_t0_ceremony() {
    let cfg = Config::default();
    let v_root = check("/", &cfg).unwrap();
    let verdicts = vec![v_root];

    let f_default = SafetyFlags::default();
    assert!(verify_safety(&verdicts, &f_default, &cfg, &[]).is_denied());

    let f_force = SafetyFlags { force: true, ..Default::default() };
    assert!(verify_safety(&verdicts, &f_force, &cfg, &[]).is_denied());

    let f_no_root = SafetyFlags { no_preserve_root: true, ..Default::default() };
    assert!(verify_safety(&verdicts, &f_no_root, &cfg, &[]).is_denied());

    let f_perm = SafetyFlags {
        no_preserve_root: true,
        allow_protected: true,
        force: true,
        permanent: true,
        ..Default::default()
    };
    assert!(verify_safety(&verdicts, &f_perm, &cfg, &[]).is_denied());

    let f_valid = SafetyFlags {
        no_preserve_root: true,
        allow_protected: true,
        force: true,
        permanent: false,
        ..Default::default()
    };
    assert!(verify_safety(&verdicts, &f_valid, &cfg, &[]).is_allowed());
}

#[test]
fn test_verify_safety_t1_ceremony() {
    let cfg = Config::default();
    let v_etc = check("/etc/test.conf", &cfg).unwrap();
    let verdicts = vec![v_etc];

    let f_none = SafetyFlags::default();
    assert!(verify_safety(&verdicts, &f_none, &cfg, &[]).is_denied());

    let f_perm = SafetyFlags { allow_protected: true, permanent: true, ..Default::default() };
    assert!(verify_safety(&verdicts, &f_perm, &cfg, &[]).is_denied());

    let f_ok = SafetyFlags { allow_protected: true, permanent: false, ..Default::default() };
    assert!(verify_safety(&verdicts, &f_ok, &cfg, &[]).is_allowed());
}

#[test]
fn test_verify_safety_t1_bulk() {
    let cfg = Config::default();
    let mut verdicts = Vec::new();
    for i in 0..12 {
        let v = check(&format!("/etc/conf_{}.conf", i), &cfg).unwrap();
        verdicts.push(v);
    }

    let f_allow = SafetyFlags { allow_protected: true, ..Default::default() };
    assert!(verify_safety(&verdicts, &f_allow, &cfg, &[]).is_denied());

    let f_bulk_ok = SafetyFlags { allow_protected: true, force: true, ..Default::default() };
    assert!(verify_safety(&verdicts, &f_bulk_ok, &cfg, &[]).is_allowed());
}

#[test]
fn test_verify_safety_t2_sensitive() {
    let cfg = Config::default();
    let v_key = check("/home/user/.ssh/id_ed25519", &cfg).unwrap();
    let verdicts = vec![v_key];

    let f_none = SafetyFlags::default();
    assert!(verify_safety(&verdicts, &f_none, &cfg, &[]).is_denied());

    let f_force = SafetyFlags { force: true, ..Default::default() };
    assert!(verify_safety(&verdicts, &f_force, &cfg, &[]).is_allowed());

    let f_perm = SafetyFlags { force: true, permanent: true, ..Default::default() };
    assert!(verify_safety(&verdicts, &f_perm, &cfg, &[]).is_allowed());
}
