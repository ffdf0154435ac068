use rinode::config::{glob_to_regex, Config, ConfigRaw, ExclusionKind, ExclusionsConfig, StorageConfig};

#[test]
fn default_configuration() {
    let c = Config::default();
    assert_eq!(c.storage.retention_days, 14);
    assert_eq!(c.storage.max_vault_size_gb, 20);
    assert_eq!(c.storage.max_hash_file_size_mb, 50);
    assert_eq!(c.exclusions.system_paths, vec!["/proc", "/sys", "/dev", "/run", "/tmp"]);
    assert_eq!(c.exclusions.path_regex.len(), 6);
    assert_eq!(c.exclusions.filename_regex.len(), 4);
    assert_eq!(c.safety.bulk_count, 10);
    assert!(c.safety.extra_protected.is_empty());
    assert_eq!(c.theme, None);
}

#[test]
fn globs_become_anchored_regexes() {
    assert_eq!(glob_to_regex("*.log"), "^.*\\.log$");
    assert_eq!(glob_to_regex("test??.tmp"), "^test..\\.tmp$");
    assert_eq!(glob_to_regex("a+(b)[c]{d}^$|\\"), "^a\\+\\(b\\)\\[c\\]\\{d\\}\\^\\$\\|\\\\$");
    assert_eq!(Config::glob_to_regex(""), "^$");
}

#[test]
fn input_classification() {
    assert_eq!(Config::classify_input("/var/log/"), (ExclusionKind::SystemPath, "/var/log".to_string()));
    assert_eq!(Config::classify_input("  /data  "), (ExclusionKind::SystemPath, "/data".to_string()));
    assert_eq!(Config::classify_input("node_modules/*"), (ExclusionKind::PathRegex, "^.*node_modules/.*$".to_string()));
    assert_eq!(Config::classify_input("*/dist/*"), (ExclusionKind::PathRegex, "^.*/dist/.*$".to_string()));
    assert_eq!(Config::classify_input("*.log"), (ExclusionKind::FilenameRegex, "^.*\\.log$".to_string()));
    assert_eq!(Config::classify_input("build"), (ExclusionKind::PathRegex, ".*/build/.*".to_string()));
    assert_eq!(Config::classify_input("my-dir"), (ExclusionKind::PathRegex, ".*/my\\-dir/.*".to_string()));
    assert_eq!(Config::classify_input("notes.txt"), (ExclusionKind::FilenameRegex, "^notes\\.txt$".to_string()));
}

#[test]
fn path_tests() {
    let c = Config::default();
    assert_eq!(c.test_path("/proc/1/status", "status"), Some("system_paths prefix '/proc'".to_string()));
    assert_eq!(
        c.test_path("/home/u/p/node_modules/x/index.js", "index.js"),
        Some("path_regex rule '.*/node_modules/.*'".to_string())
    );
    // The .git pattern does not compile (look-around) and is skipped; the
    // rule that matched is still the one reported.
    assert_eq!(
        c.test_path("/home/u/p/target/debug/app", "app"),
        Some("path_regex rule '.*/target/(debug|release)/.*'".to_string())
    );
    assert_eq!(c.test_path("/home/u/.x.swp", ".x.swp"), Some("filename_regex rule '^\\..*\\.swp$'".to_string()));
    assert_eq!(c.test_path("/home/u/core.123", "core.123"), Some("filename_regex rule '^core(\\.\\d+)?$'".to_string()));
    assert_eq!(c.test_path("/home/u/notes.txt", "notes.txt"), None);
    assert!(c.is_excluded("/tmp/x", "x"));
    assert!(!c.is_excluded("/home/u/notes.txt", "notes.txt"));
}

#[test]
fn adding_and_removing_rules() {
    let mut c = Config::default();
    assert_eq!(c.add_rule(ExclusionKind::FilenameRegex, "^.*\\.bak$".into()), Ok(()));
    assert!(c.is_excluded("/home/u/a.bak", "a.bak"));
    assert_eq!(c.add_rule(ExclusionKind::FilenameRegex, "^.*\\.bak$".into()), Ok(()));
    assert_eq!(c.exclusions.filename_regex.iter().filter(|r| r.as_str() == "^.*\\.bak$").count(), 1);
    let err = c.add_rule(ExclusionKind::PathRegex, "(".into()).unwrap_err();
    assert!(err.starts_with("Invalid regex '(': "));
    assert_eq!(c.add_rule(ExclusionKind::SystemPath, "/srv/cache".into()), Ok(()));
    assert!(c.is_excluded("/srv/cache/a", "a"));

    // A rule typed the same way it was added can be removed again.
    assert!(c.remove_rule("*.bak") || c.remove_rule("^.*\\.bak$"));
    assert!(!c.is_excluded("/home/u/a.bak", "a.bak"));
    assert!(c.remove_rule("/srv/cache"));
    assert!(!c.is_excluded("/srv/cache/a", "a"));
    assert!(c.remove_rule("pycache"));
    assert!(!c.remove_rule("nothing-like-this"));
}

#[test]
fn raw_configuration_replaces_defaults() {
    let raw = ConfigRaw {
        storage: Some(StorageConfig { retention_days: 3, max_vault_size_gb: 1, max_hash_file_size_mb: 2 }),
        exclusions: Some(ExclusionsConfig { system_paths: vec![], path_regex: vec![], filename_regex: vec!["^x$".into()] }),
    };
    let c = Config::from_raw(raw);
    assert_eq!(c.storage.retention_days, 3);
    assert!(c.is_excluded("/a/x", "x"));
    assert!(!c.is_excluded("/proc/1", "1"));
    let c2 = Config::from_raw(ConfigRaw { storage: None, exclusions: None });
    assert_eq!(c2.storage.retention_days, 14);
    assert!(c2.is_excluded("/proc/1", "1"));
}

#[test]
fn adding_then_removing_a_typed_rule_restores_the_lists() {
    for typed in ["*.log", "dist/*", "vendor", "/var/cache", "notes.txt"] {
        let mut c = Config::default();
        let before = c.exclusions.clone();
        let (kind, rule) = Config::classify_input(typed);
        c.add_rule(kind, rule).unwrap();
        assert!(c.remove_rule(typed));
        assert_eq!(c.exclusions.system_paths, before.system_paths);
        assert_eq!(c.exclusions.path_regex, before.path_regex);
        assert_eq!(c.exclusions.filename_regex, before.filename_regex);
    }
}
