use rinode::init::{detect_shell, generate_init};

#[test]
fn shells_are_detected_from_the_variable() {
    assert_eq!(detect_shell(Some("/usr/bin/fish")), Some("fish".to_string()));
    assert_eq!(detect_shell(Some("/bin/bash")), Some("bash".to_string()));
    assert_eq!(detect_shell(Some("zsh")), Some("zsh".to_string()));
    assert_eq!(detect_shell(Some("/bin/tcsh")), None);
    assert_eq!(detect_shell(None), None);
}

#[test]
fn bash_script_with_alias() {
    let s = generate_init(Some("bash"), None, "r", true).unwrap();
    assert!(s.starts_with("# rinode shell integration for bash\n# To enable, add this line to ~/.bashrc:\n#   eval \"$(rinode init bash)\"\n\n"));
    assert!(s.contains("r() {\nif [ $# -eq 0 ]; then\nrinode tui\nelif [ \"$1\" = \"ls\" ]; then\nrinode ls \"${@:2}\"\n"));
    assert!(s.contains("complete -F _rinode r 2>/dev/null || true\n"));
    assert!(s.ends_with("\nalias rm=\"rinode rm\"\n"));
}

#[test]
fn alias_can_be_switched_off() {
    let plain = generate_init(Some("ZSH"), None, " none ", false).unwrap();
    assert_eq!(plain, "# rinode shell integration for zsh\n# To enable, add this line to ~/.zshrc:\n#   eval \"$(rinode init zsh)\"\n\n");
    let fish = generate_init(None, Some("fish".into()), "False", false).unwrap();
    assert_eq!(fish, "# rinode shell integration for fish\n# To enable, add this line to ~/.config/fish/config.fish:\n#   rinode init fish | source\n\n");
}

#[test]
fn unknown_or_missing_shells_are_errors() {
    let e = generate_init(Some("tcsh"), None, "r", false).unwrap_err();
    assert!(e.starts_with("Unsupported shell 'tcsh'. Supported shells: fish, bash, zsh\n\nSetup instructions:\n"));
    let e = generate_init(None, None, "r", false).unwrap_err();
    assert!(e.starts_with("Could not auto-detect shell from $SHELL environment variable.\n"));
}
