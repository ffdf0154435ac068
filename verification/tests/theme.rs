use rinode::theme::{get_theme, theme_index, themes, THEME_COUNT};

#[test]
fn test_all_themes_lookup() {
    let all = themes();
    assert_eq!(all.len(), 12);
    for theme in &all {
        assert_eq!(get_theme(theme.id).id, theme.id);
        assert_eq!(get_theme(theme.name).id, theme.id);
    }
    assert_eq!(get_theme("unknown_theme").id, "default");
}

#[test]
fn theme_lookup_ignores_case() {
    assert_eq!(theme_index("DRACULA"), 3);
    assert_eq!(theme_index("Tokyo Night"), 5);
    assert_eq!(theme_index("tokyo night"), 5);
    assert_eq!(theme_index("ROSÉ PINE"), 7);
    assert_eq!(theme_index(""), 0);
    assert_eq!(THEME_COUNT, 12);
}

#[test]
fn every_theme_is_found_in_any_case() {
    for (k, theme) in themes().iter().enumerate() {
        assert_eq!(theme_index(theme.id), k);
        assert_eq!(theme_index(theme.name), k);
        assert_eq!(theme_index(&theme.name.to_uppercase()), k);
        assert_eq!(theme_index(&theme.id.to_uppercase()), k);
    }
    assert_eq!(theme_index("unknown_theme"), 0);
}
