use rinode::display::{display_path_from, format_display_name, format_display_path};

#[test]
fn test_format_display_name_short() {
    assert_eq!(format_display_name("file.txt", 20), "file.txt");
    assert_eq!(format_display_name("exact_length.txt", 16), "exact_length.txt");
}

#[test]
fn test_format_display_name_with_extension() {
    let long_name = "sample_very_long_document_title_for_testing.docx";
    let formatted = format_display_name(long_name, 26);
    assert_eq!(formatted, "sample_very_long_do...docx");
    assert_eq!(formatted.chars().count(), 26);
    assert!(formatted.ends_with(".docx"));
}

#[test]
fn test_format_display_name_no_extension() {
    let long_dir = "very_long_directory_name_without_extension";
    let formatted = format_display_name(long_dir, 20);
    assert_eq!(formatted, "very_long_directo...");
    assert_eq!(formatted.chars().count(), 20);
}

#[test]
fn test_format_display_name_hidden_file() {
    let swp = ".sample_notes_file_data.txt.swp";
    let formatted = format_display_name(swp, 20);
    assert_eq!(formatted, ".sample_notes_...swp");
    assert_eq!(formatted.chars().count(), 20);
}

#[test]
fn display_name_long_extension_is_cut_plainly() {
    // An extension longer than six characters is not kept.
    assert_eq!(format_display_name("archive_of_things.extension", 12), "archive_o...");
}

#[test]
fn display_name_counts_characters_not_bytes() {
    assert_eq!(format_display_name("ééééé", 5), "ééééé");
}

#[test]
fn display_path_under_home_uses_tilde() {
    assert_eq!(display_path_from("/home/user/docs/report.txt", Some("/home/user"), 2), "~/docs");
    assert_eq!(display_path_from("/home/user/report.txt", Some("/home/user"), 2), "~");
    assert_eq!(display_path_from("/home/user", Some("/home/user"), 2), "~");
}

#[test]
fn display_path_outside_home() {
    assert_eq!(display_path_from("/var/log/app/x.log", Some("/home/user"), 2), "/var/log/...");
    assert_eq!(display_path_from("/var/log/app/x.log", Some("/home/user"), 3), "/var/log/app");
    assert_eq!(display_path_from("/x.log", None, 2), "/");
    assert_eq!(display_path_from("/", None, 2), "/");
}

#[test]
fn display_path_for_the_current_user() {
    // Outside the home directory the path is shown from the root; inside it
    // (only when home is the root itself) from the tilde.
    let r = format_display_path("/var/log/app/x.log", 2);
    assert!(r == "/var/log/..." || r == "~/var/log/...", "{}", r);
    let r = format_display_path("/x.log", 2);
    assert!(r == "/" || r == "~", "{}", r);
}
