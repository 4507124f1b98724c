use novus_writer::file_utils::{get_extension, sanitize_filename};

#[test]
fn test_sanitize_filename() {
    assert_eq!(sanitize_filename("Hello World!"), "Hello_World_");
    assert_eq!(sanitize_filename("test-file.txt"), "test-file.txt");
    assert_eq!(sanitize_filename("doc<>name"), "doc__name");
}

#[test]
fn test_get_extension() {
    let path = "/home/user/document.txt";
    assert_eq!(get_extension(path), Some("txt".to_string()));

    let path_no_ext = "/home/user/document";
    assert_eq!(get_extension(path_no_ext), None);
}

#[test]
fn sanitize_is_idempotent_and_keeps_length() {
    let once = sanitize_filename("résumé 2024/v1?.pdf");
    assert_eq!(once, "r_sum__2024_v1_.pdf");
    assert_eq!(sanitize_filename(&once), once);
    assert_eq!(once.chars().count(), "résumé 2024/v1?.pdf".chars().count());
}

#[test]
fn extension_edge_cases() {
    assert_eq!(get_extension("archive.tar.gz"), Some("gz".to_string()));
    assert_eq!(get_extension(".bashrc"), None);
    assert_eq!(get_extension("notes."), Some(String::new()));
    assert_eq!(get_extension(""), None);
}

#[test]
fn extension_after_last_dot_of_simple_paths() {
    assert_eq!(get_extension("notes/a.b.md"), Some("md".to_string()));
    assert_eq!(get_extension("dir/..cfg"), Some("cfg".to_string()));
    assert_eq!(get_extension("plain.txt"), Some("txt".to_string()));
}
