use neptunium::format_timestamp;
use neptunium::get_file_extension;
use neptunium::is_anonymous_upload;
use neptunium::log_error_line;
use neptunium::log_info_line;
use neptunium::sanitize_filename;

#[test]
fn sanitize_replaces_unsafe_characters() {
    assert_eq!(sanitize_filename("a/b\\c:d*e?f\"g<h>i|j.txt"), "a_b_c_d_e_f_g_h_i_j.txt");
}

#[test]
fn sanitize_replaces_control_characters() {
    assert_eq!(sanitize_filename("a\nb\tc\u{1}d"), "a_b_c_d");
}

#[test]
fn sanitize_keeps_ordinary_names() {
    assert_eq!(sanitize_filename("My Castle v2.litematic"), "My Castle v2.litematic");
}

#[test]
fn sanitize_replaces_empty_name() {
    assert_eq!(sanitize_filename(""), "unnamed_file");
}

#[test]
fn sanitize_cuts_long_names_to_255_bytes() {
    let long = "a".repeat(300);
    let cut = sanitize_filename(&long);
    assert_eq!(cut.len(), 255);
    assert!(cut.chars().all(|c| c == 'a'));
}

#[test]
fn sanitize_cuts_at_character_boundary() {
    let long = "\u{e9}".repeat(130);
    let cut = sanitize_filename(&long);
    assert_eq!(cut.chars().count(), 127);
    assert_eq!(cut.len(), 254);
}

#[test]
fn extension_is_lowercased_suffix_from_last_dot() {
    assert_eq!(get_file_extension("Castle.LiteMatic"), ".litematic");
    assert_eq!(get_file_extension("archive.tar.gz"), ".gz");
    assert_eq!(get_file_extension("noextension"), "");
    assert_eq!(get_file_extension("trailing."), ".");
}

#[test]
fn timestamp_formatting_returns_input() {
    assert_eq!(format_timestamp("2024-01-02T03:04:05+00:00"), "2024-01-02T03:04:05+00:00");
}

#[test]
fn anonymous_upload_means_no_user() {
    assert!(is_anonymous_upload(None));
    assert!(!is_anonymous_upload(Some("user-1".to_string())));
}

#[test]
fn allowed_extension_check_expects_lowercased_input() {
    assert!(neptunium::has_allowed_extension("castle.litematic"));
    assert!(neptunium::has_allowed_extension("a.nbt"));
    assert!(!neptunium::has_allowed_extension("castle.LITEMATIC"));
    assert!(!neptunium::has_allowed_extension("castle.txt"));
    assert!(!neptunium::has_allowed_extension(""));
}

#[test]
fn log_lines_carry_level_prefixes() {
    assert_eq!(log_info_line("module ready"), "[INFO] module ready");
    assert_eq!(log_error_line("boom"), "[ERROR] boom");
}
