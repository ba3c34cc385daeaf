use neptunium::generate_storage_path;
use neptunium::get_mime_type;
use neptunium::matches_file_filter;
use neptunium::prepare_file_upload;
use neptunium::validate_file_upload;
use neptunium::FileFilter;
use neptunium::FileMetadata;
use neptunium::FileStats;
use neptunium::FileUploadResult;
use neptunium::ProjectionFile;

fn sample_metadata(filename: &str, size: i64) -> FileMetadata {
    FileMetadata::new(
        filename.to_string(),
        size,
        "litematic".to_string(),
        "application/octet-stream".to_string(),
        None,
    )
}

fn sample_file(filename: &str, file_type: &str, size: i64) -> ProjectionFile {
    ProjectionFile {
        id: "p-1".to_string(),
        file_id: "123456".to_string(),
        user_id: None,
        filename: filename.to_string(),
        file_size: size,
        file_type: file_type.to_string(),
        storage_path: "projections/12/123456".to_string(),
        upload_ip: "1.2.3.4".to_string(),
        created_at: "t".to_string(),
    }
}

#[test]
fn upload_validation_passes_a_clean_upload() {
    let r = validate_file_upload(&sample_metadata("castle.litematic", 1000));
    assert!(r.is_valid());
    assert_eq!(r.message(), "Valid file upload");
}

#[test]
fn upload_validation_requires_a_filename() {
    let r = validate_file_upload(&sample_metadata("", 1000));
    assert!(!r.is_valid());
    assert_eq!(r.message(), "Filename is required");
}

#[test]
fn upload_validation_rejects_bad_extension_then_bad_size() {
    let r = validate_file_upload(&sample_metadata("castle.txt", 1000));
    assert!(!r.is_valid());
    assert_eq!(
        r.message(),
        "Invalid file type. Allowed: .litematic, .schem, .schematic, .nbt, .structure"
    );
    let r = validate_file_upload(&sample_metadata("castle.litematic", 0));
    assert!(!r.is_valid());
    assert_eq!(r.message(), "File size must be greater than 0");
}

#[test]
fn prepare_upload_succeeds_and_mints_id_and_path() {
    let r = prepare_file_upload("My Castle.litematic", 2048, "litematic", "1.2.3.4", None);
    assert!(r.success());
    assert_eq!(r.message(), "File upload prepared successfully");
    let id = r.file_id().expect("file id");
    assert_eq!(id.len(), 6);
    assert!(id.chars().all(|c| c.is_ascii_digit()));
    let path = r.storage_path().expect("storage path");
    assert_eq!(path, format!("projections/{}/{}", &id[0..2], id));
}

#[test]
fn prepare_upload_sanitizes_the_filename_before_checking() {
    let r = prepare_file_upload("dir/evil.schem", 10, "schem", "1.2.3.4", None);
    assert!(r.success());
}

#[test]
fn prepare_upload_reports_type_and_size_failures() {
    let r = prepare_file_upload("notes.txt", 10, "txt", "1.2.3.4", None);
    assert!(!r.success());
    assert_eq!(
        r.message(),
        "Invalid file type. Allowed: .litematic, .schem, .schematic, .nbt, .structure"
    );
    assert_eq!(r.file_id(), None);
    assert_eq!(r.storage_path(), None);
    let r = prepare_file_upload("ok.nbt", 0, "nbt", "1.2.3.4", None);
    assert!(!r.success());
    assert_eq!(r.message(), "File size must be greater than 0");
}

#[test]
fn mime_type_is_always_binary_stream() {
    assert_eq!(get_mime_type("a.litematic"), "application/octet-stream");
    assert_eq!(get_mime_type("strange.xyz"), "application/octet-stream");
}

#[test]
fn storage_path_uses_prefix_id_and_extension() {
    assert_eq!(
        generate_storage_path("123456", "House.Litematic"),
        "projections/12/123456.litematic"
    );
    assert_eq!(generate_storage_path("987654", "noext"), "projections/98/987654");
}

#[test]
fn empty_filter_matches_everything() {
    let f = FileFilter::new();
    assert!(matches_file_filter(&sample_file("a.schem", "schem", 10), &f));
}

#[test]
fn filter_compares_type_ignoring_ascii_case() {
    let mut f = FileFilter::new();
    f.set_file_type(Some("SCHEM".to_string()));
    assert!(matches_file_filter(&sample_file("a.schem", "schem", 10), &f));
    f.set_file_type(Some("nbt".to_string()));
    assert!(!matches_file_filter(&sample_file("a.schem", "schem", 10), &f));
}

#[test]
fn filter_applies_size_bounds_inclusively() {
    let mut f = FileFilter::new();
    f.set_size_range(Some(10), Some(20));
    assert!(matches_file_filter(&sample_file("a.schem", "schem", 10), &f));
    assert!(matches_file_filter(&sample_file("a.schem", "schem", 20), &f));
    assert!(!matches_file_filter(&sample_file("a.schem", "schem", 9), &f));
    assert!(!matches_file_filter(&sample_file("a.schem", "schem", 21), &f));
}

#[test]
fn filter_searches_lowercased_filename() {
    let mut f = FileFilter::new();
    f.set_search_term(Some("CASTLE".to_string()));
    assert!(matches_file_filter(&sample_file("My Castle v2.schem", "schem", 10), &f));
    assert!(!matches_file_filter(&sample_file("barn.schem", "schem", 10), &f));
}

#[test]
fn filter_ignores_date_bounds() {
    let mut f = FileFilter::new();
    f.set_date_range(Some("2099-01-01".to_string()), Some("2099-12-31".to_string()));
    assert!(matches_file_filter(&sample_file("a.schem", "schem", 10), &f));
}

#[test]
fn upload_result_and_stats_keep_their_fields() {
    let r = FileUploadResult::new(true, "m".to_string(), Some("1".to_string()), None);
    assert!(r.success());
    assert_eq!(r.message(), "m");
    assert_eq!(r.file_id(), Some("1".to_string()));
    assert_eq!(r.storage_path(), None);
    let s = FileStats::new(3, 999, "{}".to_string());
    assert_eq!(s.total_files(), 3);
    assert_eq!(s.total_size(), 999);
    assert_eq!(s.by_type(), "{}");
}
