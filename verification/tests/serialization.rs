use neptunium::api_key_to_json;
use neptunium::file_filter_to_json;
use neptunium::file_metadata_to_json;
use neptunium::is_expired_at;
use neptunium::projection_file_to_json;
use neptunium::session_info_to_json;
use neptunium::token_payload_with_times;
use neptunium::user_to_json;
use neptunium::ApiKey;
use neptunium::FileFilter;
use neptunium::FileMetadata;
use neptunium::ProjectionFile;
use neptunium::SessionInfo;
use neptunium::User;

#[test]
fn user_json_lists_fields_in_declaration_order() {
    let user = User {
        id: "u-1".to_string(),
        email: "a@b.com".to_string(),
        password_hash: "hash".to_string(),
        is_verified: false,
        created_at: "t0".to_string(),
        updated_at: "t1".to_string(),
    };
    assert_eq!(
        user_to_json(&user),
        "{\"id\":\"u-1\",\"email\":\"a@b.com\",\"password_hash\":\"hash\",\
         \"is_verified\":false,\"created_at\":\"t0\",\"updated_at\":\"t1\"}"
    );
}

#[test]
fn new_user_starts_unverified_with_equal_timestamps() {
    let user = User::new("a@b.com".to_string(), "hash".to_string());
    assert_eq!(user.email(), "a@b.com");
    assert_eq!(user.password_hash(), "hash");
    assert!(!user.is_verified());
    assert_eq!(user.created_at(), user.updated_at());
    assert_eq!(user.id().len(), 36);
}

#[test]
fn projection_file_json_renders_null_user_and_number_size() {
    let file = ProjectionFile {
        id: "p-1".to_string(),
        file_id: "123456".to_string(),
        user_id: None,
        filename: "a.schem".to_string(),
        file_size: -7,
        file_type: "schem".to_string(),
        storage_path: "projections/12/123456".to_string(),
        upload_ip: "1.2.3.4".to_string(),
        created_at: "t".to_string(),
    };
    assert_eq!(
        projection_file_to_json(&file),
        "{\"id\":\"p-1\",\"file_id\":\"123456\",\"user_id\":null,\"filename\":\"a.schem\",\
         \"file_size\":-7,\"file_type\":\"schem\",\"storage_path\":\"projections/12/123456\",\
         \"upload_ip\":\"1.2.3.4\",\"created_at\":\"t\"}"
    );
}

#[test]
fn new_projection_file_builds_storage_path_from_id() {
    let p = ProjectionFile::new(
        "a.litematic".to_string(),
        10,
        "litematic".to_string(),
        "1.2.3.4".to_string(),
        Some("u-1".to_string()),
    );
    let id = p.file_id();
    assert_eq!(id.len(), 6);
    assert!(id.chars().all(|c| c.is_ascii_digit()));
    assert_eq!(p.storage_path(), format!("projections/{}/{}", &id[0..2], id));
    assert_eq!(p.user_id(), Some("u-1".to_string()));
    assert_eq!(p.filename(), "a.litematic");
    assert_eq!(p.file_size(), 10);
}

#[test]
fn new_api_key_hashes_raw_key_and_starts_active() {
    let key = ApiKey::new("u-1".to_string(), "deploy".to_string(), "raw-key".to_string());
    assert_eq!(key.user_id(), "u-1");
    assert_eq!(key.name(), "deploy");
    assert_eq!(key.key_hash(), neptunium::hash_string("raw-key"));
    assert!(key.is_active());
    assert_eq!(key.last_used_at(), None);
    assert_eq!(key.id().len(), 36);
}

#[test]
fn api_key_json_renders_option_and_bool_fields() {
    let key = ApiKey {
        id: "k-1".to_string(),
        user_id: "u-1".to_string(),
        key_hash: "h".to_string(),
        name: "n".to_string(),
        is_active: true,
        last_used_at: Some("t9".to_string()),
        created_at: "t0".to_string(),
    };
    assert_eq!(
        api_key_to_json(&key),
        "{\"id\":\"k-1\",\"user_id\":\"u-1\",\"key_hash\":\"h\",\"name\":\"n\",\
         \"is_active\":true,\"last_used_at\":\"t9\",\"created_at\":\"t0\"}"
    );
}

#[test]
fn session_json_lists_fields_in_declaration_order() {
    let s = SessionInfo::new(
        "u-1".to_string(),
        "a@b.com".to_string(),
        true,
        "t0".to_string(),
        "t1".to_string(),
    );
    assert_eq!(s.user_id(), "u-1");
    assert_eq!(s.email(), "a@b.com");
    assert!(s.is_verified());
    assert_eq!(
        session_info_to_json(&s),
        "{\"user_id\":\"u-1\",\"email\":\"a@b.com\",\"is_verified\":true,\
         \"created_at\":\"t0\",\"expires_at\":\"t1\"}"
    );
}

#[test]
fn metadata_json_escaping_matches_serde() {
    let tricky = "quote\" back\\ nl\n tab\t ctrl\u{1} caf\u{e9}";
    let m = FileMetadata::new(
        tricky.to_string(),
        3,
        "schem".to_string(),
        "application/octet-stream".to_string(),
        None,
    );
    let expected_name = serde_json::Value::String(tricky.to_string()).to_string();
    let expected = format!(
        "{{\"filename\":{},\"file_size\":3,\"file_type\":\"schem\",\
         \"mime_type\":\"application/octet-stream\",\"checksum\":null}}",
        expected_name
    );
    assert_eq!(file_metadata_to_json(&m), expected);
}

#[test]
fn filter_json_renders_every_field() {
    let mut f = FileFilter::new();
    assert_eq!(
        file_filter_to_json(&f),
        "{\"file_type\":null,\"min_size\":null,\"max_size\":null,\
         \"date_from\":null,\"date_to\":null,\"search_term\":null}"
    );
    f.set_file_type(Some("schem".to_string()));
    f.set_size_range(Some(-1), Some(100));
    f.set_date_range(Some("d0".to_string()), Some("d1".to_string()));
    f.set_search_term(Some("castle".to_string()));
    assert_eq!(
        file_filter_to_json(&f),
        "{\"file_type\":\"schem\",\"min_size\":-1,\"max_size\":100,\
         \"date_from\":\"d0\",\"date_to\":\"d1\",\"search_term\":\"castle\"}"
    );
}

#[test]
fn token_payload_renders_claims_in_order() {
    assert_eq!(
        token_payload_with_times("u-1", "a@b.com", 1700000100, 1700000000),
        "{\"user_id\":\"u-1\",\"email\":\"a@b.com\",\"exp\":1700000100,\"iat\":1700000000}"
    );
    assert_eq!(
        token_payload_with_times("u", "e", -5, i64::MIN),
        format!("{{\"user_id\":\"u\",\"email\":\"e\",\"exp\":-5,\"iat\":{}}}", i64::MIN)
    );
}

#[test]
fn expiry_comparison_is_strict() {
    assert!(is_expired_at(5, 6));
    assert!(!is_expired_at(5, 5));
    assert!(!is_expired_at(5, 4));
}

#[test]
fn token_expiry_against_the_clock() {
    assert!(neptunium::is_token_expired(i64::MIN));
    assert!(!neptunium::is_token_expired(i64::MAX));
}

#[test]
fn clock_based_payload_spaces_exp_after_iat() {
    let payload = neptunium::create_token_payload("u-1", "a@b.com", 3600);
    let v: serde_json::Value = serde_json::from_str(&payload).expect("valid JSON");
    assert_eq!(v["user_id"], serde_json::Value::String("u-1".to_string()));
    assert_eq!(v["email"], serde_json::Value::String("a@b.com".to_string()));
    let iat = v["iat"].as_i64().expect("iat");
    let exp = v["exp"].as_i64().expect("exp");
    assert_eq!(exp - iat, 3600);
}

#[test]
fn new_user_id_is_hyphenated_uuid_shaped() {
    let user = User::new("a@b.com".to_string(), "h".to_string());
    let id = user.id();
    let chars: Vec<char> = id.chars().collect();
    assert_eq!(chars.len(), 36);
    for (i, c) in chars.iter().enumerate() {
        if i == 8 || i == 13 || i == 18 || i == 23 {
            assert_eq!(*c, '-');
        } else {
            assert!(c.is_ascii_hexdigit() && !c.is_ascii_uppercase());
        }
    }
}
