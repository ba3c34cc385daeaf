use neptunium::check_user_permissions;
use neptunium::parse_i64;
use neptunium::parse_u32;
use neptunium::Config;
use neptunium::NeptuniumError;
use neptunium::ValidationResult;

fn full_parts() -> Config {
    Config::from_parts(
        Some("postgres://db".to_string()),
        None,
        Some("https://redis".to_string()),
        Some("redis-token".to_string()),
        Some("acct".to_string()),
        Some("ak".to_string()),
        Some("sk".to_string()),
        Some("bucket".to_string()),
        None,
        Some("mail-key".to_string()),
        None,
        None,
        Some("signing-key".to_string()),
        None,
    )
    .expect("complete configuration")
}

#[test]
fn config_applies_defaults_for_optional_settings() {
    let c = full_parts();
    assert_eq!(c.database.url, "postgres://db");
    assert_eq!(c.database.max_connections, 10);
    assert_eq!(c.storage.endpoint, "https://acct.r2.cloudflarestorage.com");
    assert_eq!(c.email.from_email, "noreply@neptunium.app");
    assert_eq!(c.email.from_name, "Neptunium");
    assert_eq!(c.jwt.expires_in, 86400);
}

#[test]
fn config_parses_numeric_settings_and_falls_back() {
    let c = Config::from_parts(
        Some("db".to_string()),
        Some("25".to_string()),
        Some("r".to_string()),
        Some("t".to_string()),
        Some("a".to_string()),
        Some("k".to_string()),
        Some("s".to_string()),
        Some("b".to_string()),
        Some("https://custom".to_string()),
        Some("e".to_string()),
        Some("me@x.y".to_string()),
        Some("Me".to_string()),
        Some("j".to_string()),
        Some("3600".to_string()),
    )
    .expect("complete configuration");
    assert_eq!(c.database.max_connections, 25);
    assert_eq!(c.storage.endpoint, "https://custom");
    assert_eq!(c.email.from_email, "me@x.y");
    assert_eq!(c.email.from_name, "Me");
    assert_eq!(c.jwt.expires_in, 3600);
    let c = Config::from_parts(
        Some("db".to_string()),
        Some("not a number".to_string()),
        Some("r".to_string()),
        Some("t".to_string()),
        Some("a".to_string()),
        Some("k".to_string()),
        Some("s".to_string()),
        Some("b".to_string()),
        None,
        Some("e".to_string()),
        None,
        None,
        Some("j".to_string()),
        Some("not a number".to_string()),
    )
    .expect("complete configuration");
    assert_eq!(c.database.max_connections, 10);
    assert_eq!(c.jwt.expires_in, 86400);
}

#[test]
fn config_reports_first_missing_setting() {
    let r = Config::from_parts(
        None, None, None, None, None, None, None, None, None, None, None, None, None, None,
    );
    assert_eq!(r.err().unwrap(), "DATABASE_URL not found");
    let r = Config::from_parts(
        Some("db".to_string()),
        None,
        None,
        None,
        None,
        None,
        None,
        None,
        None,
        None,
        None,
        None,
        None,
        None,
    );
    assert_eq!(r.err().unwrap(), "UPSTASH_REDIS_REST_URL not found");
    let r = Config::from_parts(
        Some("db".to_string()),
        None,
        Some("r".to_string()),
        Some("t".to_string()),
        Some("a".to_string()),
        Some("k".to_string()),
        Some("s".to_string()),
        Some("b".to_string()),
        None,
        Some("e".to_string()),
        None,
        None,
        None,
        None,
    );
    assert_eq!(r.err().unwrap(), "JWT_SECRET not found");
}

#[test]
fn u32_parsing_follows_std_rules() {
    assert_eq!(parse_u32("0"), Some(0));
    assert_eq!(parse_u32("+123"), Some(123));
    assert_eq!(parse_u32("0010"), Some(10));
    assert_eq!(parse_u32("4294967295"), Some(u32::MAX));
    assert_eq!(parse_u32("4294967296"), None);
    assert_eq!(parse_u32(""), None);
    assert_eq!(parse_u32("+"), None);
    assert_eq!(parse_u32("-1"), None);
    assert_eq!(parse_u32("12a"), None);
    assert_eq!(parse_u32(" 12"), None);
    assert_eq!(parse_u32("00000000000000000000042"), Some(42));
}

#[test]
fn i64_parsing_follows_std_rules() {
    assert_eq!(parse_i64("0"), Some(0));
    assert_eq!(parse_i64("-5"), Some(-5));
    assert_eq!(parse_i64("+7"), Some(7));
    assert_eq!(parse_i64("9223372036854775807"), Some(i64::MAX));
    assert_eq!(parse_i64("9223372036854775808"), None);
    assert_eq!(parse_i64("-9223372036854775808"), Some(i64::MIN));
    assert_eq!(parse_i64("-9223372036854775809"), None);
    assert_eq!(parse_i64("-"), None);
    assert_eq!(parse_i64("--1"), None);
    assert_eq!(parse_i64(""), None);
}

#[test]
fn permissions_allow_known_actions_only() {
    assert!(check_user_permissions("u", "res", "read"));
    assert!(check_user_permissions("u", "res", "write"));
    assert!(check_user_permissions("u", "res", "delete"));
    assert!(!check_user_permissions("u", "res", "admin"));
    assert!(!check_user_permissions("u", "res", ""));
}

#[test]
fn error_and_validation_records_keep_their_fields() {
    let e = NeptuniumError::new("broke".to_string(), "E42".to_string());
    assert_eq!(e.message(), "broke");
    assert_eq!(e.code(), "E42");
    let v = ValidationResult::new(true, "fine".to_string());
    assert!(v.is_valid());
    assert_eq!(v.message(), "fine");
}
