use neptunium::calculate_file_checksum;
use neptunium::generate_api_key;
use neptunium::generate_file_id;
use neptunium::generate_verification_code;
use neptunium::hash_password;
use neptunium::hash_string;
use neptunium::is_valid_api_key_format;
use neptunium::verify_file_checksum;
use neptunium::verify_hash;
use neptunium::verify_password;

#[test]
fn hash_string_matches_known_sha256_base64() {
    assert_eq!(hash_string(""), "47DEQpj8HBSa+/TImW+5JCeuQeRkm5NMpJWZG3hSuFU=");
    assert_eq!(hash_string("abc"), "ungWv48Bz+pBQUDeXa4iI7ADYaOWF3qctBD/YfIAFa0=");
}

#[test]
fn hash_string_is_forty_four_characters() {
    assert_eq!(hash_string("anything at all").len(), 44);
}

#[test]
fn verify_hash_round_trips() {
    let h = hash_string("some input");
    assert!(verify_hash("some input", &h));
    assert!(!verify_hash("other input", &h));
    assert!(!verify_hash("some input", "not a hash"));
}

#[test]
fn hash_password_appends_service_salt() {
    assert_eq!(
        hash_password("Passw0rd"),
        "a33orj3itvvhcnMGtfiRwZ8iL9R3XfnrmP9ZLfUZJEI="
    );
    assert_eq!(hash_password("x"), hash_string("xneptunium_salt_2024"));
}

#[test]
fn verify_password_round_trips() {
    let h = hash_password("Sup3rSecret");
    assert!(verify_password("Sup3rSecret", &h));
    assert!(!verify_password("Sup3rSecret2", &h));
}

#[test]
fn checksum_matches_known_values() {
    assert_eq!(
        calculate_file_checksum(b""),
        "47DEQpj8HBSa+/TImW+5JCeuQeRkm5NMpJWZG3hSuFU="
    );
    assert_eq!(
        calculate_file_checksum(b"hello"),
        "LPJNul+wow4m6DsqxbninhsWHlwfp0JecwQzYpOLmCQ="
    );
}

#[test]
fn checksum_verification_round_trips() {
    let data = b"projection file bytes";
    let sum = calculate_file_checksum(data);
    assert!(verify_file_checksum(data, &sum));
    assert!(!verify_file_checksum(b"tampered bytes", &sum));
}

#[test]
fn file_id_is_six_digits() {
    let id = generate_file_id();
    assert_eq!(id.len(), 6);
    assert!(id.chars().all(|c| c.is_ascii_digit()));
}

#[test]
fn verification_code_is_six_digits() {
    let code = generate_verification_code();
    assert_eq!(code.len(), 6);
    assert!(code.chars().all(|c| c.is_ascii_digit()));
}

#[test]
fn generated_api_key_passes_format_check() {
    let key = generate_api_key();
    assert_eq!(key.len(), 36);
    assert!(key.starts_with("npt_"));
    assert!(is_valid_api_key_format(&key));
    assert!(key[4..].chars().all(|c| c.is_ascii_hexdigit() && !c.is_ascii_uppercase()));
}

#[test]
fn api_key_format_rejects_wrong_shapes() {
    assert!(!is_valid_api_key_format(""));
    assert!(!is_valid_api_key_format("npt_short"));
    let wrong_prefix = format!("abc_{}", "0".repeat(32));
    assert!(!is_valid_api_key_format(&wrong_prefix));
    let right = format!("npt_{}", "0".repeat(32));
    assert!(is_valid_api_key_format(&right));
}
