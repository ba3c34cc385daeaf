use neptunium::is_verification_code_valid;
use neptunium::validate_api_key_name;
use neptunium::validate_email;
use neptunium::validate_file_size;
use neptunium::validate_file_type;
use neptunium::validate_ip_address;
use neptunium::validate_login_credentials;
use neptunium::validate_password;
use neptunium::validate_registration_data;

#[test]
fn email_accepts_plain_address() {
    let r = validate_email("user@example.com");
    assert!(r.is_valid());
    assert_eq!(r.message(), "Valid email");
}

#[test]
fn email_rejects_empty() {
    let r = validate_email("");
    assert!(!r.is_valid());
    assert_eq!(r.message(), "Email cannot be empty");
}

#[test]
fn email_rejects_missing_at() {
    let r = validate_email("user.example.com");
    assert!(!r.is_valid());
    assert_eq!(r.message(), "Email must contain @ symbol");
}

#[test]
fn email_rejects_two_ats() {
    let r = validate_email("user@@example.com");
    assert!(!r.is_valid());
    assert_eq!(r.message(), "Invalid email format");
}

#[test]
fn email_rejects_empty_local_part() {
    let r = validate_email("@example.com");
    assert!(!r.is_valid());
    assert_eq!(r.message(), "Invalid email format");
}

#[test]
fn email_rejects_empty_domain() {
    let r = validate_email("user@");
    assert!(!r.is_valid());
    assert_eq!(r.message(), "Invalid email format");
}

#[test]
fn email_rejects_dotless_domain() {
    let r = validate_email("user@examplecom");
    assert!(!r.is_valid());
    assert_eq!(r.message(), "Invalid domain format");
}

#[test]
fn password_accepts_mixed_eight_chars() {
    let r = validate_password("Passw0rd");
    assert!(r.is_valid());
    assert_eq!(r.message(), "Valid password");
}

#[test]
fn password_rejects_short() {
    let r = validate_password("Pw1");
    assert!(!r.is_valid());
    assert_eq!(r.message(), "Password must be at least 8 characters long");
}

#[test]
fn password_rejects_missing_uppercase() {
    let r = validate_password("password1");
    assert!(!r.is_valid());
    assert_eq!(
        r.message(),
        "Password must contain at least one uppercase letter"
    );
}

#[test]
fn password_rejects_missing_lowercase() {
    let r = validate_password("PASSWORD1");
    assert!(!r.is_valid());
    assert_eq!(
        r.message(),
        "Password must contain at least one lowercase letter"
    );
}

#[test]
fn password_rejects_missing_digit() {
    let r = validate_password("Password");
    assert!(!r.is_valid());
    assert_eq!(r.message(), "Password must contain at least one digit");
}

#[test]
fn file_type_accepts_litematic() {
    let r = validate_file_type("castle.litematic");
    assert!(r.is_valid());
    assert_eq!(r.message(), "Valid file type");
}

#[test]
fn file_type_accepts_uppercase_extension() {
    assert!(validate_file_type("CASTLE.LITEMATIC").is_valid());
    assert!(validate_file_type("a.SchEm").is_valid());
    assert!(validate_file_type("a.schematic").is_valid());
    assert!(validate_file_type("a.nbt").is_valid());
    assert!(validate_file_type("a.structure").is_valid());
}

#[test]
fn file_type_rejects_unlisted_extension() {
    let r = validate_file_type("notes.txt");
    assert!(!r.is_valid());
    assert_eq!(
        r.message(),
        "Invalid file type. Allowed: .litematic, .schem, .schematic, .nbt, .structure"
    );
}

#[test]
fn file_size_rejects_zero_and_negative() {
    let r = validate_file_size(0);
    assert!(!r.is_valid());
    assert_eq!(r.message(), "File size must be greater than 0");
    assert!(!validate_file_size(-5).is_valid());
}

#[test]
fn file_size_accepts_up_to_fifty_megabytes() {
    assert!(validate_file_size(1).is_valid());
    let r = validate_file_size(50 * 1024 * 1024);
    assert!(r.is_valid());
    assert_eq!(r.message(), "Valid file size");
}

#[test]
fn file_size_rejects_above_fifty_megabytes() {
    let r = validate_file_size(50 * 1024 * 1024 + 1);
    assert!(!r.is_valid());
    assert_eq!(r.message(), "File size must be less than 50MB");
}

#[test]
fn ip_accepts_dotted_quad() {
    let r = validate_ip_address("192.168.1.1");
    assert!(r.is_valid());
    assert_eq!(r.message(), "Valid IP address");
    assert!(validate_ip_address("0.0.0.0").is_valid());
    assert!(validate_ip_address("255.255.255.255").is_valid());
}

#[test]
fn ip_accepts_leading_zeroes_and_plus() {
    assert!(validate_ip_address("01.2.3.4").is_valid());
    assert!(validate_ip_address("+1.2.3.4").is_valid());
}

#[test]
fn ip_rejects_out_of_range_part() {
    let r = validate_ip_address("256.1.1.1");
    assert!(!r.is_valid());
    assert_eq!(r.message(), "Invalid IP address format");
}

#[test]
fn ip_rejects_wrong_part_count() {
    assert!(!validate_ip_address("1.2.3").is_valid());
    assert!(!validate_ip_address("1.2.3.4.5").is_valid());
    assert!(!validate_ip_address("").is_valid());
}

#[test]
fn ip_rejects_non_numeric_parts() {
    assert!(!validate_ip_address("a.b.c.d").is_valid());
    assert!(!validate_ip_address("1..2.3").is_valid());
    assert!(!validate_ip_address(" 1.2.3.4").is_valid());
    assert!(!validate_ip_address("-1.2.3.4").is_valid());
}

#[test]
fn api_key_name_accepts_letters_digits_separators() {
    let r = validate_api_key_name("My Deploy-Key_01");
    assert!(r.is_valid());
    assert_eq!(r.message(), "Valid API key name");
}

#[test]
fn api_key_name_rejects_empty() {
    let r = validate_api_key_name("");
    assert!(!r.is_valid());
    assert_eq!(r.message(), "API key name is required");
}

#[test]
fn api_key_name_rejects_over_one_hundred_bytes() {
    let name = "a".repeat(101);
    let r = validate_api_key_name(&name);
    assert!(!r.is_valid());
    assert_eq!(r.message(), "API key name must be less than 100 characters");
}

#[test]
fn api_key_name_rejects_punctuation() {
    let r = validate_api_key_name("bad!name");
    assert!(!r.is_valid());
    assert_eq!(
        r.message(),
        "API key name can only contain letters, numbers, spaces, hyphens, and underscores"
    );
}

#[test]
fn verification_code_accepts_six_digits() {
    let r = is_verification_code_valid("123456");
    assert!(r.is_valid());
    assert_eq!(r.message(), "Valid verification code");
}

#[test]
fn verification_code_rejects_wrong_length() {
    let r = is_verification_code_valid("12345");
    assert!(!r.is_valid());
    assert_eq!(r.message(), "Verification code must be 6 digits");
    assert!(!is_verification_code_valid("1234567").is_valid());
}

#[test]
fn verification_code_rejects_non_digits() {
    let r = is_verification_code_valid("12345a");
    assert!(!r.is_valid());
    assert_eq!(r.message(), "Verification code must contain only digits");
}

#[test]
fn login_credentials_require_both_fields() {
    let r = validate_login_credentials("", "pw");
    assert!(!r.is_valid());
    assert_eq!(r.message(), "Email is required");
    let r = validate_login_credentials("a@b.c", "");
    assert!(!r.is_valid());
    assert_eq!(r.message(), "Password is required");
    let r = validate_login_credentials("a@b.c", "pw");
    assert!(r.is_valid());
    assert_eq!(r.message(), "Valid credentials");
}

#[test]
fn registration_checks_email_password_and_confirmation() {
    let r = validate_registration_data("bad-email", "Passw0rd", "Passw0rd");
    assert!(!r.is_valid());
    assert_eq!(r.message(), "Email must contain @ symbol");
    let r = validate_registration_data("a@b.com", "weak", "weak");
    assert!(!r.is_valid());
    assert_eq!(r.message(), "Password must be at least 8 characters long");
    let r = validate_registration_data("a@b.com", "Passw0rd", "Passw0rd!");
    assert!(!r.is_valid());
    assert_eq!(r.message(), "Passwords do not match");
    let r = validate_registration_data("a@b.com", "Passw0rd", "Passw0rd");
    assert!(r.is_valid());
    assert_eq!(r.message(), "Valid registration data");
}
