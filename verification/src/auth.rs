//! Account authentication helpers: password hashing with the service salt,
//! credential and registration checks, token payload construction, API key
//! name rules, and session records.
use vstd::prelude::*;

use crate::json::json_bool;
use crate::json::json_quoted;
use crate::json::push_dec_i64;
use crate::json::push_json_bool;
use crate::json::push_json_str;
use crate::json::spec_dec_signed;
use crate::text::chars_vec;
use crate::text::str_eq;
use crate::utils::all_ascii_digits;
use crate::utils::spec_email_message;
use crate::utils::spec_password_message;
use crate::utils::spec_valid_email;
use crate::utils::spec_valid_password;
use crate::utils::validate_email;
use crate::utils::validate_password;
use crate::utils::ValidationResult;

verus! {

/// The outcome of an authentication attempt, handed back to the host layer.
pub struct AuthResult {
    pub success: bool,
    pub message: String,
    pub token: Option<String>,
    pub user_id: Option<String>,
}

impl AuthResult {
    pub fn new(success: bool, message: String, token: Option<String>, user_id: Option<String>) -> (r:
        AuthResult)
        ensures
            r.success == success,
            r.message == message,
            r.token == token,
            r.user_id == user_id,
    {
        AuthResult { success, message, token, user_id }
    }

    pub fn success(&self) -> (r: bool)
        ensures
            r == self.success,
    {
        self.success
    }

    pub fn message(&self) -> (r: String)
        ensures
            r == self.message,
    {
        self.message.clone()
    }

    pub fn token(&self) -> (r: Option<String>)
        ensures
            r == self.token,
    {
        self.token.clone()
    }

    pub fn user_id(&self) -> (r: Option<String>)
        ensures
            r == self.user_id,
    {
        self.user_id.clone()
    }
}

/// The claims carried by a session token: subject, address, expiry and
/// issue time in Unix seconds.
pub struct TokenClaims {
    pub user_id: String,
    pub email: String,
    pub exp: i64,
    pub iat: i64,
}

impl TokenClaims {
    pub fn new(user_id: String, email: String, exp: i64, iat: i64) -> (r: TokenClaims)
        ensures
            r.user_id == user_id,
            r.email == email,
            r.exp == exp,
            r.iat == iat,
    {
        TokenClaims { user_id, email, exp, iat }
    }

    pub fn user_id(&self) -> (r: String)
        ensures
            r == self.user_id,
    {
        self.user_id.clone()
    }

    pub fn email(&self) -> (r: String)
        ensures
            r == self.email,
    {
        self.email.clone()
    }

    pub fn exp(&self) -> (r: i64)
        ensures
            r == self.exp,
    {
        self.exp
    }

    pub fn iat(&self) -> (r: i64)
        ensures
            r == self.iat,
    {
        self.iat
    }
}

/// The hash stored for a password: the service salt is appended before
/// hashing.
pub open spec fn spec_hash_password(password: Seq<char>) -> Seq<char> {
    crate::spec_hash_string(password + "neptunium_salt_2024"@)
}

/// Hashes a password with the service salt.
pub fn hash_password(password: &str) -> (r: String)
    ensures
        r@ == spec_hash_password(password@),
{
    let salted = String::from_str(password).concat("neptunium_salt_2024");
    crate::hash_string(salted.as_str())
}

/// Whether `hash` is the salted hash of `password`.
pub fn verify_password(password: &str, hash: &str) -> (r: bool)
    ensures
        r == (hash@ == spec_hash_password(password@)),
{
    let computed = hash_password(password);
    let given = String::from_str(hash);
    computed.eq(&given)
}

/// Checks that both login fields were filled in.
pub fn validate_login_credentials(email: &str, password: &str) -> (r: ValidationResult)
    ensures
        r.is_valid == (email@.len() > 0 && password@.len() > 0),
        r.message@ == if email@.len() == 0 {
            "Email is required"@
        } else if password@.len() == 0 {
            "Password is required"@
        } else {
            "Valid credentials"@
        },
{
    if email.is_empty() {
        return ValidationResult::new(false, String::from_str("Email is required"));
    }
    if password.is_empty() {
        return ValidationResult::new(false, String::from_str("Password is required"));
    }
    ValidationResult::new(true, String::from_str("Valid credentials"))
}

/// Checks a registration form: a well-shaped email, a strong password, and
/// a matching confirmation.
pub fn validate_registration_data(email: &str, password: &str, confirm_password: &str) -> (r:
    ValidationResult)
    ensures
        r.is_valid == (spec_valid_email(email@) && spec_valid_password(password@) && password@
            == confirm_password@),
        r.message@ == if !spec_valid_email(email@) {
            spec_email_message(email@)
        } else if !spec_valid_password(password@) {
            spec_password_message(password@)
        } else if password@ != confirm_password@ {
            "Passwords do not match"@
        } else {
            "Valid registration data"@
        },
{
    let email_validation = validate_email(email);
    if !email_validation.is_valid() {
        return email_validation;
    }
    let password_validation = validate_password(password);
    if !password_validation.is_valid() {
        return password_validation;
    }
    if !str_eq(password, confirm_password) {
        return ValidationResult::new(false, String::from_str("Passwords do not match"));
    }
    ValidationResult::new(true, String::from_str("Valid registration data"))
}

/// The JSON rendering of token claims, fields in declaration order.
pub open spec fn spec_token_claims_json(
    user_id: Seq<char>,
    email: Seq<char>,
    exp: int,
    iat: int,
) -> Seq<char> {
    "{\"user_id\":"@ + json_quoted(user_id) + ",\"email\":"@ + json_quoted(email) + ",\"exp\":"@
        + spec_dec_signed(exp) + ",\"iat\":"@ + spec_dec_signed(iat) + "}"@
}

/// Serializes a token payload with the given timestamps.
pub fn token_payload_with_times(user_id: &str, email: &str, exp: i64, iat: i64) -> (r: String)
    ensures
        r@ == spec_token_claims_json(user_id@, email@, exp as int, iat as int),
{
    let mut out = String::from_str("{\"user_id\":");
    push_json_str(&mut out, user_id);
    out.append(",\"email\":");
    push_json_str(&mut out, email);
    out.append(",\"exp\":");
    push_dec_i64(&mut out, exp);
    out.append(",\"iat\":");
    push_dec_i64(&mut out, iat);
    out.append("}");
    proof {
        assert(out@ =~= spec_token_claims_json(user_id@, email@, exp as int, iat as int));
    }
    out
}

/// Addition on `i64`, saturating at the ends of the range.
pub open spec fn spec_sat_add_i64(a: int, b: int) -> int {
    if a + b > i64::MAX {
        i64::MAX as int
    } else if a + b < i64::MIN {
        i64::MIN as int
    } else {
        a + b
    }
}

fn sat_add_i64(a: i64, b: i64) -> (r: i64)
    ensures
        r as int == spec_sat_add_i64(a as int, b as int),
{
    if b >= 0 {
        if a > i64::MAX - b {
            i64::MAX
        } else {
            a + b
        }
    } else {
        if a < i64::MIN - b {
            i64::MIN
        } else {
            a + b
        }
    }
}

/// Builds a token payload from the clock: the issue time is the current
/// Unix second, the expiry lies `expires_in_seconds` later, saturating at
/// the ends of the `i64` range.
pub fn create_token_payload(user_id: &str, email: &str, expires_in_seconds: i64) -> (r: String)
    ensures
        exists|now: i64|
            r@ == spec_token_claims_json(
                user_id@,
                email@,
                spec_sat_add_i64(now as int, expires_in_seconds as int),
                now as int,
            ),
{
    let now = crate::now_unix_seconds();
    let exp = sat_add_i64(now, expires_in_seconds);
    let r = token_payload_with_times(user_id, email, exp, now);
    proof {
        let witness = now;
        assert(r@ == spec_token_claims_json(
            user_id@,
            email@,
            spec_sat_add_i64(witness as int, expires_in_seconds as int),
            witness as int,
        ));
    }
    r
}

/// Whether a token expiry lies strictly before the given time.
pub fn is_expired_at(exp: i64, now: i64) -> (r: bool)
    ensures
        r == (now > exp),
{
    now > exp
}

/// Reads the clock and reports whether the expiry lies in the past.
pub fn is_token_expired(exp: i64) -> (r: bool) {
    let now = crate::now_unix_seconds();
    is_expired_at(exp, now)
}

/// Whether the character counts as alphanumeric. The Unicode table is not
/// written out here; the trusted wrapper below ties this name to std's
/// implementation, along with its value on ASCII.
pub uninterp spec fn is_alnum_char(c: char) -> bool;

/// Relies on std's `char::is_alphanumeric` (a Unicode letter or number;
/// among ASCII characters, exactly the letters and digits).
#[verifier::external_body]
fn char_is_alphanumeric(c: char) -> (r: bool)
    ensures
        r == is_alnum_char(c),
        ('0' <= c <= '9') || ('A' <= c <= 'Z') || ('a' <= c <= 'z') ==> r,
        c <= '\u{7f}' && !(('0' <= c <= '9') || ('A' <= c <= 'Z') || ('a' <= c <= 'z')) ==> !r,
{
    c.is_alphanumeric()
}

/// A character an API key name may hold.
pub open spec fn allowed_key_name_char(c: char) -> bool {
    is_alnum_char(c) || c == '_' || c == '-' || c == ' '
}

/// An acceptable API key name: nonempty, at most 100 bytes, holding only
/// letters, numbers, spaces, hyphens and underscores.
pub open spec fn spec_valid_api_key_name(s: Seq<char>) -> bool {
    &&& s.len() > 0
    &&& vstd::utf8::encode_utf8(s).len() <= 100
    &&& forall|i: int| 0 <= i < s.len() ==> allowed_key_name_char(#[trigger] s[i])
}

/// The message `validate_api_key_name` reports, by the first failing check.
pub open spec fn spec_api_key_name_message(s: Seq<char>) -> Seq<char> {
    if s.len() == 0 {
        "API key name is required"@
    } else if vstd::utf8::encode_utf8(s).len() > 100 {
        "API key name must be less than 100 characters"@
    } else if !(forall|i: int| 0 <= i < s.len() ==> allowed_key_name_char(#[trigger] s[i])) {
        "API key name can only contain letters, numbers, spaces, hyphens, and underscores"@
    } else {
        "Valid API key name"@
    }
}

/// Checks an API key's display name: nonempty, at most 100 bytes, and only
/// letters, numbers, spaces, hyphens and underscores.
pub fn validate_api_key_name(name: &str) -> (r: ValidationResult)
    ensures
        r.is_valid == spec_valid_api_key_name(name@),
        r.message@ == spec_api_key_name_message(name@),
{
    if name.is_empty() {
        return ValidationResult::new(false, String::from_str("API key name is required"));
    }
    if name.as_bytes().len() > 100 {
        return ValidationResult::new(
            false,
            String::from_str("API key name must be less than 100 characters"),
        );
    }
    let v = chars_vec(name);
    let n = v.len();
    let mut i: usize = 0;
    while i < n
        invariant
            v@ == name@,
            n == v@.len(),
            i <= n,
            name@.len() > 0,
            vstd::utf8::encode_utf8(name@).len() <= 100,
            forall|j: int| 0 <= j < i ==> allowed_key_name_char(#[trigger] v@[j]),
        decreases n - i,
    {
        let c = v[i];
        let ok = char_is_alphanumeric(c) || c == '_' || c == '-' || c == ' ';
        if !ok {
            proof {
                assert(name@[i as int] == c);
                assert(!allowed_key_name_char(c));
            }
            return ValidationResult::new(
                false,
                String::from_str(
                    "API key name can only contain letters, numbers, spaces, hyphens, and underscores",
                ),
            );
        }
        i = i + 1;
    }
    ValidationResult::new(true, String::from_str("Valid API key name"))
}

/// An acceptable email verification code: exactly six bytes, all decimal
/// digits.
pub open spec fn spec_valid_verification_code(s: Seq<char>) -> bool {
    vstd::utf8::encode_utf8(s).len() == 6 && all_ascii_digits(s)
}

/// The message `is_verification_code_valid` reports, by the first failing
/// check.
pub open spec fn spec_verification_code_message(s: Seq<char>) -> Seq<char> {
    if vstd::utf8::encode_utf8(s).len() != 6 {
        "Verification code must be 6 digits"@
    } else if !all_ascii_digits(s) {
        "Verification code must contain only digits"@
    } else {
        "Valid verification code"@
    }
}

/// Checks the shape of an email verification code: six bytes, all digits.
pub fn is_verification_code_valid(code: &str) -> (r: ValidationResult)
    ensures
        r.is_valid == spec_valid_verification_code(code@),
        r.message@ == spec_verification_code_message(code@),
{
    if code.as_bytes().len() != 6 {
        return ValidationResult::new(false, String::from_str("Verification code must be 6 digits"));
    }
    let v = chars_vec(code);
    let n = v.len();
    let mut i: usize = 0;
    while i < n
        invariant
            v@ == code@,
            n == v@.len(),
            i <= n,
            vstd::utf8::encode_utf8(code@).len() == 6,
            forall|j: int| 0 <= j < i ==> crate::text::is_ascii_digit(#[trigger] v@[j]),
        decreases n - i,
    {
        let c = v[i];
        if !('0' <= c && c <= '9') {
            proof {
                assert(code@[i as int] == c);
                assert(!crate::text::is_ascii_digit(c));
            }
            return ValidationResult::new(
                false,
                String::from_str("Verification code must contain only digits"),
            );
        }
        i = i + 1;
    }
    ValidationResult::new(true, String::from_str("Valid verification code"))
}

/// The host layer's coarse permission rule: reads, writes and deletes are
/// allowed (ownership is enforced outside this module), anything else is
/// refused.
pub fn check_user_permissions(user_id: &str, resource: &str, action: &str) -> (r: bool)
    ensures
        r == (action@ == "read"@ || action@ == "write"@ || action@ == "delete"@),
{
    let _ = user_id;
    let _ = resource;
    if str_eq(action, "read") {
        return true;
    }
    if str_eq(action, "write") {
        return true;
    }
    if str_eq(action, "delete") {
        return true;
    }
    false
}

/// A signed-in session, as handed to the host layer.
pub struct SessionInfo {
    pub user_id: String,
    pub email: String,
    pub is_verified: bool,
    pub created_at: String,
    pub expires_at: String,
}

impl SessionInfo {
    pub fn new(
        user_id: String,
        email: String,
        is_verified: bool,
        created_at: String,
        expires_at: String,
    ) -> (r: SessionInfo)
        ensures
            r.user_id == user_id,
            r.email == email,
            r.is_verified == is_verified,
            r.created_at == created_at,
            r.expires_at == expires_at,
    {
        SessionInfo { user_id, email, is_verified, created_at, expires_at }
    }

    pub fn user_id(&self) -> (r: String)
        ensures
            r == self.user_id,
    {
        self.user_id.clone()
    }

    pub fn email(&self) -> (r: String)
        ensures
            r == self.email,
    {
        self.email.clone()
    }

    pub fn is_verified(&self) -> (r: bool)
        ensures
            r == self.is_verified,
    {
        self.is_verified
    }
}

/// The compact JSON rendering of a session record, fields in declaration
/// order.
pub open spec fn spec_session_info_json(s: SessionInfo) -> Seq<char> {
    "{\"user_id\":"@ + json_quoted(s.user_id@) + ",\"email\":"@ + json_quoted(s.email@)
        + ",\"is_verified\":"@ + json_bool(s.is_verified) + ",\"created_at\":"@ + json_quoted(
        s.created_at@,
    ) + ",\"expires_at\":"@ + json_quoted(s.expires_at@) + "}"@
}

/// Serializes a session record as compact JSON.
pub fn session_info_to_json(session: &SessionInfo) -> (r: String)
    ensures
        r@ == spec_session_info_json(*session),
{
    let mut out = String::from_str("{\"user_id\":");
    push_json_str(&mut out, session.user_id.as_str());
    out.append(",\"email\":");
    push_json_str(&mut out, session.email.as_str());
    out.append(",\"is_verified\":");
    push_json_bool(&mut out, session.is_verified);
    out.append(",\"created_at\":");
    push_json_str(&mut out, session.created_at.as_str());
    out.append(",\"expires_at\":");
    push_json_str(&mut out, session.expires_at.as_str());
    out.append("}");
    proof {
        assert(out@ =~= spec_session_info_json(*session));
    }
    out
}

} // verus!
