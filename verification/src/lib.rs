//! Validation, hashing, identifier generation and data-transfer-object
//! serialization for a file-hosting service. The records defined here (user
//! accounts, uploaded projection files, API keys) are plain data carriers;
//! persistence and transport live outside this crate.
mod auth;
mod config;
mod database;
mod files;
mod json;
mod text;
mod utils;

pub use crate::utils::{
    ValidationResult, has_allowed_extension, validate_file_type, validate_file_size,
    is_valid_api_key_format, generate_api_key, get_file_extension, is_anonymous_upload,
    format_timestamp, lower_of, spec_has_allowed_extension, spec_api_key_format,
    spec_file_extension, MAX_FILE_SIZE_BYTES, validate_email, spec_valid_email,
    spec_email_message, email_parts_nonempty, email_domain_has_dot, validate_password,
    spec_valid_password, spec_password_message, password_long_enough, has_uppercase, has_lowercase,
    has_digit, is_upper_char, is_lower_char, sanitize_filename, spec_sanitize_filename,
    sanitize_char, is_unsafe_filename_char, utf8_clip, validate_ip_address, spec_valid_ipv4,
    split_dots, parses_as_u8, dec_value, all_ascii_digits,
};

pub use crate::config::{
    Config, DatabaseConfig, RedisConfig, StorageConfig, EmailConfig, JwtConfig, parse_u32,
    parse_i64, spec_parse_u32, spec_parse_i64, spec_u32_setting, spec_i64_setting,
};

pub use crate::database::{
    build_create_user_query, spec_create_user_query, build_find_user_by_email_query,
    spec_find_user_by_email_query, build_verify_user_query, spec_verify_user_query,
    build_create_projection_file_query, spec_create_projection_file_query,
    build_find_projection_file_query, spec_find_projection_file_query, build_find_user_files_query,
    spec_find_user_files_query, build_create_api_key_query, spec_create_api_key_query,
    build_find_user_api_keys_query, spec_find_user_api_keys_query,
    build_create_verification_code_query, spec_create_verification_code_query,
    build_verify_code_query, spec_verify_code_query, build_mark_code_used_query,
    spec_mark_code_used_query,
};

pub use crate::files::{
    FileUploadResult, FileMetadata, validate_file_upload, spec_valid_file_upload,
    spec_file_upload_message, prepare_file_upload, get_mime_type, generate_storage_path,
    calculate_file_checksum, verify_file_checksum, FileFilter, matches_file_filter,
    spec_matches_file_filter, FileStats, file_metadata_to_json, spec_file_metadata_json,
    file_filter_to_json, spec_file_filter_json,
};

pub use crate::json::{
    json_bool, json_escape, json_escape_char, json_opt_dec, json_opt_str,
    json_quoted, spec_dec, spec_dec_signed,
};

pub use crate::text::{
    ascii_ieq, ascii_ieq_char, count_char, is_ascii_digit, is_hex_lower, spec_contains,
    spec_ends_with, spec_rfind,
};

pub use crate::auth::{
    AuthResult, TokenClaims, hash_password, verify_password, spec_hash_password,
    validate_login_credentials, validate_registration_data, token_payload_with_times,
    create_token_payload, spec_token_claims_json, spec_sat_add_i64, is_expired_at,
    is_token_expired, validate_api_key_name, spec_valid_api_key_name, spec_api_key_name_message,
    allowed_key_name_char, is_alnum_char, is_verification_code_valid,
    spec_valid_verification_code, spec_verification_code_message, check_user_permissions,
    SessionInfo, session_info_to_json, spec_session_info_json,
};

use vstd::prelude::*;

use base64::Engine;
use sha2::Digest;

use crate::json::push_json_bool;
use crate::json::push_json_opt_str;
use crate::json::push_json_str;
use crate::text::push_char;
use crate::text::DEC_DIGITS;

verus! {

pub const B64_ALPHABET: [char; 64] = [
    'A',
    'B',
    'C',
    'D',
    'E',
    'F',
    'G',
    'H',
    'I',
    'J',
    'K',
    'L',
    'M',
    'N',
    'O',
    'P',
    'Q',
    'R',
    'S',
    'T',
    'U',
    'V',
    'W',
    'X',
    'Y',
    'Z',
    'a',
    'b',
    'c',
    'd',
    'e',
    'f',
    'g',
    'h',
    'i',
    'j',
    'k',
    'l',
    'm',
    'n',
    'o',
    'p',
    'q',
    'r',
    's',
    't',
    'u',
    'v',
    'w',
    'x',
    'y',
    'z',
    '0',
    '1',
    '2',
    '3',
    '4',
    '5',
    '6',
    '7',
    '8',
    '9',
    '+',
    '/',
];

/// The padded base64 encoding of `bytes` over the standard alphabet:
/// groups of three bytes become four alphabet characters, with a final
/// partial group padded by `=`.
pub open spec fn spec_base64(bytes: Seq<u8>) -> Seq<char>
    decreases bytes.len(),
{
    if bytes.len() == 0 {
        seq![]
    } else if bytes.len() == 1 {
        let b0 = bytes[0];
        seq![B64_ALPHABET@[(b0 >> 2) as int], B64_ALPHABET@[((b0 & 3) << 4) as int], '=', '=']
    } else if bytes.len() == 2 {
        let b0 = bytes[0];
        let b1 = bytes[1];
        seq![
            B64_ALPHABET@[(b0 >> 2) as int],
            B64_ALPHABET@[(((b0 & 3) << 4) | (b1 >> 4)) as int],
            B64_ALPHABET@[((b1 & 15) << 2) as int],
            '=',
        ]
    } else {
        let b0 = bytes[0];
        let b1 = bytes[1];
        let b2 = bytes[2];
        seq![
            B64_ALPHABET@[(b0 >> 2) as int],
            B64_ALPHABET@[(((b0 & 3) << 4) | (b1 >> 4)) as int],
            B64_ALPHABET@[(((b1 & 15) << 2) | (b2 >> 6)) as int],
            B64_ALPHABET@[(b2 & 63) as int],
        ] + spec_base64(bytes.skip(3))
    }
}

/// The SHA-256 digest of `data`. The digest itself is not written out here;
/// the trusted wrapper below ties this name to sha2's implementation.
pub uninterp spec fn sha256_of(data: Seq<u8>) -> Seq<u8>;

/// Relies on sha2's `Sha256::digest`: the digest is a function of the input
/// bytes alone and is always 32 bytes long.
#[verifier::external_body]
fn sha256(data: &[u8]) -> (r: Vec<u8>)
    ensures
        r@ == sha256_of(data@),
        r@.len() == 32,
{
    sha2::Sha256::digest(data).to_vec()
}

/// Relies on base64's `STANDARD` engine: padded encoding over the standard
/// alphabet, as `spec_base64` writes it out.
#[verifier::external_body]
fn b64_encode(data: &[u8]) -> (r: String)
    ensures
        r@ == spec_base64(data@),
{
    base64::engine::general_purpose::STANDARD.encode(data)
}

/// A hyphenated identifier as uuid's `Display` form writes one: hyphens at
/// the four fixed positions, lowercase hex digits elsewhere.
pub open spec fn uuid_hyphenated_shape(s: Seq<char>) -> bool {
    &&& s.len() == 36
    &&& s[8] == '-' && s[13] == '-' && s[18] == '-' && s[23] == '-'
    &&& forall|i: int|
        0 <= i < 36 && i != 8 && i != 13 && i != 18 && i != 23 ==> is_hex_lower(#[trigger] s[i])
}

/// Relies on uuid's `Uuid::new_v4` and its hyphenated `Display` form.
/// Nothing is assumed about which digits come out.
#[verifier::external_body]
fn uuid_v4_hyphenated() -> (r: String)
    ensures
        uuid_hyphenated_shape(r@),
{
    uuid::Uuid::new_v4().to_string()
}

/// Relies on uuid's `Uuid::new_v4` and its simple (hyphen-free) form:
/// 32 lowercase hex digits. Nothing is assumed about which digits come out.
#[verifier::external_body]
fn uuid_v4_simple() -> (r: String)
    ensures
        r@.len() == 32,
        forall|i: int| 0 <= i < 32 ==> is_hex_lower(#[trigger] r@[i]),
{
    uuid::Uuid::new_v4().simple().to_string()
}

/// Relies on uuid's `Uuid::new_v4`, used as a source of random bits.
/// Nothing is assumed of the value.
#[verifier::external_body]
fn random_u128() -> (r: u128) {
    uuid::Uuid::new_v4().as_u128()
}

/// Relies on chrono's `Utc::now().to_rfc3339()`: the current time as an
/// RFC 3339 string. The result depends on the clock, so nothing is assumed
/// of it.
#[verifier::external_body]
fn now_rfc3339() -> (r: String) {
    chrono::Utc::now().to_rfc3339()
}

/// Relies on chrono's `Utc::now().timestamp()`: seconds since the Unix
/// epoch by the machine's clock. The result depends on the clock, so
/// nothing is assumed of it.
#[verifier::external_body]
pub(crate) fn now_unix_seconds() -> (r: i64) {
    chrono::Utc::now().timestamp()
}

/// The decimal digits of `n`, padded or cut on the left to exactly `width`
/// digits.
pub open spec fn spec_fixed_dec(n: nat, width: nat) -> Seq<char>
    decreases width,
{
    if width == 0 {
        seq![]
    } else {
        spec_fixed_dec(n / 10, (width - 1) as nat) + seq![DEC_DIGITS@[(n % 10) as int]]
    }
}

proof fn lemma_fixed_dec_digits(n: nat, width: nat)
    ensures
        spec_fixed_dec(n, width).len() == width,
        forall|i: int| 0 <= i < width ==> is_ascii_digit(#[trigger] spec_fixed_dec(n, width)[i]),
    decreases width,
{
    if width > 0 {
        lemma_fixed_dec_digits(n / 10, (width - 1) as nat);
    }
}

/// Appends exactly `width` decimal digits of `n` to `out`, zero-padded.
fn push_fixed_dec(out: &mut String, n: u64, width: u64)
    ensures
        final(out)@ == old(out)@ + spec_fixed_dec(n as nat, width as nat),
    decreases width,
{
    if width == 0 {
        proof {
            assert(final(out)@ =~= old(out)@ + spec_fixed_dec(n as nat, 0));
        }
    } else {
        push_fixed_dec(out, n / 10, width - 1);
        push_char(out, DEC_DIGITS[(n % 10) as usize]);
        proof {
            assert(final(out)@ =~= old(out)@ + spec_fixed_dec(n as nat, width as nat));
        }
    }
}

/// A fresh six-digit identifier for an uploaded file, drawn from random bits.
pub fn generate_file_id() -> (r: String)
    ensures
        r@.len() == 6,
        forall|i: int| 0 <= i < 6 ==> is_ascii_digit(#[trigger] r@[i]),
{
    let n: u64 = (random_u128() % 1000000) as u64;
    let mut out = String::new();
    push_fixed_dec(&mut out, n, 6);
    proof {
        lemma_fixed_dec_digits(n as nat, 6);
    }
    out
}

/// A fresh six-digit verification code, drawn from random bits.
pub fn generate_verification_code() -> (r: String)
    ensures
        r@.len() == 6,
        forall|i: int| 0 <= i < 6 ==> is_ascii_digit(#[trigger] r@[i]),
{
    let n: u64 = (random_u128() % 1000000) as u64;
    let mut out = String::new();
    push_fixed_dec(&mut out, n, 6);
    proof {
        lemma_fixed_dec_digits(n as nat, 6);
    }
    out
}

/// The base64 rendering of the SHA-256 digest of the UTF-8 bytes of a string:
/// the form every hash in this crate takes.
pub open spec fn spec_hash_string(s: Seq<char>) -> Seq<char> {
    spec_base64(sha256_of(vstd::utf8::encode_utf8(s)))
}

/// Hashes a string: SHA-256 over its UTF-8 bytes, rendered as base64.
pub fn hash_string(input: &str) -> (r: String)
    ensures
        r@ == spec_hash_string(input@),
        r@.len() == 44,
{
    let digest = sha256(input.as_bytes());
    let r = b64_encode(digest.as_slice());
    proof {
        lemma_base64_len(digest@);
    }
    r
}

proof fn lemma_base64_len(bytes: Seq<u8>)
    ensures
        spec_base64(bytes).len() == 4 * ((bytes.len() + 2) / 3),
    decreases bytes.len(),
{
    if bytes.len() == 0 {
        assert(spec_base64(bytes).len() == 0);
    } else if bytes.len() == 1 || bytes.len() == 2 {
        assert(spec_base64(bytes).len() == 4);
    } else {
        lemma_base64_len(bytes.skip(3));
        assert(spec_base64(bytes).len() == 4 + spec_base64(bytes.skip(3)).len());
    }
}

/// Whether `hash` is the hash of `input`, as `hash_string` computes it.
pub fn verify_hash(input: &str, hash: &str) -> (r: bool)
    ensures
        r == (hash@ == spec_hash_string(input@)),
{
    let computed = hash_string(input);
    let given = String::from_str(hash);
    computed.eq(&given)
}

/// A registered account.
pub struct User {
    pub id: String,
    pub email: String,
    pub password_hash: String,
    pub is_verified: bool,
    pub created_at: String,
    pub updated_at: String,
}

impl User {
    /// A fresh account record: a new identifier, unverified, with both
    /// timestamps set to the moment of creation.
    pub fn new(email: String, password_hash: String) -> (u: User)
        ensures
            u.email == email,
            u.password_hash == password_hash,
            !u.is_verified,
            uuid_hyphenated_shape(u.id@),
            u.created_at == u.updated_at,
    {
        let now = now_rfc3339();
        User {
            id: uuid_v4_hyphenated(),
            email,
            password_hash,
            is_verified: false,
            created_at: now.clone(),
            updated_at: now,
        }
    }

    pub fn id(&self) -> (r: String)
        ensures
            r == self.id,
    {
        self.id.clone()
    }

    pub fn email(&self) -> (r: String)
        ensures
            r == self.email,
    {
        self.email.clone()
    }

    pub fn is_verified(&self) -> (r: bool)
        ensures
            r == self.is_verified,
    {
        self.is_verified
    }

    pub fn password_hash(&self) -> (r: String)
        ensures
            r == self.password_hash,
    {
        self.password_hash.clone()
    }

    pub fn created_at(&self) -> (r: String)
        ensures
            r == self.created_at,
    {
        self.created_at.clone()
    }

    pub fn updated_at(&self) -> (r: String)
        ensures
            r == self.updated_at,
    {
        self.updated_at.clone()
    }
}

/// A record of one uploaded projection file.
pub struct ProjectionFile {
    pub id: String,
    pub file_id: String,
    pub user_id: Option<String>,
    pub filename: String,
    pub file_size: i64,
    pub file_type: String,
    pub storage_path: String,
    pub upload_ip: String,
    pub created_at: String,
}

impl ProjectionFile {
    /// A fresh upload record: a new six-digit file identifier, and a storage
    /// path of the form `projections/<first two digits>/<file id>`.
    pub fn new(
        filename: String,
        file_size: i64,
        file_type: String,
        upload_ip: String,
        user_id: Option<String>,
    ) -> (p: ProjectionFile)
        ensures
            p.filename == filename,
            p.file_size == file_size,
            p.file_type == file_type,
            p.upload_ip == upload_ip,
            p.user_id == user_id,
            uuid_hyphenated_shape(p.id@),
            p.file_id@.len() == 6,
            forall|i: int| 0 <= i < 6 ==> is_ascii_digit(#[trigger] p.file_id@[i]),
            p.storage_path@ == "projections/"@ + p.file_id@.subrange(0, 2) + "/"@ + p.file_id@,
    {
        let file_id = generate_file_id();
        proof {
            assert(vstd::utf8::is_ascii_chars(file_id@));
        }
        let mut storage_path = String::from_str("projections/");
        storage_path.append(file_id.as_str().substring_ascii(0, 2));
        storage_path.append("/");
        storage_path.append(file_id.as_str());
        ProjectionFile {
            id: uuid_v4_hyphenated(),
            file_id,
            user_id,
            filename,
            file_size,
            file_type,
            storage_path,
            upload_ip,
            created_at: now_rfc3339(),
        }
    }

    pub fn file_id(&self) -> (r: String)
        ensures
            r == self.file_id,
    {
        self.file_id.clone()
    }

    pub fn storage_path(&self) -> (r: String)
        ensures
            r == self.storage_path,
    {
        self.storage_path.clone()
    }

    pub fn filename(&self) -> (r: String)
        ensures
            r == self.filename,
    {
        self.filename.clone()
    }

    pub fn file_size(&self) -> (r: i64)
        ensures
            r == self.file_size,
    {
        self.file_size
    }

    pub fn file_type(&self) -> (r: String)
        ensures
            r == self.file_type,
    {
        self.file_type.clone()
    }

    pub fn upload_ip(&self) -> (r: String)
        ensures
            r == self.upload_ip,
    {
        self.upload_ip.clone()
    }

    pub fn created_at(&self) -> (r: String)
        ensures
            r == self.created_at,
    {
        self.created_at.clone()
    }

    pub fn user_id(&self) -> (r: Option<String>)
        ensures
            r == self.user_id,
    {
        self.user_id.clone()
    }
}

/// A stored API key: only the hash of the raw key is kept.
pub struct ApiKey {
    pub id: String,
    pub user_id: String,
    pub key_hash: String,
    pub name: String,
    pub is_active: bool,
    pub last_used_at: Option<String>,
    pub created_at: String,
}

impl ApiKey {
    /// A fresh key record: the raw key is hashed and discarded, the key
    /// starts out active and unused.
    pub fn new(user_id: String, name: String, raw_key: String) -> (k: ApiKey)
        ensures
            k.user_id == user_id,
            k.name == name,
            k.key_hash@ == spec_hash_string(raw_key@),
            k.is_active,
            k.last_used_at is None,
            uuid_hyphenated_shape(k.id@),
    {
        let key_hash = hash_string(raw_key.as_str());
        ApiKey {
            id: uuid_v4_hyphenated(),
            user_id,
            key_hash,
            name,
            is_active: true,
            last_used_at: None,
            created_at: now_rfc3339(),
        }
    }

    pub fn id(&self) -> (r: String)
        ensures
            r == self.id,
    {
        self.id.clone()
    }

    pub fn key_hash(&self) -> (r: String)
        ensures
            r == self.key_hash,
    {
        self.key_hash.clone()
    }

    pub fn user_id(&self) -> (r: String)
        ensures
            r == self.user_id,
    {
        self.user_id.clone()
    }

    pub fn name(&self) -> (r: String)
        ensures
            r == self.name,
    {
        self.name.clone()
    }

    pub fn is_active(&self) -> (r: bool)
        ensures
            r == self.is_active,
    {
        self.is_active
    }

    pub fn last_used_at(&self) -> (r: Option<String>)
        ensures
            r == self.last_used_at,
    {
        self.last_used_at.clone()
    }

    pub fn created_at(&self) -> (r: String)
        ensures
            r == self.created_at,
    {
        self.created_at.clone()
    }
}

/// The compact JSON rendering of a user record, fields in declaration order.
pub open spec fn spec_user_json(u: User) -> Seq<char> {
    "{\"id\":"@ + json_quoted(u.id@) + ",\"email\":"@ + json_quoted(u.email@)
        + ",\"password_hash\":"@ + json_quoted(u.password_hash@) + ",\"is_verified\":"@ + json_bool(
        u.is_verified,
    ) + ",\"created_at\":"@ + json_quoted(u.created_at@) + ",\"updated_at\":"@ + json_quoted(
        u.updated_at@,
    ) + "}"@
}

/// Serializes a user record as compact JSON.
pub fn user_to_json(user: &User) -> (r: String)
    ensures
        r@ == spec_user_json(*user),
{
    let mut out = String::from_str("{\"id\":");
    push_json_str(&mut out, user.id.as_str());
    out.append(",\"email\":");
    push_json_str(&mut out, user.email.as_str());
    out.append(",\"password_hash\":");
    push_json_str(&mut out, user.password_hash.as_str());
    out.append(",\"is_verified\":");
    push_json_bool(&mut out, user.is_verified);
    out.append(",\"created_at\":");
    push_json_str(&mut out, user.created_at.as_str());
    out.append(",\"updated_at\":");
    push_json_str(&mut out, user.updated_at.as_str());
    out.append("}");
    proof {
        assert(out@ =~= spec_user_json(*user));
    }
    out
}

/// The compact JSON rendering of an upload record, fields in declaration
/// order.
pub open spec fn spec_projection_file_json(p: ProjectionFile) -> Seq<char> {
    "{\"id\":"@ + json_quoted(p.id@) + ",\"file_id\":"@ + json_quoted(p.file_id@)
        + ",\"user_id\":"@ + json_opt_str(p.user_id) + ",\"filename\":"@ + json_quoted(p.filename@)
        + ",\"file_size\":"@ + json::spec_dec_signed(p.file_size as int) + ",\"file_type\":"@
        + json_quoted(p.file_type@) + ",\"storage_path\":"@ + json_quoted(p.storage_path@)
        + ",\"upload_ip\":"@ + json_quoted(p.upload_ip@) + ",\"created_at\":"@ + json_quoted(
        p.created_at@,
    ) + "}"@
}

/// Serializes an upload record as compact JSON.
pub fn projection_file_to_json(file: &ProjectionFile) -> (r: String)
    ensures
        r@ == spec_projection_file_json(*file),
{
    let mut out = String::from_str("{\"id\":");
    push_json_str(&mut out, file.id.as_str());
    out.append(",\"file_id\":");
    push_json_str(&mut out, file.file_id.as_str());
    out.append(",\"user_id\":");
    push_json_opt_str(&mut out, &file.user_id);
    out.append(",\"filename\":");
    push_json_str(&mut out, file.filename.as_str());
    out.append(",\"file_size\":");
    json::push_dec_i64(&mut out, file.file_size);
    out.append(",\"file_type\":");
    push_json_str(&mut out, file.file_type.as_str());
    out.append(",\"storage_path\":");
    push_json_str(&mut out, file.storage_path.as_str());
    out.append(",\"upload_ip\":");
    push_json_str(&mut out, file.upload_ip.as_str());
    out.append(",\"created_at\":");
    push_json_str(&mut out, file.created_at.as_str());
    out.append("}");
    proof {
        assert(out@ =~= spec_projection_file_json(*file));
    }
    out
}

/// The compact JSON rendering of an API key record, fields in declaration
/// order.
pub open spec fn spec_api_key_json(k: ApiKey) -> Seq<char> {
    "{\"id\":"@ + json_quoted(k.id@) + ",\"user_id\":"@ + json_quoted(k.user_id@)
        + ",\"key_hash\":"@ + json_quoted(k.key_hash@) + ",\"name\":"@ + json_quoted(k.name@)
        + ",\"is_active\":"@ + json_bool(k.is_active) + ",\"last_used_at\":"@ + json_opt_str(
        k.last_used_at,
    ) + ",\"created_at\":"@ + json_quoted(k.created_at@) + "}"@
}

/// Serializes an API key record as compact JSON.
pub fn api_key_to_json(key: &ApiKey) -> (r: String)
    ensures
        r@ == spec_api_key_json(*key),
{
    let mut out = String::from_str("{\"id\":");
    push_json_str(&mut out, key.id.as_str());
    out.append(",\"user_id\":");
    push_json_str(&mut out, key.user_id.as_str());
    out.append(",\"key_hash\":");
    push_json_str(&mut out, key.key_hash.as_str());
    out.append(",\"name\":");
    push_json_str(&mut out, key.name.as_str());
    out.append(",\"is_active\":");
    push_json_bool(&mut out, key.is_active);
    out.append(",\"last_used_at\":");
    push_json_opt_str(&mut out, &key.last_used_at);
    out.append(",\"created_at\":");
    push_json_str(&mut out, key.created_at.as_str());
    out.append("}");
    proof {
        assert(out@ =~= spec_api_key_json(*key));
    }
    out
}

/// An error surfaced to the host layer: a message and a short code.
pub struct NeptuniumError {
    pub message: String,
    pub code: String,
}

impl NeptuniumError {
    pub fn new(message: String, code: String) -> (e: NeptuniumError)
        ensures
            e.message == message,
            e.code == code,
    {
        NeptuniumError { message, code }
    }

    pub fn message(&self) -> (r: String)
        ensures
            r == self.message,
    {
        self.message.clone()
    }

    pub fn code(&self) -> (r: String)
        ensures
            r == self.code,
    {
        self.code.clone()
    }
}

/// The line written for an informational log message.
pub fn log_info_line(message: &str) -> (r: String)
    ensures
        r@ == "[INFO] "@ + message@,
{
    let mut out = String::from_str("[INFO] ");
    out.append(message);
    out
}

/// The line written for an error log message.
pub fn log_error_line(message: &str) -> (r: String)
    ensures
        r@ == "[ERROR] "@ + message@,
{
    let mut out = String::from_str("[ERROR] ");
    out.append(message);
    out
}

} // verus!
