//! Query builders for the host layer's document store: each builder emits a
//! compact JSON object holding the parameter list under `params` and the SQL
//! text under `query` (keys in that order).
use vstd::prelude::*;

use crate::json::json_opt_str;
use crate::json::json_quoted;
use crate::json::push_dec_i64;
use crate::json::push_json_bool;
use crate::json::push_json_opt_str;
use crate::json::push_json_str;
use crate::json::spec_dec_signed;
use crate::json::json_bool;

verus! {

/// The JSON for inserting a new account row.
pub open spec fn spec_create_user_query(
    email: Seq<char>,
    password_hash: Seq<char>,
    is_verified: bool,
) -> Seq<char> {
    "{\"params\":["@ + json_quoted(email) + ","@ + json_quoted(password_hash) + ","@ + json_bool(
        is_verified,
    )
        + "],\"query\":\"INSERT INTO users (email, password_hash, is_verified) VALUES ($1, $2, $3) RETURNING *\"}"@
}

/// Builds the insert statement for a new account.
pub fn build_create_user_query(email: &str, password_hash: &str, is_verified: bool) -> (r: String)
    ensures
        r@ == spec_create_user_query(email@, password_hash@, is_verified),
{
    let mut out = String::from_str("{\"params\":[");
    push_json_str(&mut out, email);
    out.append(",");
    push_json_str(&mut out, password_hash);
    out.append(",");
    push_json_bool(&mut out, is_verified);
    out.append(
        "],\"query\":\"INSERT INTO users (email, password_hash, is_verified) VALUES ($1, $2, $3) RETURNING *\"}",
    );
    proof {
        assert(out@ =~= spec_create_user_query(email@, password_hash@, is_verified));
    }
    out
}

/// The JSON for looking an account up by email.
pub open spec fn spec_find_user_by_email_query(email: Seq<char>) -> Seq<char> {
    "{\"params\":["@ + json_quoted(email) + "],\"query\":\"SELECT * FROM users WHERE email = $1\"}"@
}

/// Builds the lookup of an account by email.
pub fn build_find_user_by_email_query(email: &str) -> (r: String)
    ensures
        r@ == spec_find_user_by_email_query(email@),
{
    let mut out = String::from_str("{\"params\":[");
    push_json_str(&mut out, email);
    out.append("],\"query\":\"SELECT * FROM users WHERE email = $1\"}");
    proof {
        assert(out@ =~= spec_find_user_by_email_query(email@));
    }
    out
}

/// The JSON for marking an account verified.
pub open spec fn spec_verify_user_query(user_id: Seq<char>) -> Seq<char> {
    "{\"params\":["@ + json_quoted(user_id)
        + "],\"query\":\"UPDATE users SET is_verified = true, updated_at = NOW() WHERE id = $1\"}"@
}

/// Builds the update that marks an account verified.
pub fn build_verify_user_query(user_id: &str) -> (r: String)
    ensures
        r@ == spec_verify_user_query(user_id@),
{
    let mut out = String::from_str("{\"params\":[");
    push_json_str(&mut out, user_id);
    out.append(
        "],\"query\":\"UPDATE users SET is_verified = true, updated_at = NOW() WHERE id = $1\"}",
    );
    proof {
        assert(out@ =~= spec_verify_user_query(user_id@));
    }
    out
}

/// The JSON for inserting a new upload row.
pub open spec fn spec_create_projection_file_query(
    file_id: Seq<char>,
    user_id: Option<String>,
    filename: Seq<char>,
    original_filename: Seq<char>,
    file_size: int,
    file_type: Seq<char>,
    mime_type: Seq<char>,
    storage_path: Seq<char>,
    storage_url: Seq<char>,
    checksum: Seq<char>,
    upload_ip: Seq<char>,
) -> Seq<char> {
    "{\"params\":["@ + json_quoted(file_id) + ","@ + json_opt_str(user_id) + ","@ + json_quoted(
        filename,
    ) + ","@ + json_quoted(original_filename) + ","@ + spec_dec_signed(file_size) + ","@
        + json_quoted(file_type) + ","@ + json_quoted(mime_type) + ","@ + json_quoted(storage_path)
        + ","@ + json_quoted(storage_url) + ","@ + json_quoted(checksum) + ","@ + json_quoted(
        upload_ip,
    )
        + "],\"query\":\"INSERT INTO projection_files (file_id, user_id, filename, original_filename, file_size, file_type, mime_type, storage_path, storage_url, checksum, upload_ip) VALUES ($1, $2, $3, $4, $5, $6, $7, $8, $9, $10, $11) RETURNING *\"}"@
}

/// Builds the insert statement for a new upload record.
pub fn build_create_projection_file_query(
    file_id: &str,
    user_id: Option<String>,
    filename: &str,
    original_filename: &str,
    file_size: i64,
    file_type: &str,
    mime_type: &str,
    storage_path: &str,
    storage_url: &str,
    checksum: &str,
    upload_ip: &str,
) -> (r: String)
    ensures
        r@ == spec_create_projection_file_query(
            file_id@,
            user_id,
            filename@,
            original_filename@,
            file_size as int,
            file_type@,
            mime_type@,
            storage_path@,
            storage_url@,
            checksum@,
            upload_ip@,
        ),
{
    let mut out = String::from_str("{\"params\":[");
    push_json_str(&mut out, file_id);
    out.append(",");
    push_json_opt_str(&mut out, &user_id);
    out.append(",");
    push_json_str(&mut out, filename);
    out.append(",");
    push_json_str(&mut out, original_filename);
    out.append(",");
    push_dec_i64(&mut out, file_size);
    out.append(",");
    push_json_str(&mut out, file_type);
    out.append(",");
    push_json_str(&mut out, mime_type);
    out.append(",");
    push_json_str(&mut out, storage_path);
    out.append(",");
    push_json_str(&mut out, storage_url);
    out.append(",");
    push_json_str(&mut out, checksum);
    out.append(",");
    push_json_str(&mut out, upload_ip);
    out.append(
        "],\"query\":\"INSERT INTO projection_files (file_id, user_id, filename, original_filename, file_size, file_type, mime_type, storage_path, storage_url, checksum, upload_ip) VALUES ($1, $2, $3, $4, $5, $6, $7, $8, $9, $10, $11) RETURNING *\"}",
    );
    proof {
        assert(out@ =~= spec_create_projection_file_query(
            file_id@,
            user_id,
            filename@,
            original_filename@,
            file_size as int,
            file_type@,
            mime_type@,
            storage_path@,
            storage_url@,
            checksum@,
            upload_ip@,
        ));
    }
    out
}

/// The JSON for looking an upload up by its six-digit identifier.
pub open spec fn spec_find_projection_file_query(file_id: Seq<char>) -> Seq<char> {
    "{\"params\":["@ + json_quoted(file_id)
        + "],\"query\":\"SELECT * FROM projection_files WHERE file_id = $1\"}"@
}

/// Builds the lookup of an upload by its identifier.
pub fn build_find_projection_file_query(file_id: &str) -> (r: String)
    ensures
        r@ == spec_find_projection_file_query(file_id@),
{
    let mut out = String::from_str("{\"params\":[");
    push_json_str(&mut out, file_id);
    out.append("],\"query\":\"SELECT * FROM projection_files WHERE file_id = $1\"}");
    proof {
        assert(out@ =~= spec_find_projection_file_query(file_id@));
    }
    out
}

/// The JSON for listing an account's uploads, newest first, with paging.
pub open spec fn spec_find_user_files_query(
    user_id: Seq<char>,
    limit: int,
    offset: int,
) -> Seq<char> {
    "{\"params\":["@ + json_quoted(user_id) + ","@ + spec_dec_signed(limit) + ","@
        + spec_dec_signed(offset)
        + "],\"query\":\"SELECT * FROM projection_files WHERE user_id = $1 ORDER BY created_at DESC LIMIT $2 OFFSET $3\"}"@
}

/// Builds the paged listing of an account's uploads.
pub fn build_find_user_files_query(user_id: &str, limit: i32, offset: i32) -> (r: String)
    ensures
        r@ == spec_find_user_files_query(user_id@, limit as int, offset as int),
{
    let mut out = String::from_str("{\"params\":[");
    push_json_str(&mut out, user_id);
    out.append(",");
    push_dec_i64(&mut out, limit as i64);
    out.append(",");
    push_dec_i64(&mut out, offset as i64);
    out.append(
        "],\"query\":\"SELECT * FROM projection_files WHERE user_id = $1 ORDER BY created_at DESC LIMIT $2 OFFSET $3\"}",
    );
    proof {
        assert(out@ =~= spec_find_user_files_query(user_id@, limit as int, offset as int));
    }
    out
}

/// The JSON for inserting a new API key row; the fixed permission list and
/// limits are spelled out in the statement and its parameters.
pub open spec fn spec_create_api_key_query(
    user_id: Seq<char>,
    key_hash: Seq<char>,
    key_prefix: Seq<char>,
    name: Seq<char>,
    description: Seq<char>,
) -> Seq<char> {
    "{\"params\":["@ + json_quoted(user_id) + ","@ + json_quoted(key_hash) + ","@ + json_quoted(
        key_prefix,
    ) + ","@ + json_quoted(name) + ","@ + json_quoted(description) + ",[\"read\",\"write\"]"@
        + "],\"query\":\"INSERT INTO api_keys (user_id, key_hash, key_prefix, name, description, permissions, is_active, usage_count, rate_limit) VALUES ($1, $2, $3, $4, $5, $6, true, 0, 1000) RETURNING *\"}"@
}

/// Builds the insert statement for a new API key.
pub fn build_create_api_key_query(
    user_id: &str,
    key_hash: &str,
    key_prefix: &str,
    name: &str,
    description: &str,
) -> (r: String)
    ensures
        r@ == spec_create_api_key_query(user_id@, key_hash@, key_prefix@, name@, description@),
{
    let mut out = String::from_str("{\"params\":[");
    push_json_str(&mut out, user_id);
    out.append(",");
    push_json_str(&mut out, key_hash);
    out.append(",");
    push_json_str(&mut out, key_prefix);
    out.append(",");
    push_json_str(&mut out, name);
    out.append(",");
    push_json_str(&mut out, description);
    out.append(",[\"read\",\"write\"]");
    out.append(
        "],\"query\":\"INSERT INTO api_keys (user_id, key_hash, key_prefix, name, description, permissions, is_active, usage_count, rate_limit) VALUES ($1, $2, $3, $4, $5, $6, true, 0, 1000) RETURNING *\"}",
    );
    proof {
        assert(out@ =~= spec_create_api_key_query(
            user_id@,
            key_hash@,
            key_prefix@,
            name@,
            description@,
        ));
    }
    out
}

/// The JSON for listing an account's active API keys, newest first.
pub open spec fn spec_find_user_api_keys_query(user_id: Seq<char>) -> Seq<char> {
    "{\"params\":["@ + json_quoted(user_id)
        + "],\"query\":\"SELECT * FROM api_keys WHERE user_id = $1 AND is_active = true ORDER BY created_at DESC\"}"@
}

/// Builds the listing of an account's active API keys.
pub fn build_find_user_api_keys_query(user_id: &str) -> (r: String)
    ensures
        r@ == spec_find_user_api_keys_query(user_id@),
{
    let mut out = String::from_str("{\"params\":[");
    push_json_str(&mut out, user_id);
    out.append(
        "],\"query\":\"SELECT * FROM api_keys WHERE user_id = $1 AND is_active = true ORDER BY created_at DESC\"}",
    );
    proof {
        assert(out@ =~= spec_find_user_api_keys_query(user_id@));
    }
    out
}

/// The JSON for inserting an email verification code; the third parameter
/// is an interval such as `15 minutes`.
pub open spec fn spec_create_verification_code_query(
    email: Seq<char>,
    code: Seq<char>,
    expires_in_minutes: int,
) -> Seq<char> {
    "{\"params\":["@ + json_quoted(email) + ","@ + json_quoted(code) + ","@ + json_quoted(
        spec_dec_signed(expires_in_minutes) + " minutes"@,
    )
        + "],\"query\":\"INSERT INTO verification_codes (email, code, type, expires_at) VALUES ($1, $2, 'email_verification', NOW() + INTERVAL $3) RETURNING *\"}"@
}

/// Builds the insert statement for an email verification code.
pub fn build_create_verification_code_query(email: &str, code: &str, expires_in_minutes: i32) -> (r:
    String)
    ensures
        r@ == spec_create_verification_code_query(email@, code@, expires_in_minutes as int),
{
    let mut interval = String::new();
    push_dec_i64(&mut interval, expires_in_minutes as i64);
    interval.append(" minutes");
    let mut out = String::from_str("{\"params\":[");
    push_json_str(&mut out, email);
    out.append(",");
    push_json_str(&mut out, code);
    out.append(",");
    push_json_str(&mut out, interval.as_str());
    out.append(
        "],\"query\":\"INSERT INTO verification_codes (email, code, type, expires_at) VALUES ($1, $2, 'email_verification', NOW() + INTERVAL $3) RETURNING *\"}",
    );
    proof {
        assert(out@ =~= spec_create_verification_code_query(
            email@,
            code@,
            expires_in_minutes as int,
        ));
    }
    out
}

/// The JSON for checking a verification code that is still unexpired and
/// unused.
pub open spec fn spec_verify_code_query(email: Seq<char>, code: Seq<char>) -> Seq<char> {
    "{\"params\":["@ + json_quoted(email) + ","@ + json_quoted(code)
        + "],\"query\":\"SELECT * FROM verification_codes WHERE email = $1 AND code = $2 AND expires_at > NOW() AND used_at IS NULL\"}"@
}

/// Builds the lookup of a live verification code.
pub fn build_verify_code_query(email: &str, code: &str) -> (r: String)
    ensures
        r@ == spec_verify_code_query(email@, code@),
{
    let mut out = String::from_str("{\"params\":[");
    push_json_str(&mut out, email);
    out.append(",");
    push_json_str(&mut out, code);
    out.append(
        "],\"query\":\"SELECT * FROM verification_codes WHERE email = $1 AND code = $2 AND expires_at > NOW() AND used_at IS NULL\"}",
    );
    proof {
        assert(out@ =~= spec_verify_code_query(email@, code@));
    }
    out
}

/// The JSON for marking a verification code used.
pub open spec fn spec_mark_code_used_query(code_id: Seq<char>) -> Seq<char> {
    "{\"params\":["@ + json_quoted(code_id)
        + "],\"query\":\"UPDATE verification_codes SET used_at = NOW() WHERE id = $1\"}"@
}

/// Builds the update that marks a verification code used.
pub fn build_mark_code_used_query(code_id: &str) -> (r: String)
    ensures
        r@ == spec_mark_code_used_query(code_id@),
{
    let mut out = String::from_str("{\"params\":[");
    push_json_str(&mut out, code_id);
    out.append("],\"query\":\"UPDATE verification_codes SET used_at = NOW() WHERE id = $1\"}");
    proof {
        assert(out@ =~= spec_mark_code_used_query(code_id@));
    }
    out
}

} // verus!
