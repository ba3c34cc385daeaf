//! Input validation and small string utilities: email, password, filename,
//! file size and IP address checks, filename sanitizing, and API key
//! generation.
use vstd::prelude::*;

use crate::text::chars_vec;
use crate::text::count_char;
use crate::text::ends_with_chars;
use crate::text::find_char_from;
use crate::text::find_char_last;
use crate::text::is_ascii_digit;
use crate::text::is_hex_lower;
use crate::text::lemma_count_char_pos;
use crate::text::lemma_count_char_unique;
use crate::text::lemma_count_char_zero;
use crate::text::lemma_rfind_props;
use crate::text::spec_ends_with;
use crate::text::spec_rfind;

verus! {

/// A pass/fail outcome of one of the validators, together with a
/// human-readable message for the caller to show.
pub struct ValidationResult {
    pub is_valid: bool,
    pub message: String,
}

impl ValidationResult {
    pub fn new(is_valid: bool, message: String) -> (r: ValidationResult)
        ensures
            r.is_valid == is_valid,
            r.message == message,
    {
        ValidationResult { is_valid, message }
    }

    pub fn is_valid(&self) -> (r: bool)
        ensures
            r == self.is_valid,
    {
        self.is_valid
    }

    pub fn message(&self) -> (r: String)
        ensures
            r == self.message,
    {
        self.message.clone()
    }
}

/// The Unicode lowercase mapping of a character sequence. The mapping is not
/// written out here; the trusted wrapper below ties this name to std's
/// implementation.
pub uninterp spec fn lower_of(s: Seq<char>) -> Seq<char>;

/// Relies on std's `str::to_lowercase`: the result depends on the
/// characters alone.
#[verifier::external_body]
pub(crate) fn to_lowercase(s: &str) -> (r: String)
    ensures
        r@ == lower_of(s@),
{
    s.to_lowercase()
}

/// Whether a (lowercased) filename carries one of the accepted projection
/// file extensions.
pub open spec fn spec_has_allowed_extension(lower_name: Seq<char>) -> bool {
    ||| spec_ends_with(lower_name, ".litematic"@)
    ||| spec_ends_with(lower_name, ".schem"@)
    ||| spec_ends_with(lower_name, ".schematic"@)
    ||| spec_ends_with(lower_name, ".nbt"@)
    ||| spec_ends_with(lower_name, ".structure"@)
}

/// Whether `lower_name` (expected already lowercased) ends with one of the
/// accepted projection file extensions.
pub fn has_allowed_extension(lower_name: &str) -> (r: bool)
    ensures
        r == spec_has_allowed_extension(lower_name@),
{
    let v = chars_vec(lower_name);
    if ends_with_chars(&v, &chars_vec(".litematic")) {
        return true;
    }
    if ends_with_chars(&v, &chars_vec(".schem")) {
        return true;
    }
    if ends_with_chars(&v, &chars_vec(".schematic")) {
        return true;
    }
    if ends_with_chars(&v, &chars_vec(".nbt")) {
        return true;
    }
    if ends_with_chars(&v, &chars_vec(".structure")) {
        return true;
    }
    false
}

/// Checks that the filename carries one of the accepted extensions,
/// compared case-insensitively by lowercasing the name first.
pub fn validate_file_type(filename: &str) -> (r: ValidationResult)
    ensures
        r.is_valid == spec_has_allowed_extension(lower_of(filename@)),
        r.message@ == if spec_has_allowed_extension(lower_of(filename@)) {
            "Valid file type"@
        } else {
            "Invalid file type. Allowed: .litematic, .schem, .schematic, .nbt, .structure"@
        },
{
    let lower = to_lowercase(filename);
    if has_allowed_extension(lower.as_str()) {
        ValidationResult::new(true, String::from_str("Valid file type"))
    } else {
        ValidationResult::new(
            false,
            String::from_str("Invalid file type. Allowed: .litematic, .schem, .schematic, .nbt, .structure"),
        )
    }
}

pub const MAX_FILE_SIZE_BYTES: i64 = 50 * 1024 * 1024;

/// Checks that an upload size is positive and at most 50 MB.
pub fn validate_file_size(size: i64) -> (r: ValidationResult)
    ensures
        r.is_valid == (0 < size <= MAX_FILE_SIZE_BYTES),
        r.message@ == if size <= 0 {
            "File size must be greater than 0"@
        } else if size > MAX_FILE_SIZE_BYTES {
            "File size must be less than 50MB"@
        } else {
            "Valid file size"@
        },
{
    if size <= 0 {
        ValidationResult::new(false, String::from_str("File size must be greater than 0"))
    } else if size > MAX_FILE_SIZE_BYTES {
        ValidationResult::new(false, String::from_str("File size must be less than 50MB"))
    } else {
        ValidationResult::new(true, String::from_str("Valid file size"))
    }
}

/// Whether a string has the shape of an issued API key: exactly 36 bytes,
/// beginning with `npt_`.
pub open spec fn spec_api_key_format(s: Seq<char>) -> bool {
    &&& vstd::utf8::encode_utf8(s).len() == 36
    &&& s.len() >= 4
    &&& s.subrange(0, 4) == "npt_"@
}

/// Whether `key` has the shape of an issued API key.
pub fn is_valid_api_key_format(key: &str) -> (r: bool)
    ensures
        r == spec_api_key_format(key@),
{
    proof {
        reveal_strlit("npt_");
    }
    if key.as_bytes().len() != 36 {
        return false;
    }
    let v = chars_vec(key);
    if v.len() < 4 {
        return false;
    }
    let r = v[0] == 'n' && v[1] == 'p' && v[2] == 't' && v[3] == '_';
    proof {
        if r {
            assert(key@.subrange(0, 4) =~= "npt_"@);
        } else {
            assert(key@.subrange(0, 4) != "npt_"@) by {
                if key@.subrange(0, 4) == "npt_"@ {
                    assert(key@[0] == "npt_"@[0]);
                    assert(key@[1] == "npt_"@[1]);
                    assert(key@[2] == "npt_"@[2]);
                    assert(key@[3] == "npt_"@[3]);
                }
            }
        }
    }
    r
}

/// A fresh API key: `npt_` followed by 32 random lowercase hex digits.
pub fn generate_api_key() -> (r: String)
    ensures
        spec_api_key_format(r@),
        r@.len() == 36,
        forall|i: int| 4 <= i < 36 ==> is_hex_lower(#[trigger] r@[i]),
{
    let u1 = crate::uuid_v4_simple();
    let u2 = crate::uuid_v4_simple();
    proof {
        reveal_strlit("npt_");
        assert(vstd::utf8::is_ascii_chars(u1@));
        assert(vstd::utf8::is_ascii_chars(u2@));
    }
    let mut out = String::from_str("npt_");
    out.append(u1.as_str().substring_ascii(0, 16));
    out.append(u2.as_str().substring_ascii(0, 16));
    proof {
        assert(out@.subrange(0, 4) =~= "npt_"@);
        assert(vstd::utf8::is_ascii_chars(out@));
        vstd::utf8::is_ascii_chars_encode_utf8(out@);
    }
    out
}

/// The (lowercased) extension of a filename: everything from the last dot
/// on, or the empty string when there is no dot.
pub open spec fn spec_file_extension(s: Seq<char>) -> Seq<char> {
    match spec_rfind(s, '.') {
        Option::None => Seq::<char>::empty(),
        Option::Some(k) => lower_of(s.subrange(k, s.len() as int)),
    }
}

/// Extracts the lowercased extension of a filename, the empty string when
/// the name has no dot.
pub fn get_file_extension(filename: &str) -> (r: String)
    ensures
        r@ == spec_file_extension(filename@),
{
    let v = chars_vec(filename);
    proof {
        lemma_rfind_props(filename@, '.');
    }
    match find_char_last(&v, '.') {
        Option::None => String::new(),
        Option::Some(k) => {
            let n = v.len();
            let tail = filename.substring_char(k, n);
            to_lowercase(tail)
        },
    }
}

/// A character a filename may not keep: a path or shell metacharacter, or a
/// control character (the Unicode `Cc` category).
pub open spec fn is_unsafe_filename_char(c: char) -> bool {
    ||| c == '/'
    ||| c == '\\'
    ||| c == ':'
    ||| c == '*'
    ||| c == '?'
    ||| c == '"'
    ||| c == '<'
    ||| c == '>'
    ||| c == '|'
    ||| (c as u32) < 0x20
    ||| c as u32 == 0x7f
    ||| (0x80 <= c as u32 <= 0x9f)
}

/// How one filename character is kept: unsafe characters become `_`.
pub open spec fn sanitize_char(c: char) -> char {
    if is_unsafe_filename_char(c) {
        '_'
    } else {
        c
    }
}

/// The longest prefix of `s` whose UTF-8 encoding fits in `budget` bytes.
pub open spec fn utf8_clip(s: Seq<char>, budget: int) -> Seq<char>
    decreases s.len(),
{
    if s.len() == 0 {
        seq![]
    } else {
        let w = vstd::utf8::encode_scalar(s[0] as u32).len() as int;
        if w <= budget {
            seq![s[0]] + utf8_clip(s.drop_first(), budget - w)
        } else {
            seq![]
        }
    }
}

/// What `sanitize_filename` produces: unsafe characters replaced by `_`,
/// the result cut to at most 255 bytes of UTF-8 at a character boundary,
/// and an empty name replaced by a placeholder.
pub open spec fn spec_sanitize_filename(s: Seq<char>) -> Seq<char> {
    if s.len() == 0 {
        "unnamed_file"@
    } else {
        utf8_clip(s.map_values(|c: char| sanitize_char(c)), 255)
    }
}

/// The replacement for one filename character.
fn sanitize_char_exec(c: char) -> (r: char)
    ensures
        r == sanitize_char(c),
{
    let u = c as u32;
    if c == '/' || c == '\\' || c == ':' || c == '*' || c == '?' || c == '"' || c == '<' || c == '>'
        || c == '|' || u < 0x20 || u == 0x7f || (0x80 <= u && u <= 0x9f) {
        '_'
    } else {
        c
    }
}

/// The number of bytes in the UTF-8 encoding of `c`.
fn char_utf8_width(c: char) -> (w: usize)
    ensures
        w == vstd::utf8::encode_scalar(c as u32).len(),
        1 <= w <= 4,
{
    let u = c as u32;
    if u < 0x80 {
        1
    } else if u < 0x800 {
        2
    } else if u < 0x10000 {
        3
    } else {
        4
    }
}

/// Cleans a filename for storage: path and shell metacharacters and control
/// characters become `_`, the result is cut to at most 255 bytes, and an
/// empty name becomes `unnamed_file`.
pub fn sanitize_filename(filename: &str) -> (r: String)
    ensures
        r@ == spec_sanitize_filename(filename@),
{
    let v = chars_vec(filename);
    let n = v.len();
    if n == 0 {
        return String::from_str("unnamed_file");
    }
    let ghost mapped = v@.map_values(|c: char| sanitize_char(c));
    let mut out = String::new();
    let mut used: usize = 0;
    let mut i: usize = 0;
    proof {
        assert(mapped.skip(0) == mapped);
    }
    while i < n
        invariant
            n == v@.len(),
            mapped == v@.map_values(|c: char| sanitize_char(c)),
            i <= n,
            used <= 255,
            utf8_clip(mapped, 255) =~= out@ + utf8_clip(mapped.skip(i as int), 255 - used),
        decreases n - i,
    {
        let m = sanitize_char_exec(v[i]);
        let w = char_utf8_width(m);
        proof {
            assert(mapped.skip(i as int)[0] == mapped[i as int]);
            assert(mapped[i as int] == sanitize_char(v@[i as int]));
            assert(mapped.skip(i as int).drop_first() =~= mapped.skip(i + 1));
        }
        if used + w <= 255 {
            crate::text::push_char(&mut out, m);
            used = used + w;
            proof {
                assert(utf8_clip(mapped, 255) =~= out@ + utf8_clip(
                    mapped.skip(i + 1),
                    255 - used,
                ));
            }
            i = i + 1;
        } else {
            proof {
                assert(utf8_clip(mapped.skip(i as int), 255 - used) =~= Seq::<char>::empty());
                assert(utf8_clip(mapped.skip(n as int), 255 - used) =~= Seq::<char>::empty());
            }
            i = n;
        }
    }
    proof {
        assert(utf8_clip(mapped.skip(n as int), 255 - used) =~= Seq::<char>::empty());
        assert(out@ =~= utf8_clip(mapped, 255));
    }
    out
}

/// Every `@` in `s` has something before it and something after it.
pub open spec fn email_parts_nonempty(s: Seq<char>) -> bool {
    forall|k: int| 0 <= k < s.len() && #[trigger] s[k] == '@' ==> 0 < k && k + 1 < s.len()
}

/// The part after every `@` in `s` contains a dot.
pub open spec fn email_domain_has_dot(s: Seq<char>) -> bool {
    forall|k: int| 0 <= k < s.len() && #[trigger] s[k] == '@' ==> count_char(
        s.skip(k + 1),
        '.',
    ) >= 1
}

/// An acceptable email address: nonempty, exactly one `@`, a nonempty local
/// part, and a nonempty domain containing a dot.
pub open spec fn spec_valid_email(s: Seq<char>) -> bool {
    &&& s.len() > 0
    &&& count_char(s, '@') == 1
    &&& email_parts_nonempty(s)
    &&& email_domain_has_dot(s)
}

/// The message `validate_email` reports, by the first failing check.
pub open spec fn spec_email_message(s: Seq<char>) -> Seq<char> {
    if s.len() == 0 {
        "Email cannot be empty"@
    } else if count_char(s, '@') == 0 {
        "Email must contain @ symbol"@
    } else if count_char(s, '@') != 1 {
        "Invalid email format"@
    } else if !email_parts_nonempty(s) {
        "Invalid email format"@
    } else if !email_domain_has_dot(s) {
        "Invalid domain format"@
    } else {
        "Valid email"@
    }
}

/// Checks the shape of an email address: exactly one `@`, a nonempty local
/// part, and a domain that contains a dot.
pub fn validate_email(email: &str) -> (r: ValidationResult)
    ensures
        r.is_valid == spec_valid_email(email@),
        r.message@ == spec_email_message(email@),
{
    let v = chars_vec(email);
    let n = v.len();
    if n == 0 {
        return ValidationResult::new(false, String::from_str("Email cannot be empty"));
    }
    let mut cnt: usize = 0;
    let mut first_at: usize = 0;
    let mut i: usize = 0;
    while i < n
        invariant
            n == v@.len(),
            i <= n,
            cnt <= i,
            cnt == count_char(v@.take(i as int), '@'),
            cnt > 0 ==> first_at < i && v@[first_at as int] == '@',
        decreases n - i,
    {
        proof {
            assert(v@.take(i + 1).drop_last() =~= v@.take(i as int));
            assert(v@.take(i + 1).last() == v@[i as int]);
        }
        if v[i] == '@' {
            if cnt == 0 {
                first_at = i;
            }
            cnt = cnt + 1;
        }
        i = i + 1;
    }
    proof {
        assert(v@.take(n as int) =~= v@);
    }
    if cnt == 0 {
        proof {
            lemma_count_char_zero(email@, '@');
        }
        return ValidationResult::new(false, String::from_str("Email must contain @ symbol"));
    }
    if cnt != 1 {
        return ValidationResult::new(false, String::from_str("Invalid email format"));
    }
    proof {
        assert forall|k: int| 0 <= k < v@.len() && #[trigger] v@[k] == '@' implies k
            == first_at as int by {
            lemma_count_char_unique(v@, '@', k, first_at as int);
        }
    }
    if first_at == 0 || first_at + 1 == n {
        return ValidationResult::new(false, String::from_str("Invalid email format"));
    }
    match find_char_from(&v, first_at + 1, '.') {
        Option::None => {
            proof {
                lemma_count_char_zero(v@.skip(first_at + 1), '.');
                assert(forall|j: int| 0 <= j < v@.skip(first_at + 1).len() ==> #[trigger] v@.skip(
                    first_at + 1,
                )[j] == v@[j + first_at + 1]);
            }
            ValidationResult::new(false, String::from_str("Invalid domain format"))
        },
        Option::Some(d) => {
            proof {
                assert(v@.skip(first_at + 1)[d - first_at - 1] == '.');
                lemma_count_char_pos(v@.skip(first_at + 1), '.', d - first_at - 1);
            }
            ValidationResult::new(true, String::from_str("Valid email"))
        },
    }
}

/// Whether the character counts as uppercase. The Unicode table is not
/// written out here; the trusted wrapper below ties this name to std's
/// implementation, along with its value on ASCII.
pub uninterp spec fn is_upper_char(c: char) -> bool;

/// Relies on std's `char::is_uppercase` (the Unicode `Uppercase` property;
/// among ASCII characters, exactly the letters `A` to `Z`).
#[verifier::external_body]
fn char_is_uppercase(c: char) -> (r: bool)
    ensures
        r == is_upper_char(c),
        'A' <= c <= 'Z' ==> r,
        c <= '\u{7f}' && !('A' <= c <= 'Z') ==> !r,
{
    c.is_uppercase()
}

/// Whether the character counts as lowercase. The Unicode table is not
/// written out here; the trusted wrapper below ties this name to std's
/// implementation, along with its value on ASCII.
pub uninterp spec fn is_lower_char(c: char) -> bool;

/// Relies on std's `char::is_lowercase` (the Unicode `Lowercase` property;
/// among ASCII characters, exactly the letters `a` to `z`).
#[verifier::external_body]
fn char_is_lowercase(c: char) -> (r: bool)
    ensures
        r == is_lower_char(c),
        'a' <= c <= 'z' ==> r,
        c <= '\u{7f}' && !('a' <= c <= 'z') ==> !r,
{
    c.is_lowercase()
}

/// The password is at least eight bytes long.
pub open spec fn password_long_enough(s: Seq<char>) -> bool {
    vstd::utf8::encode_utf8(s).len() >= 8
}

/// Some character of `s` is uppercase.
pub open spec fn has_uppercase(s: Seq<char>) -> bool {
    exists|i: int| 0 <= i < s.len() && is_upper_char(#[trigger] s[i])
}

/// Some character of `s` is lowercase.
pub open spec fn has_lowercase(s: Seq<char>) -> bool {
    exists|i: int| 0 <= i < s.len() && is_lower_char(#[trigger] s[i])
}

/// Some character of `s` is a decimal digit.
pub open spec fn has_digit(s: Seq<char>) -> bool {
    exists|i: int| 0 <= i < s.len() && is_ascii_digit(#[trigger] s[i])
}

/// An acceptable password: at least eight bytes, with an uppercase letter,
/// a lowercase letter and a digit.
pub open spec fn spec_valid_password(s: Seq<char>) -> bool {
    &&& password_long_enough(s)
    &&& has_uppercase(s)
    &&& has_lowercase(s)
    &&& has_digit(s)
}

/// The message `validate_password` reports, by the first failing check.
pub open spec fn spec_password_message(s: Seq<char>) -> Seq<char> {
    if !password_long_enough(s) {
        "Password must be at least 8 characters long"@
    } else if !has_uppercase(s) {
        "Password must contain at least one uppercase letter"@
    } else if !has_lowercase(s) {
        "Password must contain at least one lowercase letter"@
    } else if !has_digit(s) {
        "Password must contain at least one digit"@
    } else {
        "Valid password"@
    }
}

/// Checks password strength: length of at least eight bytes, and at least
/// one uppercase letter, one lowercase letter and one digit.
pub fn validate_password(password: &str) -> (r: ValidationResult)
    ensures
        r.is_valid == spec_valid_password(password@),
        r.message@ == spec_password_message(password@),
{
    if password.as_bytes().len() < 8 {
        return ValidationResult::new(
            false,
            String::from_str("Password must be at least 8 characters long"),
        );
    }
    let v = chars_vec(password);
    let n = v.len();
    let mut has_up: bool = false;
    let mut has_low: bool = false;
    let mut has_dig: bool = false;
    let mut i: usize = 0;
    while i < n
        invariant
            n == v@.len(),
            i <= n,
            has_up == exists|j: int| 0 <= j < i && is_upper_char(#[trigger] v@[j]),
            has_low == exists|j: int| 0 <= j < i && is_lower_char(#[trigger] v@[j]),
            has_dig == exists|j: int| 0 <= j < i && is_ascii_digit(#[trigger] v@[j]),
        decreases n - i,
    {
        let c = v[i];
        if char_is_uppercase(c) {
            has_up = true;
        }
        if char_is_lowercase(c) {
            has_low = true;
        }
        if '0' <= c && c <= '9' {
            has_dig = true;
        }
        i = i + 1;
    }
    if !has_up {
        return ValidationResult::new(
            false,
            String::from_str("Password must contain at least one uppercase letter"),
        );
    }
    if !has_low {
        return ValidationResult::new(
            false,
            String::from_str("Password must contain at least one lowercase letter"),
        );
    }
    if !has_dig {
        return ValidationResult::new(
            false,
            String::from_str("Password must contain at least one digit"),
        );
    }
    ValidationResult::new(true, String::from_str("Valid password"))
}

/// The numeric value of a string of decimal digits.
pub open spec fn dec_value(d: Seq<char>) -> int
    decreases d.len(),
{
    if d.len() == 0 {
        0
    } else {
        dec_value(d.drop_last()) * 10 + (d.last() as u32 - '0' as u32)
    }
}

/// Every character of `d` is a decimal digit.
pub open spec fn all_ascii_digits(d: Seq<char>) -> bool {
    forall|i: int| 0 <= i < d.len() ==> is_ascii_digit(#[trigger] d[i])
}

/// `p` reads as a `u8` the way std's unsigned parsing does: an optional
/// leading `+`, then at least one digit, with numeric value at most 255.
pub open spec fn parses_as_u8(p: Seq<char>) -> bool {
    let d = if p.len() > 0 && p[0] == '+' {
        p.drop_first()
    } else {
        p
    };
    d.len() > 0 && all_ascii_digits(d) && dec_value(d) <= 255
}

/// The parts of `s` between dots, in order. Splitting the empty string
/// gives one empty part, as std's `split` does.
pub open spec fn split_dots(s: Seq<char>) -> Seq<Seq<char>>
    decreases s.len(),
{
    if s.len() == 0 {
        seq![Seq::<char>::empty()]
    } else if s[0] == '.' {
        seq![Seq::<char>::empty()] + split_dots(s.drop_first())
    } else {
        let rest = split_dots(s.drop_first());
        seq![seq![s[0]] + rest[0]] + rest.drop_first()
    }
}

proof fn lemma_split_dots_nonempty(s: Seq<char>)
    ensures
        split_dots(s).len() >= 1,
    decreases s.len(),
{
    if s.len() > 0 {
        lemma_split_dots_nonempty(s.drop_first());
    }
}

/// Splitting off the first part: with no dot before `k`, and `k` either a
/// dot or the end, the parts of `s` are `s` up to `k` followed by the parts
/// of what comes after the dot.
proof fn lemma_split_dots_first_part(s: Seq<char>, k: int)
    requires
        0 <= k <= s.len(),
        forall|j: int| 0 <= j < k ==> s[j] != '.',
        k == s.len() || s[k] == '.',
    ensures
        k == s.len() ==> split_dots(s) == seq![s],
        k < s.len() ==> split_dots(s) == seq![s.take(k)] + split_dots(s.skip(k + 1)),
    decreases s.len(),
{
    lemma_split_dots_nonempty(s);
    if s.len() == 0 {
        assert(s =~= Seq::<char>::empty());
        assert(split_dots(s) =~= seq![s]);
    } else if k == 0 {
        if k < s.len() {
            assert(s[0] == '.');
            assert(s.take(0) =~= Seq::<char>::empty());
            assert(s.skip(1) =~= s.drop_first());
            assert(split_dots(s) =~= seq![s.take(0)] + split_dots(s.skip(1)));
        }
    } else {
        assert(s[0] != '.');
        let t = s.drop_first();
        assert(forall|j: int| 0 <= j < k - 1 ==> #[trigger] t[j] == s[j + 1]);
        lemma_split_dots_first_part(t, k - 1);
        lemma_split_dots_nonempty(t);
        let rest = split_dots(t);
        assert(split_dots(s) == seq![seq![s[0]] + rest[0]] + rest.drop_first());
        if k == s.len() {
            assert(rest == seq![t]);
            assert(rest[0] == t);
            assert(seq![s[0]] + t =~= s);
            assert(rest.drop_first() =~= Seq::<Seq<char>>::empty());
            assert(seq![seq![s[0]] + rest[0]] + rest.drop_first() =~= seq![s]);
        } else {
            assert(t[k - 1] == s[k]);
            assert(rest == seq![t.take(k - 1)] + split_dots(t.skip(k)));
            assert(rest[0] == t.take(k - 1));
            assert(seq![s[0]] + t.take(k - 1) =~= s.take(k));
            assert(t.skip(k) =~= s.skip(k + 1));
            assert(rest.drop_first() =~= split_dots(s.skip(k + 1)));
            assert(seq![seq![s[0]] + rest[0]] + rest.drop_first() =~= seq![s.take(k)] + split_dots(
                s.skip(k + 1),
            ));
        }
    }
}

/// Whether one dot-separated part reads as a `u8`.
fn check_u8_part(v: &Vec<char>, from: usize, to: usize) -> (r: bool)
    requires
        from <= to <= v@.len(),
    ensures
        r == parses_as_u8(v@.subrange(from as int, to as int)),
{
    let ghost p = v@.subrange(from as int, to as int);
    let mut j: usize = from;
    if to > from && v[from] == '+' {
        proof {
            assert(p[0] == v@[from as int]);
        }
        j = from + 1;
    }
    let ghost d = v@.subrange(j as int, to as int);
    proof {
        if p.len() > 0 && p[0] == '+' {
            assert(d =~= p.drop_first());
        } else {
            assert(d =~= p);
        }
    }
    if j == to {
        return false;
    }
    let start = j;
    let mut value: u32 = 0;
    let mut i: usize = j;
    proof {
        assert(d.len() > 0);
    }
    while i < to
        invariant
            start <= i <= to <= v@.len(),
            d == v@.subrange(start as int, to as int),
            parses_as_u8(v@.subrange(from as int, to as int)) == (all_ascii_digits(d) && dec_value(
                d,
            ) <= 255),
            all_ascii_digits(v@.subrange(start as int, i as int)),
            ({
                let dv = dec_value(v@.subrange(start as int, i as int));
                (dv <= 255 ==> value == dv) && (dv > 255 ==> 255 < value <= 2559)
            }),
        decreases to - i,
    {
        let c = v[i];
        if !('0' <= c && c <= '9') {
            proof {
                assert(d[i - start] == v@[i as int]);
                assert(!is_ascii_digit(c));
            }
            return false;
        }
        proof {
            let pre = v@.subrange(start as int, i as int);
            let ext = v@.subrange(start as int, i + 1);
            assert(ext.drop_last() =~= pre);
            assert(ext.last() == v@[i as int]);
            assert(is_ascii_digit(c));
            assert forall|j: int| 0 <= j < ext.len() implies is_ascii_digit(#[trigger] ext[j]) by {
                if j < pre.len() {
                    assert(ext[j] == pre[j]);
                }
            }
        }
        let digit = (c as u32) - ('0' as u32);
        if value <= 255 {
            value = value * 10 + digit;
        }
        i = i + 1;
    }
    proof {
        assert(v@.subrange(start as int, to as int) == d);
    }
    value <= 255
}

/// An acceptable IPv4 address in dotted decimal form: four dot-separated
/// parts, each reading as a `u8`.
pub open spec fn spec_valid_ipv4(s: Seq<char>) -> bool {
    &&& split_dots(s).len() == 4
    &&& forall|i: int| 0 <= i < 4 ==> parses_as_u8(#[trigger] split_dots(s)[i])
}

/// Checks the dotted-decimal shape of an IPv4 address: four parts, each of
/// which parses as a byte.
pub fn validate_ip_address(ip: &str) -> (r: ValidationResult)
    ensures
        r.is_valid == spec_valid_ipv4(ip@),
        r.message@ == if spec_valid_ipv4(ip@) {
            "Valid IP address"@
        } else {
            "Invalid IP address format"@
        },
{
    let v = chars_vec(ip);
    let n = v.len();
    let mut pos: usize = 0;
    let mut cnt: usize = 0;
    let mut all_ok: bool = true;
    let mut done: bool = false;
    let ghost mut seen: Seq<Seq<char>> = Seq::empty();
    proof {
        assert(v@.skip(0) == v@);
        assert(seen + split_dots(v@) =~= split_dots(v@));
    }
    while !done
        invariant
            n == v@.len(),
            pos <= n,
            !done ==> split_dots(v@) == seen + split_dots(v@.skip(pos as int)),
            done ==> split_dots(v@) == seen,
            seen.len() <= 5 ==> cnt == seen.len(),
            seen.len() > 5 ==> cnt == 5,
            all_ok == (forall|i: int| 0 <= i < seen.len() ==> parses_as_u8(#[trigger] seen[i])),
        decreases
            (if done {
                0int
            } else {
                1int
            }),
            n - pos,
    {
        match find_char_from(&v, pos, '.') {
            Option::Some(k) => {
                let ok = check_u8_part(&v, pos, k);
                all_ok = all_ok && ok;
                proof {
                    let u = v@.skip(pos as int);
                    assert(forall|j: int| 0 <= j < k - pos ==> #[trigger] u[j] == v@[j + pos]);
                    assert(u[k - pos] == v@[k as int]);
                    lemma_split_dots_first_part(u, k - pos);
                    assert(u.take(k - pos) =~= v@.subrange(pos as int, k as int));
                    assert(u.skip(k - pos + 1) =~= v@.skip(k + 1));
                    let part = v@.subrange(pos as int, k as int);
                    assert(split_dots(v@) =~= (seen + seq![part]) + split_dots(v@.skip(k + 1)));
                    let grown = seen + seq![part];
                    assert(forall|i: int| 0 <= i < seen.len() ==> #[trigger] grown[i] == seen[i]);
                    assert(grown[seen.len() as int] == part);
                    if all_ok && ok {
                        assert forall|i: int| 0 <= i < grown.len() implies parses_as_u8(
                            #[trigger] grown[i],
                        ) by {
                            if i < seen.len() {
                                assert(grown[i] == seen[i]);
                            }
                        }
                    } else if !ok {
                        assert(!parses_as_u8(grown[seen.len() as int]));
                    } else {
                        let i0 = choose|i: int|
                            0 <= i < seen.len() && !parses_as_u8(#[trigger] seen[i]);
                        assert(!parses_as_u8(grown[i0]));
                    }
                    assert((all_ok && ok) == (forall|i: int|
                        0 <= i < grown.len() ==> parses_as_u8(#[trigger] grown[i])));
                    seen = grown;
                }
                if cnt < 5 {
                    cnt = cnt + 1;
                }
                pos = k + 1;
            },
            Option::None => {
                let ok = check_u8_part(&v, pos, n);
                all_ok = all_ok && ok;
                proof {
                    let u = v@.skip(pos as int);
                    assert(forall|j: int| 0 <= j < n - pos ==> #[trigger] u[j] == v@[j + pos]);
                    lemma_split_dots_first_part(u, n - pos);
                    let part = v@.subrange(pos as int, n as int);
                    assert(u =~= part);
                    assert(split_dots(u) == seq![u]);
                    assert(split_dots(v@) =~= seen + seq![part]);
                    let grown = seen + seq![part];
                    assert(forall|i: int| 0 <= i < seen.len() ==> #[trigger] grown[i] == seen[i]);
                    assert(grown[seen.len() as int] == part);
                    if all_ok && ok {
                        assert forall|i: int| 0 <= i < grown.len() implies parses_as_u8(
                            #[trigger] grown[i],
                        ) by {
                            if i < seen.len() {
                                assert(grown[i] == seen[i]);
                            }
                        }
                    } else if !ok {
                        assert(!parses_as_u8(grown[seen.len() as int]));
                    } else {
                        let i0 = choose|i: int|
                            0 <= i < seen.len() && !parses_as_u8(#[trigger] seen[i]);
                        assert(!parses_as_u8(grown[i0]));
                    }
                    assert((all_ok && ok) == (forall|i: int|
                        0 <= i < grown.len() ==> parses_as_u8(#[trigger] grown[i])));
                    seen = grown;
                }
                if cnt < 5 {
                    cnt = cnt + 1;
                }
                done = true;
            },
        }
    }
    if cnt == 4 && all_ok {
        ValidationResult::new(true, String::from_str("Valid IP address"))
    } else {
        ValidationResult::new(false, String::from_str("Invalid IP address format"))
    }
}

/// Whether an upload was made without a signed-in account.
pub fn is_anonymous_upload(user_id: Option<String>) -> (r: bool)
    ensures
        r == (user_id is None),
{
    user_id.is_none()
}

/// Returns the timestamp unchanged; display formatting is left to the host
/// layer.
pub fn format_timestamp(timestamp: &str) -> (r: String)
    ensures
        r@ == timestamp@,
{
    String::from_str(timestamp)
}

} // verus!
