//! Compact JSON emission for the library's data-transfer objects: decimal
//! rendering of integers, string escaping, and the small building blocks the
//! record serializers are assembled from.
//!
//! Escaping follows the usual compact JSON rules: `"` and `\` get a backslash,
//! the named control characters use their short forms, the remaining control
//! characters become `\u00` followed by two lowercase hex digits, and every
//! other character is passed through unchanged.
use vstd::prelude::*;

use crate::text::chars_vec;
use crate::text::push_char;
use crate::text::DEC_DIGITS;
use crate::text::HEX_LOWER;

verus! {

/// The decimal digits of `n`, most significant first, no leading zeroes
/// (a single `0` for zero).
pub open spec fn spec_dec(n: nat) -> Seq<char>
    decreases n,
{
    if n < 10 {
        seq![DEC_DIGITS@[n as int]]
    } else {
        spec_dec(n / 10) + seq![DEC_DIGITS@[(n % 10) as int]]
    }
}

/// The decimal rendering of a signed number: a `-` sign for negatives,
/// then the digits of its magnitude.
pub open spec fn spec_dec_signed(n: int) -> Seq<char> {
    if n < 0 {
        seq!['-'] + spec_dec((-n) as nat)
    } else {
        spec_dec(n as nat)
    }
}

/// How one character is written inside a JSON string literal.
pub open spec fn json_escape_char(c: char) -> Seq<char> {
    if c == '"' {
        seq!['\\', '"']
    } else if c == '\\' {
        seq!['\\', '\\']
    } else if c == '\u{8}' {
        seq!['\\', 'b']
    } else if c == '\t' {
        seq!['\\', 't']
    } else if c == '\n' {
        seq!['\\', 'n']
    } else if c == '\u{c}' {
        seq!['\\', 'f']
    } else if c == '\r' {
        seq!['\\', 'r']
    } else if (c as u32) < 0x20 {
        seq![
            '\\',
            'u',
            '0',
            '0',
            HEX_LOWER@[((c as u32) as int) / 16],
            HEX_LOWER@[((c as u32) as int) % 16],
        ]
    } else {
        seq![c]
    }
}

/// The body of a JSON string literal holding the characters `s`.
pub open spec fn json_escape(s: Seq<char>) -> Seq<char>
    decreases s.len(),
{
    if s.len() == 0 {
        seq![]
    } else {
        json_escape_char(s[0]) + json_escape(s.drop_first())
    }
}

/// A complete JSON string literal: quotes around the escaped characters.
pub open spec fn json_quoted(s: Seq<char>) -> Seq<char> {
    seq!['"'] + json_escape(s) + seq!['"']
}

/// How an optional string field is written: `null` when absent, a string
/// literal when present.
pub open spec fn json_opt_str(o: Option<String>) -> Seq<char> {
    match o {
        Option::None => "null"@,
        Option::Some(s) => json_quoted(s@),
    }
}

/// How an optional signed number field is written.
pub open spec fn json_opt_dec(o: Option<i64>) -> Seq<char> {
    match o {
        Option::None => "null"@,
        Option::Some(n) => spec_dec_signed(n as int),
    }
}

/// How a boolean field is written.
pub open spec fn json_bool(b: bool) -> Seq<char> {
    if b {
        "true"@
    } else {
        "false"@
    }
}

/// Appends the decimal digits of `n` to `out`.
pub(crate) fn push_dec_u64(out: &mut String, n: u64)
    ensures
        final(out)@ == old(out)@ + spec_dec(n as nat),
    decreases n,
{
    if n < 10 {
        push_char(out, DEC_DIGITS[n as usize]);
    } else {
        push_dec_u64(out, n / 10);
        push_char(out, DEC_DIGITS[(n % 10) as usize]);
        proof {
            assert(final(out)@ =~= old(out)@ + spec_dec(n as nat));
        }
    }
}

/// Appends the decimal rendering of a signed number to `out`.
pub(crate) fn push_dec_i64(out: &mut String, n: i64)
    ensures
        final(out)@ == old(out)@ + spec_dec_signed(n as int),
{
    if n < 0 {
        push_char(out, '-');
        let m: u64 = ((-(n + 1)) as u64) + 1;
        assert(m as int == -(n as int));
        push_dec_u64(out, m);
        proof {
            assert(final(out)@ =~= old(out)@ + spec_dec_signed(n as int));
        }
    } else {
        push_dec_u64(out, n as u64);
    }
}

/// Appends the escaped form of the characters in `v` to `out`.
pub(crate) fn push_json_escaped(out: &mut String, v: &Vec<char>)
    ensures
        final(out)@ == old(out)@ + json_escape(v@),
{
    let n = v.len();
    let mut i: usize = 0;
    proof {
        assert(v@.skip(0) == v@);
    }
    while i < n
        invariant
            n == v@.len(),
            i <= n,
            old(out)@ + json_escape(v@) =~= out@ + json_escape(v@.skip(i as int)),
        decreases n - i,
    {
        let c = v[i];
        proof {
            assert(v@.skip(i as int).drop_first() =~= v@.skip(i + 1));
            assert(v@.skip(i as int)[0] == v@[i as int]);
        }
        if c == '"' {
            push_char(out, '\\');
            push_char(out, '"');
        } else if c == '\\' {
            push_char(out, '\\');
            push_char(out, '\\');
        } else if c == '\u{8}' {
            push_char(out, '\\');
            push_char(out, 'b');
        } else if c == '\t' {
            push_char(out, '\\');
            push_char(out, 't');
        } else if c == '\n' {
            push_char(out, '\\');
            push_char(out, 'n');
        } else if c == '\u{c}' {
            push_char(out, '\\');
            push_char(out, 'f');
        } else if c == '\r' {
            push_char(out, '\\');
            push_char(out, 'r');
        } else if (c as u32) < 0x20 {
            push_char(out, '\\');
            push_char(out, 'u');
            push_char(out, '0');
            push_char(out, '0');
            push_char(out, HEX_LOWER[(c as u32 / 16) as usize]);
            push_char(out, HEX_LOWER[(c as u32 % 16) as usize]);
        } else {
            push_char(out, c);
        }
        proof {
            assert(out@ + json_escape(v@.skip(i + 1)) =~= old(out)@ + json_escape(v@));
        }
        i = i + 1;
    }
    proof {
        assert(json_escape(v@.skip(n as int)) =~= Seq::<char>::empty());
        assert(final(out)@ =~= old(out)@ + json_escape(v@));
    }
}

/// Appends a complete JSON string literal holding `s` to `out`.
pub(crate) fn push_json_str(out: &mut String, s: &str)
    ensures
        final(out)@ == old(out)@ + json_quoted(s@),
{
    let v = chars_vec(s);
    push_char(out, '"');
    push_json_escaped(out, &v);
    push_char(out, '"');
    proof {
        assert(final(out)@ =~= old(out)@ + json_quoted(s@));
    }
}

/// Appends `null` or a JSON string literal to `out`.
pub(crate) fn push_json_opt_str(out: &mut String, o: &Option<String>)
    ensures
        final(out)@ == old(out)@ + json_opt_str(*o),
{
    match o {
        Option::None => {
            out.append("null");
        },
        Option::Some(s) => {
            push_json_str(out, s.as_str());
        },
    }
}

/// Appends `null` or a decimal number to `out`.
pub(crate) fn push_json_opt_dec(out: &mut String, o: &Option<i64>)
    ensures
        final(out)@ == old(out)@ + json_opt_dec(*o),
{
    match o {
        Option::None => {
            out.append("null");
        },
        Option::Some(n) => {
            push_dec_i64(out, *n);
        },
    }
}

/// Appends `true` or `false` to `out`.
pub(crate) fn push_json_bool(out: &mut String, b: bool)
    ensures
        final(out)@ == old(out)@ + json_bool(b),
{
    if b {
        out.append("true");
    } else {
        out.append("false");
    }
}

} // verus!
