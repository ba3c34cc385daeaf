//! Service configuration assembled from the host environment. The host
//! layer reads the raw environment variables; `Config::from_parts` applies
//! the required/optional rules, the defaults, and the number parsing.
use vstd::prelude::*;

use crate::text::chars_vec;
use crate::utils::all_ascii_digits;
use crate::utils::dec_value;

verus! {

pub struct DatabaseConfig {
    pub url: String,
    pub max_connections: u32,
}

pub struct RedisConfig {
    pub url: String,
    pub token: String,
}

pub struct StorageConfig {
    pub account_id: String,
    pub access_key_id: String,
    pub secret_access_key: String,
    pub bucket_name: String,
    pub endpoint: String,
}

pub struct EmailConfig {
    pub api_key: String,
    pub from_email: String,
    pub from_name: String,
}

pub struct JwtConfig {
    pub secret: String,
    pub expires_in: i64,
}

/// The assembled service configuration.
pub struct Config {
    pub database: DatabaseConfig,
    pub redis: RedisConfig,
    pub storage: StorageConfig,
    pub email: EmailConfig,
    pub jwt: JwtConfig,
}

/// How a string reads as a `u32` under std's unsigned parsing: an optional
/// leading `+`, then at least one digit, value within range.
pub open spec fn spec_parse_u32(s: Seq<char>) -> Option<u32> {
    let d = if s.len() > 0 && s[0] == '+' {
        s.drop_first()
    } else {
        s
    };
    if d.len() > 0 && all_ascii_digits(d) && dec_value(d) <= u32::MAX {
        Option::Some(dec_value(d) as u32)
    } else {
        Option::None
    }
}

/// How a string reads as an `i64` under std's signed parsing: an optional
/// leading `+` or `-`, then at least one digit, value within range.
pub open spec fn spec_parse_i64(s: Seq<char>) -> Option<i64> {
    if s.len() > 0 && (s[0] == '+' || s[0] == '-') {
        let d = s.drop_first();
        let neg = s[0] == '-';
        if d.len() > 0 && all_ascii_digits(d) && (if neg {
            dec_value(d) <= 0x8000_0000_0000_0000
        } else {
            dec_value(d) <= i64::MAX
        }) {
            Option::Some(
                if neg {
                    (-dec_value(d)) as i64
                } else {
                    dec_value(d) as i64
                },
            )
        } else {
            Option::None
        }
    } else {
        if s.len() > 0 && all_ascii_digits(s) && dec_value(s) <= i64::MAX {
            Option::Some(dec_value(s) as i64)
        } else {
            Option::None
        }
    }
}

/// Scans `v` from `start` on: all digits, with the running value compared
/// against `bound`. Reports the digits' value, capped just above `bound`.
fn scan_digits(v: &Vec<char>, start: usize, bound: u128) -> (r: Option<u128>)
    requires
        start <= v@.len(),
        bound <= 0x8000_0000_0000_0000,
    ensures
        match r {
            Option::Some(value) => {
                let d = v@.skip(start as int);
                &&& d.len() > 0
                &&& all_ascii_digits(d)
                &&& (dec_value(d) <= bound ==> value == dec_value(d))
                &&& (dec_value(d) > bound ==> value > bound)
            },
            Option::None => {
                let d = v@.skip(start as int);
                !(d.len() > 0 && all_ascii_digits(d))
            },
        },
{
    let n = v.len();
    if start == n {
        return None;
    }
    let ghost d = v@.skip(start as int);
    let mut value: u128 = 0;
    let mut i: usize = start;
    while i < n
        invariant
            start <= i <= n,
            n == v@.len(),
            d == v@.skip(start as int),
            bound <= 0x8000_0000_0000_0000,
            all_ascii_digits(v@.subrange(start as int, i as int)),
            ({
                let dv = dec_value(v@.subrange(start as int, i as int));
                (dv <= bound ==> value == dv) && (dv > bound ==> bound < value <= bound * 10 + 9)
            }),
        decreases n - i,
    {
        let c = v[i];
        if !('0' <= c && c <= '9') {
            proof {
                assert(d[i - start] == v@[i as int]);
                assert(!crate::text::is_ascii_digit(c));
            }
            return None;
        }
        proof {
            let pre = v@.subrange(start as int, i as int);
            let ext = v@.subrange(start as int, i + 1);
            assert(ext.drop_last() =~= pre);
            assert(ext.last() == v@[i as int]);
            assert forall|j: int| 0 <= j < ext.len() implies crate::text::is_ascii_digit(
                #[trigger] ext[j],
            ) by {
                if j < pre.len() {
                    assert(ext[j] == pre[j]);
                }
            }
        }
        let digit = ((c as u32) - ('0' as u32)) as u128;
        if value <= bound {
            value = value * 10 + digit;
        }
        i = i + 1;
    }
    proof {
        assert(v@.subrange(start as int, n as int) =~= d);
    }
    Some(value)
}

/// Parses a `u32` the way std's unsigned parsing reads it.
pub fn parse_u32(s: &str) -> (r: Option<u32>)
    ensures
        r == spec_parse_u32(s@),
{
    let v = chars_vec(s);
    let mut start: usize = 0;
    if v.len() > 0 && v[0] == '+' {
        start = 1;
    }
    proof {
        if s@.len() > 0 && s@[0] == '+' {
            assert(v@.skip(1) =~= s@.drop_first());
        } else {
            assert(v@.skip(0) =~= s@);
        }
    }
    match scan_digits(&v, start, u32::MAX as u128) {
        Option::None => None,
        Option::Some(value) => {
            if value <= u32::MAX as u128 {
                Some(value as u32)
            } else {
                None
            }
        },
    }
}

/// Parses an `i64` the way std's signed parsing reads it.
pub fn parse_i64(s: &str) -> (r: Option<i64>)
    ensures
        r == spec_parse_i64(s@),
{
    let v = chars_vec(s);
    let mut start: usize = 0;
    let mut neg: bool = false;
    if v.len() > 0 && (v[0] == '+' || v[0] == '-') {
        start = 1;
        neg = v[0] == '-';
    }
    proof {
        if s@.len() > 0 && (s@[0] == '+' || s@[0] == '-') {
            assert(v@.skip(1) =~= s@.drop_first());
        } else {
            assert(v@.skip(0) =~= s@);
        }
    }
    let bound: u128 = if neg {
        0x8000_0000_0000_0000
    } else {
        i64::MAX as u128
    };
    match scan_digits(&v, start, bound) {
        Option::None => None,
        Option::Some(value) => {
            if value > bound {
                None
            } else if neg {
                if value == 0x8000_0000_0000_0000 {
                    Some(i64::MIN)
                } else {
                    Some(-((value as u64) as i64))
                }
            } else {
                Some(value as u64 as i64)
            }
        },
    }
}

/// The value of an optional setting that parses as a `u32`, with `d` as the
/// fallback.
pub open spec fn spec_u32_setting(o: Option<String>, d: u32) -> u32 {
    match o {
        Option::None => d,
        Option::Some(s) => match spec_parse_u32(s@) {
            Option::Some(v) => v,
            Option::None => d,
        },
    }
}

/// The value of an optional setting that parses as an `i64`, with `d` as
/// the fallback.
pub open spec fn spec_i64_setting(o: Option<String>, d: i64) -> i64 {
    match o {
        Option::None => d,
        Option::Some(s) => match spec_parse_i64(s@) {
            Option::Some(v) => v,
            Option::None => d,
        },
    }
}

impl Config {
    /// Assembles the configuration from the raw environment values, in the
    /// order the settings are declared: each required value that is absent
    /// stops assembly with its own message, optional values fall back to
    /// their defaults, and the storage endpoint defaults to the account's
    /// standard form.
    pub fn from_parts(
        database_url: Option<String>,
        database_max_connections: Option<String>,
        redis_url: Option<String>,
        redis_token: Option<String>,
        account_id: Option<String>,
        access_key_id: Option<String>,
        secret_access_key: Option<String>,
        bucket_name: Option<String>,
        endpoint: Option<String>,
        email_api_key: Option<String>,
        from_email: Option<String>,
        from_name: Option<String>,
        jwt_secret: Option<String>,
        jwt_expires_in: Option<String>,
    ) -> (r: Result<Config, String>)
        ensures
            r is Ok <==> (database_url is Some && redis_url is Some && redis_token is Some
                && account_id is Some && access_key_id is Some && secret_access_key is Some
                && bucket_name is Some && email_api_key is Some && jwt_secret is Some),
            r matches Err(m) ==> m@ == (if database_url is None {
                "DATABASE_URL not found"@
            } else if redis_url is None {
                "UPSTASH_REDIS_REST_URL not found"@
            } else if redis_token is None {
                "UPSTASH_REDIS_REST_TOKEN not found"@
            } else if account_id is None {
                "CLOUDFLARE_ACCOUNT_ID not found"@
            } else if access_key_id is None {
                "CLOUDFLARE_R2_ACCESS_KEY_ID not found"@
            } else if secret_access_key is None {
                "CLOUDFLARE_R2_SECRET_ACCESS_KEY not found"@
            } else if bucket_name is None {
                "CLOUDFLARE_R2_BUCKET_NAME not found"@
            } else if email_api_key is None {
                "RESEND_API_KEY not found"@
            } else {
                "JWT_SECRET not found"@
            }),
            r matches Ok(c) ==> {
                &&& database_url matches Some(u) && c.database.url == u
                &&& c.database.max_connections == spec_u32_setting(database_max_connections, 10)
                &&& redis_url matches Some(u) && c.redis.url == u
                &&& redis_token matches Some(t) && c.redis.token == t
                &&& account_id matches Some(a) && c.storage.account_id == a
                &&& access_key_id matches Some(k) && c.storage.access_key_id == k
                &&& secret_access_key matches Some(k) && c.storage.secret_access_key == k
                &&& bucket_name matches Some(b) && c.storage.bucket_name == b
                &&& (match endpoint {
                    Option::Some(e) => c.storage.endpoint == e,
                    Option::None => account_id matches Some(a) && c.storage.endpoint@ == "https://"@
                        + a@ + ".r2.cloudflarestorage.com"@,
                })
                &&& email_api_key matches Some(k) && c.email.api_key == k
                &&& (match from_email {
                    Option::Some(e) => c.email.from_email == e,
                    Option::None => c.email.from_email@ == "noreply@neptunium.app"@,
                })
                &&& (match from_name {
                    Option::Some(n) => c.email.from_name == n,
                    Option::None => c.email.from_name@ == "Neptunium"@,
                })
                &&& jwt_secret matches Some(s) && c.jwt.secret == s
                &&& c.jwt.expires_in == spec_i64_setting(jwt_expires_in, 86400)
            },
    {
        let url = match database_url {
            Option::Some(u) => u,
            Option::None => {
                return Err(String::from_str("DATABASE_URL not found"));
            },
        };
        let max_connections: u32 = match &database_max_connections {
            Option::Some(s) => match parse_u32(s.as_str()) {
                Option::Some(v) => v,
                Option::None => 10,
            },
            Option::None => 10,
        };
        let r_url = match redis_url {
            Option::Some(u) => u,
            Option::None => {
                return Err(String::from_str("UPSTASH_REDIS_REST_URL not found"));
            },
        };
        let r_token = match redis_token {
            Option::Some(t) => t,
            Option::None => {
                return Err(String::from_str("UPSTASH_REDIS_REST_TOKEN not found"));
            },
        };
        let acct = match account_id {
            Option::Some(a) => a,
            Option::None => {
                return Err(String::from_str("CLOUDFLARE_ACCOUNT_ID not found"));
            },
        };
        let access_key = match access_key_id {
            Option::Some(k) => k,
            Option::None => {
                return Err(String::from_str("CLOUDFLARE_R2_ACCESS_KEY_ID not found"));
            },
        };
        let secret_key = match secret_access_key {
            Option::Some(k) => k,
            Option::None => {
                return Err(String::from_str("CLOUDFLARE_R2_SECRET_ACCESS_KEY not found"));
            },
        };
        let bucket = match bucket_name {
            Option::Some(b) => b,
            Option::None => {
                return Err(String::from_str("CLOUDFLARE_R2_BUCKET_NAME not found"));
            },
        };
        let ep = match endpoint {
            Option::Some(e) => e,
            Option::None => {
                let mut e = String::from_str("https://");
                e.append(acct.as_str());
                e.append(".r2.cloudflarestorage.com");
                e
            },
        };
        let api_key = match email_api_key {
            Option::Some(k) => k,
            Option::None => {
                return Err(String::from_str("RESEND_API_KEY not found"));
            },
        };
        let from_email_v = match from_email {
            Option::Some(e) => e,
            Option::None => String::from_str("noreply@neptunium.app"),
        };
        let from_name_v = match from_name {
            Option::Some(n) => n,
            Option::None => String::from_str("Neptunium"),
        };
        let secret = match jwt_secret {
            Option::Some(s) => s,
            Option::None => {
                return Err(String::from_str("JWT_SECRET not found"));
            },
        };
        let expires_in: i64 = match &jwt_expires_in {
            Option::Some(s) => match parse_i64(s.as_str()) {
                Option::Some(v) => v,
                Option::None => 86400,
            },
            Option::None => 86400,
        };
        Ok(
            Config {
                database: DatabaseConfig { url, max_connections },
                redis: RedisConfig { url: r_url, token: r_token },
                storage: StorageConfig {
                    account_id: acct,
                    access_key_id: access_key,
                    secret_access_key: secret_key,
                    bucket_name: bucket,
                    endpoint: ep,
                },
                email: EmailConfig {
                    api_key,
                    from_email: from_email_v,
                    from_name: from_name_v,
                },
                jwt: JwtConfig { secret, expires_in },
            },
        )
    }
}

} // verus!
