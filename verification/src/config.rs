//! Configuration read from the environment: the values that are read, and how
//! each one is interpreted.
//!
//! - `COOLIFY_URL`: whether this instance runs on Coolify, in production.
//! - `DATABASE_URL`: the database to connect to; required.
//! - `DB_ASYNC_POOL_SIZE`: the size of the connection pool; 3 where unset.
use vstd::prelude::*;

use crate::Env;

verus! {

/// The Discord application that users sign in with.
#[derive(Debug, Clone)]
pub struct DiscordConfig {
    pub client_id: String,
    pub client_secret: String,
    /// Where Discord sends users back to after they authorize the application.
    pub redirect_uri: String,
}

/// Base configuration options.
pub struct Base {
    pub env: Env,
}

impl Base {
    /// The base configuration, given the value of `COOLIFY_URL`: production
    /// when it is set, development otherwise.
    pub fn from_coolify_url(coolify_url: Option<String>) -> (b: Base)
        ensures
            b.env == (if coolify_url is Some {
                Env::Production
            } else {
                Env::Development
            }),
    {
        let env = match coolify_url {
            Some(_) => Env::Production,
            _ => Env::Development,
        };
        Base { env }
    }
}

/// The connection pool size used where `DB_ASYNC_POOL_SIZE` is not set.
pub const DEFAULT_POOL_SIZE: u32 = 3;

/// Whether a character is an ASCII decimal digit.
pub open spec fn is_decimal_digit(c: char) -> bool {
    '0' <= c && c <= '9'
}

/// The number that a string of decimal digits writes.
pub open spec fn digits_value(s: Seq<char>) -> int
    decreases s.len(),
{
    if s.len() == 0 {
        0
    } else {
        digits_value(s.drop_last()) * 10 + (s.last() as int - '0' as int)
    }
}

/// The text without its leading `+`, where it has one.
pub open spec fn without_plus(s: Seq<char>) -> Seq<char> {
    if s.len() > 0 && s[0] == '+' {
        s.drop_first()
    } else {
        s
    }
}

/// Whether every character of the text is a decimal digit.
pub open spec fn all_decimal_digits(s: Seq<char>) -> bool {
    forall|i: int| 0 <= i < s.len() ==> is_decimal_digit(#[trigger] s[i])
}

/// The `u32` that a text writes in decimal: an optional `+` sign followed by
/// one or more digits, with a value that fits; nothing else, whitespace
/// included.
pub open spec fn decimal_u32(s: Seq<char>) -> Option<u32> {
    let digits = without_plus(s);
    if digits.len() > 0 && all_decimal_digits(digits) && digits_value(digits) <= u32::MAX {
        Some(digits_value(digits) as u32)
    } else {
        None
    }
}

/// A string of digits writes a number, and at least as much as each of its
/// prefixes.
proof fn lemma_digits_value_grows(t: Seq<char>, k: int)
    requires
        0 <= k <= t.len(),
        forall|i: int| 0 <= i < t.len() ==> is_decimal_digit(#[trigger] t[i]),
    ensures
        0 <= digits_value(t.take(k)) <= digits_value(t),
    decreases t.len(),
{
    if t.len() == 0 {
        assert(t.take(k) =~= t);
    } else {
        let p = t.drop_last();
        assert(forall|i: int| 0 <= i < p.len() ==> p[i] == t[i]);
        assert(is_decimal_digit(t[t.len() - 1]));
        if k < t.len() {
            assert(t.take(k) =~= p.take(k));
            lemma_digits_value_grows(p, k);
        } else {
            lemma_digits_value_grows(p, 0);
            assert(t.take(k) =~= t);
        }
    }
}

/// The `u32` that a text writes in decimal, as `<u32 as FromStr>::from_str`
/// reads it: an optional `+` followed by decimal digits whose value fits.
fn parse_u32(s: &str) -> (r: Option<u32>)
    ensures
        r == decimal_u32(s@),
{
    let n = s.unicode_len();
    let start: usize = if n > 0 && s.get_char(0) == '+' {
        1
    } else {
        0
    };
    let ghost digits = without_plus(s@);
    assert(digits =~= s@.subrange(start as int, n as int));
    if start == n {
        return None;
    }
    let mut acc: u64 = 0;
    let mut i: usize = start;
    assert(digits.take(0) =~= Seq::<char>::empty());
    while i < n
        invariant
            n == s@.len(),
            start <= i <= n,
            digits =~= s@.subrange(start as int, n as int),
            digits == without_plus(s@),
            forall|j: int| 0 <= j < i - start ==> is_decimal_digit(#[trigger] digits[j]),
            acc == digits_value(digits.take(i - start)),
            acc <= u32::MAX,
        decreases n - i,
    {
        let c = s.get_char(i);
        assert(c == digits[i - start]);
        if !('0' <= c && c <= '9') {
            assert(!is_decimal_digit(digits[i - start]));
            return None;
        }
        let d = (c as u32 - '0' as u32) as u64;
        let next = acc * 10 + d;
        let ghost prefix = digits.take(i - start + 1);
        assert(prefix.drop_last() =~= digits.take(i - start));
        assert(prefix.last() == c);
        assert(next == digits_value(prefix));
        if next > 4294967295 {
            proof {
                if all_decimal_digits(digits) {
                    lemma_digits_value_grows(digits, i - start + 1);
                    assert(digits_value(digits) > u32::MAX);
                }
            }
            return None;
        }
        acc = next;
        i = i + 1;
    }
    assert(digits.take(n - start) =~= digits);
    Some(acc as u32)
}

/// What is wrong with the configuration in the environment.
#[derive(Debug, Clone, PartialEq, Eq)]
pub enum ConfigError {
    /// A required variable is not set.
    MissingVariable(String),
    /// A variable is set to a value that cannot be read.
    InvalidVariable(String),
}

/// The database configuration.
pub struct DatabaseConfig {
    pub url: String,
    pub pool_size: u32,
}

impl DatabaseConfig {
    /// The database configuration, given the values of `DATABASE_URL` and
    /// `DB_ASYNC_POOL_SIZE`: the pool size is checked first, and defaults to 3;
    /// the database URL is required.
    pub fn from_values(database_url: Option<String>, pool_size: Option<String>) -> (r: Result<
        DatabaseConfig,
        ConfigError,
    >)
        ensures
            match pool_size {
                Some(p) if decimal_u32(p@) is None => r matches Err(
                    ConfigError::InvalidVariable(name),
                ) && name@ == "DB_ASYNC_POOL_SIZE"@,
                _ => match database_url {
                    None => r matches Err(ConfigError::MissingVariable(name)) && name@
                        == "DATABASE_URL"@,
                    Some(url) => r matches Ok(c) && c.url@ == url@ && c.pool_size == (
                    match pool_size {
                        Some(p) => decimal_u32(p@)->0,
                        None => DEFAULT_POOL_SIZE,
                    }),
                },
            },
    {
        let pool_size = match pool_size {
            Some(p) => match parse_u32(p.as_str()) {
                Some(n) => n,
                None => {
                    return Err(
                        ConfigError::InvalidVariable(String::from_str("DB_ASYNC_POOL_SIZE")),
                    );
                },
            },
            None => DEFAULT_POOL_SIZE,
        };
        match database_url {
            Some(url) => Ok(DatabaseConfig { url, pool_size }),
            None => Err(ConfigError::MissingVariable(String::from_str("DATABASE_URL"))),
        }
    }
}

} // verus!
