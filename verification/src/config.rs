//! Server settings, read from the environment.

use vstd::prelude::*;

verus! {

/// The settings the server starts with.
pub struct Config {
    pub database_url: String,
    pub server_port: u16,
    pub environment: String,
}

/// Why the settings could not be formed.
#[derive(PartialEq, Eq, Structural, Clone, Copy, Debug)]
pub enum ConfigError {
    MissingDatabaseUrl,
    MissingPort,
    InvalidPort,
    MissingEnvironment,
}

pub open spec fn is_digit(c: char) -> bool {
    '0' <= c && c <= '9'
}

pub open spec fn digit_value(c: char) -> nat {
    (c as int - '0' as int) as nat
}

/// The number that a string of decimal digits spells.
pub open spec fn decimal_value(s: Seq<char>) -> nat
    decreases s.len(),
{
    if s.len() == 0 {
        0
    } else {
        decimal_value(s.drop_last()) * 10 + digit_value(s.last())
    }
}

pub open spec fn all_digits(s: Seq<char>) -> bool {
    forall|i: int| 0 <= i < s.len() ==> is_digit(#[trigger] s[i])
}

/// The digits of a port number: the text without one leading `+`.
pub open spec fn port_digits(s: Seq<char>) -> Seq<char> {
    if s.len() > 0 && s[0] == '+' {
        s.drop_first()
    } else {
        s
    }
}

/// How `str::parse::<u16>` reads a string: an optional `+`, then one or more
/// decimal digits and nothing else, spelling a number that fits 16 bits.
pub open spec fn parsed_port(s: Seq<char>) -> Option<u16> {
    let d = port_digits(s);
    if d.len() > 0 && all_digits(d) && decimal_value(d) <= 65535 {
        Some(decimal_value(d) as u16)
    } else {
        None
    }
}

/// A longer string of digits spells at least as much as any of its prefixes.
proof fn lemma_decimal_value_prefix(s: Seq<char>, k: int)
    requires
        0 <= k <= s.len(),
        all_digits(s),
    ensures
        decimal_value(s.subrange(0, k)) <= decimal_value(s),
    decreases s.len() - k,
{
    if k < s.len() {
        lemma_decimal_value_prefix(s, k + 1);
        let p = s.subrange(0, k + 1);
        assert(p.drop_last() =~= s.subrange(0, k));
        assert(is_digit(s[k]));
    } else {
        assert(s.subrange(0, k) =~= s);
    }
}

/// Reads a port number as `str::parse::<u16>` does.
pub fn parse_port(text: &str) -> (port: Option<u16>)
    ensures
        port == parsed_port(text@),
{
    let n = text.unicode_len();
    let ghost d = port_digits(text@);
    let mut start: usize = 0;
    if n > 0 && text.get_char(0) == '+' {
        start = 1;
    }
    if start == n {
        return None;
    }
    assert(d =~= text@.subrange(start as int, n as int));
    let mut value: u32 = 0;
    let mut i: usize = start;
    while i < n
        invariant
            n == text@.len(),
            start <= i <= n,
            d == port_digits(text@),
            d =~= text@.subrange(start as int, n as int),
            value <= 65535,
            value == decimal_value(d.subrange(0, i - start)),
            all_digits(d.subrange(0, i - start)),
        decreases n - i,
    {
        let c = text.get_char(i);
        if c < '0' || c > '9' {
            assert(d[i - start] == c);
            assert(!is_digit(d[i - start]));
            assert(!all_digits(d));
            return None;
        }
        let digit = (c as u32) - ('0' as u32);
        let ghost prefix = d.subrange(0, i + 1 - start);
        assert(prefix.drop_last() =~= d.subrange(0, i - start));
        assert(prefix.last() == c);
        let next = value * 10 + digit;
        if next > 65535 {
            proof {
                if all_digits(d) {
                    lemma_decimal_value_prefix(d, i + 1 - start);
                }
            }
            return None;
        }
        value = next;
        i = i + 1;
        assert(all_digits(d.subrange(0, i - start))) by {
            assert forall|j: int| 0 <= j < i - start implies is_digit(
                #[trigger] d.subrange(0, i - start)[j],
            ) by {
                if j < i - 1 - start {
                    assert(d.subrange(0, i - start)[j] == d.subrange(0, i - 1 - start)[j]);
                }
            }
        }
    }
    assert(d.subrange(0, n - start) =~= d);
    Some(value as u16)
}

/// The first of the settings' values that is missing or malformed, if any.
pub open spec fn config_error(
    database_url: Option<String>,
    port: Option<String>,
    environment: Option<String>,
) -> Option<ConfigError> {
    if database_url is None {
        Some(ConfigError::MissingDatabaseUrl)
    } else if port is None {
        Some(ConfigError::MissingPort)
    } else if parsed_port(port->0@) is None {
        Some(ConfigError::InvalidPort)
    } else if environment is None {
        Some(ConfigError::MissingEnvironment)
    } else {
        None
    }
}

impl Config {
    /// Forms the settings from the values of `DATABASE_URL`, `PORT` and
    /// `ENVIRONMENT`, checked in that order.
    pub fn from_values(
        database_url: Option<String>,
        port: Option<String>,
        environment: Option<String>,
    ) -> (res: Result<Config, ConfigError>)
        ensures
            res is Err <==> config_error(database_url, port, environment) is Some,
            res matches Err(e) ==> config_error(database_url, port, environment) == Some(e),
            res matches Ok(c) ==> {
                &&& database_url == Some(c.database_url)
                &&& port matches Some(p) && parsed_port(p@) == Some(c.server_port)
                &&& environment == Some(c.environment)
            },
    {
        let database_url = match database_url {
            Some(url) => url,
            None => return Err(ConfigError::MissingDatabaseUrl),
        };
        let server_port = match port {
            Some(p) => match parse_port(p.as_str()) {
                Some(v) => v,
                None => return Err(ConfigError::InvalidPort),
            },
            None => return Err(ConfigError::MissingPort),
        };
        let environment = match environment {
            Some(e) => e,
            None => return Err(ConfigError::MissingEnvironment),
        };
        Ok(Config { database_url, server_port, environment })
    }
}

} // verus!
