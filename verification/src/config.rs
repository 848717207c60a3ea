//! The settings of the service. They are read once, when the service
//! starts, and handed by reference to whatever needs them.

use vstd::prelude::*;
use vstd::string::{StrSliceExecFns, StringExecFns};

verus! {

#[derive(Debug, Clone, PartialEq, Eq)]
pub struct Config {
    pub mongodb_uri: String,
    /// The secret that signs the bearer tokens. Changing it makes every
    /// token that is out invalid.
    pub jwt_secret: String,
    pub port: u16,
    pub openai_api_key: Option<String>,
    pub ai_service_url: String,
}

/// Why the settings could not be read.
#[derive(Debug, Clone, Copy, PartialEq, Eq, Structural)]
pub enum ConfigError {
    /// The port is not a number from 0 to 65535.
    InvalidPort,
}

/// The value of a decimal digit; zero for any other character.
pub open spec fn decimal_digit_of(c: char) -> nat {
    if '0' <= c <= '9' {
        (c as nat - '0' as nat) as nat
    } else {
        0
    }
}

/// Every character of `s` is a decimal digit.
pub open spec fn is_decimal(s: Seq<char>) -> bool {
    forall|i: int| 0 <= i < s.len() ==> '0' <= #[trigger] s[i] <= '9'
}

/// The number that the digits of `s` write.
pub open spec fn decimal_value(s: Seq<char>) -> nat
    decreases s.len(),
{
    if s.len() == 0 {
        0
    } else {
        10 * decimal_value(s.drop_last()) + decimal_digit_of(s.last())
    }
}

/// The text of a port without the plus sign that may stand in front.
pub open spec fn unsigned_part(s: Seq<char>) -> Seq<char> {
    if s.len() > 0 && s[0] == '+' {
        s.subrange(1, s.len() as int)
    } else {
        s
    }
}

/// The port that a text stands for: an optional plus sign, then one or
/// more decimal digits that write a number up to 65535.
pub open spec fn port_of(s: Seq<char>) -> Option<u16> {
    let digits = unsigned_part(s);
    if digits.len() > 0 && is_decimal(digits) && decimal_value(digits) <= 65535 {
        Some(decimal_value(digits) as u16)
    } else {
        None
    }
}

/// The settings that the given values describe. A value that is absent
/// takes its default.
pub open spec fn settings(
    mongodb_uri: Option<String>,
    jwt_secret: String,
    port: Option<String>,
    openai_api_key: Option<String>,
    ai_service_url: Option<String>,
    config: Config,
) -> bool {
    &&& config.mongodb_uri@ == match mongodb_uri {
        Some(uri) => uri@,
        None => "mongodb://localhost:27017/orbix"@,
    }
    &&& config.jwt_secret == jwt_secret
    &&& Some(config.port) == match port {
        Some(text) => port_of(text@),
        None => Some(5000u16),
    }
    &&& config.openai_api_key == openai_api_key
    &&& config.ai_service_url@ == match ai_service_url {
        Some(url) => url@,
        None => "http://localhost:8000"@,
    }
}

/// The digits of a text write at least what the first `k` of them write.
pub proof fn lemma_decimal_prefix(s: Seq<char>, k: int)
    requires
        0 <= k <= s.len(),
    ensures
        decimal_value(s.take(k)) <= decimal_value(s),
    decreases s.len(),
{
    if k == s.len() {
        assert(s.take(k) =~= s);
    } else {
        lemma_decimal_prefix(s.drop_last(), k);
        assert(s.drop_last().take(k) =~= s.take(k));
    }
}

/// Reads a port from its text.
pub fn parse_port(text: &str) -> (port: Option<u16>)
    ensures
        port == port_of(text@),
{
    let len = text.unicode_len();
    if len == 0 {
        return None;
    }
    let start: usize = if text.get_char(0) == '+' {
        1
    } else {
        0
    };
    let ghost digits = unsigned_part(text@);
    if start == len {
        return None;
    }
    let mut acc: u32 = 0;
    let mut i: usize = start;
    proof {
        assert(digits.take(0) =~= Seq::<char>::empty());
    }
    while i < len
        invariant
            start <= i <= len,
            len == text@.len(),
            digits == text@.subrange(start as int, len as int),
            digits == unsigned_part(text@),
            is_decimal(digits.take(i - start)),
            acc == decimal_value(digits.take(i - start)),
            acc <= 65535,
        decreases len - i,
    {
        let c = text.get_char(i);
        let ghost before = digits.take(i - start);
        let ghost after = digits.take(i - start + 1);
        proof {
            assert(digits[i - start] == c);
            assert(after.drop_last() =~= before);
            assert(after.last() == c);
        }
        if !('0' <= c && c <= '9') {
            assert(!is_decimal(digits));
            return None;
        }
        acc = acc * 10 + (c as u32 - '0' as u32);
        assert(acc == decimal_value(after));
        proof {
            assert forall|k: int| 0 <= k < after.len() implies '0' <= #[trigger] after[k] <= '9' by {
                if k < before.len() {
                    assert(after[k] == before[k]);
                }
            }
        }
        if acc > 65535 {
            proof {
                lemma_decimal_prefix(digits, i - start + 1);
                assert(decimal_value(digits) > 65535);
            }
            return None;
        }
        i += 1;
    }
    proof {
        assert(digits.take(i - start) =~= digits);
    }
    Some(acc as u16)
}

impl Config {
    /// Builds the settings from the values found in the environment.
    /// The signing secret has no default: a service without one does
    /// not start. The other values default to a local database, port
    /// 5000, no key, and a local optimisation service.
    pub fn from_env(
        mongodb_uri: Option<String>,
        jwt_secret: String,
        port: Option<String>,
        openai_api_key: Option<String>,
        ai_service_url: Option<String>,
    ) -> (r: Result<Config, ConfigError>)
        ensures
            match r {
                Ok(config) => settings(
                    mongodb_uri,
                    jwt_secret,
                    port,
                    openai_api_key,
                    ai_service_url,
                    config,
                ),
                Err(e) => {
                    &&& e == ConfigError::InvalidPort
                    &&& port matches Some(text)
                    &&& port_of(text@) is None
                },
            },
    {
        let port = match port {
            Some(text) => match parse_port(text.as_str()) {
                Some(p) => p,
                None => {
                    return Err(ConfigError::InvalidPort);
                },
            },
            None => 5000,
        };
        let mongodb_uri = match mongodb_uri {
            Some(uri) => uri,
            None => String::from_str("mongodb://localhost:27017/orbix"),
        };
        let ai_service_url = match ai_service_url {
            Some(url) => url,
            None => String::from_str("http://localhost:8000"),
        };
        Ok(Config { mongodb_uri, jwt_secret, port, openai_api_key, ai_service_url })
    }
}

} // verus!
