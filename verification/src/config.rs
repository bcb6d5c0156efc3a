//! The settings that the process starts with.

use vstd::prelude::*;
use vstd::utf8::encode_utf8;

use crate::models::UserView;
use crate::store::Users;
use crate::token::TokenService;

verus! {

/// The settings of a running instance.
#[derive(Debug, Clone)]
pub struct Config {
    pub database_url: String,
    /// The key that tokens are signed with.
    pub jwt_secret: String,
    /// The hours that a token lives.
    pub jwt_maxage: i64,
    pub port: u16,
}

/// Which setting could not be read as a number of its kind.
#[derive(Debug, Clone, Copy, PartialEq, Eq)]
pub enum ConfigError {
    InvalidMaxAge,
    InvalidPort,
}

/// What the handlers of a running instance share: the settings and the
/// identities.
pub struct AppState {
    pub env: Config,
    pub db_client: Users,
}

impl AppState {
    /// The state of an instance that starts with the settings `env` and
    /// knows no identity yet.
    pub fn new(env: Config) -> (state: AppState)
        ensures
            state.env == env,
            state.db_client@ == Seq::<UserView>::empty(),
            state.db_client.wf(),
    {
        AppState { env, db_client: Users::new() }
    }
}

/// Whether `c` is a decimal digit.
pub open spec fn is_digit(c: char) -> bool {
    '0' <= c && c <= '9'
}

/// Whether `text` is made of decimal digits alone.
pub open spec fn all_digits(text: Seq<char>) -> bool {
    forall|i: int| 0 <= i < text.len() ==> is_digit(#[trigger] text[i])
}

/// The number that the decimal digits `digits` write.
pub open spec fn digits_value(digits: Seq<char>) -> nat
    decreases digits.len(),
{
    if digits.len() == 0 {
        0
    } else {
        digits_value(digits.drop_last()) * 10 + (digits.last() as nat - '0' as nat) as nat
    }
}

/// The part of `text` behind its sign, if it has one.
pub open spec fn unsigned_part(text: Seq<char>) -> Seq<char> {
    if text.len() > 0 && (text[0] == '-' || text[0] == '+') {
        text.skip(1)
    } else {
        text
    }
}

/// The integer that `text` writes: an optional `+` or `-`, then one decimal
/// digit or more, and nothing else.
pub open spec fn written_integer(text: Seq<char>) -> Option<int> {
    let digits = unsigned_part(text);
    if digits.len() == 0 || !all_digits(digits) {
        None
    } else if text[0] == '-' {
        Some(-(digits_value(digits) as int))
    } else {
        Some(digits_value(digits) as int)
    }
}

/// The `i64` that `text` writes, if it writes an integer of that range.
pub open spec fn written_i64(text: Seq<char>) -> Option<i64> {
    match written_integer(text) {
        Some(value) => if i64::MIN <= value <= i64::MAX {
            Some(value as i64)
        } else {
            None
        },
        None => None,
    }
}

/// The `u16` that `text` writes, if it writes an integer of that range
/// without a minus sign.
pub open spec fn written_u16(text: Seq<char>) -> Option<u16> {
    match written_integer(text) {
        Some(value) => if 0 <= value <= u16::MAX && text[0] != '-' {
            Some(value as u16)
        } else {
            None
        },
        None => None,
    }
}

/// The number that digits write grows with every digit that follows.
pub proof fn lemma_digits_value_grows(digits: Seq<char>, n: int)
    requires
        0 <= n <= digits.len(),
    ensures
        digits_value(digits.take(n)) <= digits_value(digits),
    decreases digits.len() - n,
{
    if n == digits.len() {
        assert(digits.take(n) =~= digits);
    } else {
        lemma_digits_value_grows(digits, n + 1);
        assert(digits.take(n + 1).drop_last() =~= digits.take(n));
    }
}

/// Reads the digits of `text` from position `start` on as a number up to
/// `limit`. `None` where there is no digit, where something else than a
/// digit occurs, and where the number is larger.
fn read_digits(text: &str, start: usize, limit: u128) -> (value: Option<u128>)
    requires
        start <= text@.len(),
        limit <= u64::MAX,
    ensures
        value == if text@.len() - start > 0 && all_digits(text@.skip(start as int))
            && digits_value(text@.skip(start as int)) <= limit {
            Some(digits_value(text@.skip(start as int)) as u128)
        } else {
            None
        },
{
    let n = text.unicode_len();
    if start == n {
        return None;
    }
    let ghost digits = text@.skip(start as int);
    let mut value: u128 = 0;
    let mut i: usize = start;
    assert(digits.take(0) =~= Seq::<char>::empty());
    while i < n
        invariant
            start <= i <= n,
            start < n,
            n == text@.len(),
            limit <= u64::MAX,
            digits == text@.skip(start as int),
            all_digits(digits.take(i - start)),
            value == digits_value(digits.take(i - start)),
            value <= limit,
        decreases n - i,
    {
        let c = text.get_char(i);
        assert(digits[i - start] == c);
        if c < '0' || c > '9' {
            assert(!is_digit(digits[i - start]));
            return None;
        }
        let d = (c as u32 - '0' as u32) as u128;
        assert(digits.take(i - start + 1).drop_last() =~= digits.take(i - start));
        assert(digits.take(i - start + 1).last() == c);
        let next = value * 10 + d;
        if next > limit {
            proof {
                if all_digits(digits) {
                    lemma_digits_value_grows(digits, i - start + 1);
                }
            }
            return None;
        }
        assert forall|k: int| 0 <= k < i - start + 1 implies is_digit(
            #[trigger] digits.take(i - start + 1)[k],
        ) by {
            if k < i - start {
                assert(digits.take(i - start)[k] == digits[k]);
            }
        }
        value = next;
        i += 1;
    }
    assert(digits.take(n - start) =~= digits);
    Some(value)
}

/// Reads `text` as an `i64`, written in decimal with an optional sign.
pub fn parse_i64(text: &str) -> (value: Option<i64>)
    ensures
        value == written_i64(text@),
{
    let n = text.unicode_len();
    if n == 0 {
        return None;
    }
    let first = text.get_char(0);
    if first == '-' {
        match read_digits(text, 1, 0x8000_0000_0000_0000) {
            Some(magnitude) => {
                if magnitude == 0x8000_0000_0000_0000 {
                    Some(i64::MIN)
                } else {
                    Some(-(magnitude as i64))
                }
            },
            None => None,
        }
    } else {
        let start: usize = if first == '+' {
            1
        } else {
            0
        };
        assert(text@.skip(0) =~= text@);
        match read_digits(text, start, 0x7fff_ffff_ffff_ffff) {
            Some(magnitude) => Some(magnitude as i64),
            None => None,
        }
    }
}

/// Reads `text` as a `u16`, written in decimal with an optional `+`.
pub fn parse_u16(text: &str) -> (value: Option<u16>)
    ensures
        value == written_u16(text@),
{
    let n = text.unicode_len();
    if n == 0 {
        return None;
    }
    let first = text.get_char(0);
    if first == '-' {
        return None;
    }
    let start: usize = if first == '+' {
        1
    } else {
        0
    };
    assert(text@.skip(0) =~= text@);
    match read_digits(text, start, 0xffff) {
        Some(value) => Some(value as u16),
        None => None,
    }
}

/// The seconds in an hour.
pub const SECONDS_PER_HOUR: i64 = 3600;

impl Config {
    /// The settings that the four values give: the address of the database
    /// and the key as they are, the lifetime and the port read as numbers.
    /// The lifetime is read first.
    pub fn from_values(
        database_url: String,
        jwt_secret: String,
        jwt_maxage: &str,
        port: &str,
    ) -> (r: Result<Config, ConfigError>)
        ensures
            match (written_i64(jwt_maxage@), written_u16(port@)) {
                (None, _) => r == Err::<Config, ConfigError>(ConfigError::InvalidMaxAge),
                (Some(_), None) => r == Err::<Config, ConfigError>(ConfigError::InvalidPort),
                (Some(maxage), Some(port)) => r == Ok::<Config, ConfigError>(
                    Config { database_url, jwt_secret, jwt_maxage: maxage, port },
                ),
            },
    {
        let jwt_maxage = match parse_i64(jwt_maxage) {
            Some(value) => value,
            None => return Err(ConfigError::InvalidMaxAge),
        };
        let port = match parse_u16(port) {
            Some(value) => value,
            None => return Err(ConfigError::InvalidPort),
        };
        Ok(Config { database_url, jwt_secret, jwt_maxage, port })
    }

    /// The token service that these settings describe: it signs with the
    /// bytes of the key and issues tokens that live for `jwt_maxage` hours.
    /// There is none where that lifetime is not positive or is more seconds
    /// than an `i64` holds.
    pub fn token_service(&self) -> (service: Option<TokenService>)
        ensures
            service is Some <==> 0 < self.jwt_maxage * SECONDS_PER_HOUR <= i64::MAX,
            service matches Some(s) ==> s.wf() && s.lifetime() == self.jwt_maxage
                * SECONDS_PER_HOUR && s.secret() == encode_utf8(self.jwt_secret@),
    {
        match self.jwt_maxage.checked_mul(SECONDS_PER_HOUR) {
            Some(lifetime) => TokenService::new(self.jwt_secret.as_str().as_bytes(), lifetime),
            None => {
                assert(self.jwt_maxage * SECONDS_PER_HOUR < i64::MIN || self.jwt_maxage
                    * SECONDS_PER_HOUR > i64::MAX);
                assert(self.jwt_maxage * SECONDS_PER_HOUR > i64::MAX || self.jwt_maxage
                    * SECONDS_PER_HOUR <= 0);
                None
            },
        }
    }
}

} // verus!
