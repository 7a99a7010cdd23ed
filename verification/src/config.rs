//! The settings of the agent, read once at startup.

use crate::error::SyncError;
use crate::error::SyncErrorView;
use vstd::prelude::*;
use vstd::string::*;

verus! {

/// The variable that holds the API token. Required.
pub const TOKEN_VARIABLE: &'static str = "CF_API_TOKEN";

/// The variable that holds the DNS name to keep in sync. Required.
pub const NAME_VARIABLE: &'static str = "DNS_NAME";

/// The variable that holds the pause between two rounds, in milliseconds.
pub const INTERVAL_VARIABLE: &'static str = "DURATION_SLEEP_MS";

/// The pause between two rounds where none is set, in milliseconds.
pub const DEFAULT_INTERVAL_MS: u64 = 5000;

/// Whether a character is a decimal digit.
pub open spec fn is_digit(c: char) -> bool {
    '0' <= c <= '9'
}

/// The number that a decimal digit stands for.
pub open spec fn digit_value(c: char) -> nat
    recommends
        is_digit(c),
{
    (c as nat - '0' as nat) as nat
}

/// The number that a run of decimal digits writes.
pub open spec fn digits_value(digits: Seq<char>) -> nat
    decreases digits.len(),
{
    if digits.len() == 0 {
        0
    } else {
        digits_value(digits.drop_last()) * 10 + digit_value(digits.last())
    }
}

/// The digits of a text that may start with a plus sign.
pub open spec fn unsigned_part(text: Seq<char>) -> Seq<char> {
    if text.len() > 0 && text[0] == '+' {
        text.skip(1)
    } else {
        text
    }
}

/// The number that a text writes in decimal: one or more digits, after a
/// plus sign or none, and nothing else. `None` for any other text, and for
/// a number that does not fit in 64 bits.
pub open spec fn decimal_u64(text: Seq<char>) -> Option<u64> {
    let digits = unsigned_part(text);
    if digits.len() > 0 && (forall|i: int| 0 <= i < digits.len() ==> is_digit(#[trigger] digits[i]))
        && digits_value(digits) <= u64::MAX {
        Some(digits_value(digits) as u64)
    } else {
        None
    }
}

/// The pause that a setting asks for: the number it writes, where it writes
/// a positive one, and the default in every other case.
pub open spec fn interval_of(setting: Option<Seq<char>>) -> u64 {
    match setting {
        Some(text) => match decimal_u64(text) {
            Some(ms) => if ms > 0 {
                ms
            } else {
                DEFAULT_INTERVAL_MS
            },
            None => DEFAULT_INTERVAL_MS,
        },
        None => DEFAULT_INTERVAL_MS,
    }
}

proof fn lemma_digits_grow(digits: Seq<char>, upto: int)
    requires
        0 <= upto <= digits.len(),
    ensures
        digits_value(digits.take(upto)) <= digits_value(digits),
    decreases digits.len(),
{
    if upto == digits.len() {
        assert(digits.take(upto) =~= digits);
    } else {
        assert(digits.drop_last().take(upto) =~= digits.take(upto));
        lemma_digits_grow(digits.drop_last(), upto);
    }
}

/// The number that a character stands for, where it is a decimal digit.
fn read_digit(c: char) -> (value: Option<u64>)
    ensures
        value is Some <==> is_digit(c),
        value matches Some(v) ==> v == digit_value(c),
{
    if c >= '0' && c <= '9' {
        let code: u32 = c as u32;
        Some((code - 48) as u64)
    } else {
        None
    }
}

/// Reads a number written in decimal.
pub fn parse_decimal(text: &str) -> (number: Option<u64>)
    ensures
        number == decimal_u64(text@),
{
    let ghost digits = unsigned_part(text@);
    let len: usize = text.unicode_len();
    let mut value: u64 = 0;
    let mut at: usize = 0;
    let mut signed: bool = false;
    for c in it: text.chars()
        invariant
            len == text@.len(),
            it.seq() == text@,
            at == it.index(),
            digits == unsigned_part(text@),
            signed ==> at >= 1,
            at >= 1 ==> signed == (text@[0] == '+'),
            forall|i: int| 0 <= i < at - (if signed { 1int } else { 0int }) ==> is_digit(#[trigger] digits[i]),
            value == digits_value(digits.take(at - (if signed { 1int } else { 0int }))),
    {
        if at == 0 && c == '+' {
            signed = true;
            assert(digits.take(0) =~= Seq::<char>::empty());
        } else {
            let ghost seen: int = at - (if signed { 1int } else { 0int });
            assert(c == digits[seen]);
            let digit: u64 = match read_digit(c) {
                Some(d) => d,
                None => {
                    return None;
                },
            };
            proof {
                assert(digits.take(seen + 1).drop_last() =~= digits.take(seen));
                assert(digits.take(seen + 1).last() == c);
                lemma_digits_grow(digits, seen + 1);
            }
            match value.checked_mul(10) {
                Some(tens) => match tens.checked_add(digit) {
                    Some(sum) => {
                        value = sum;
                    },
                    None => {
                        return None;
                    },
                },
                None => {
                    return None;
                },
            }
        }
        at = at + 1;
    }
    proof {
        assert(digits.take(digits.len() as int) =~= digits);
    }
    if (signed && at == 1) || at == 0 {
        None
    } else {
        Some(value)
    }
}

/// Chooses the pause between two rounds from what the environment holds
/// for it: the number written there where it is a positive one, and the
/// default otherwise.
pub fn poll_interval(setting: Option<&str>) -> (ms: u64)
    ensures
        ms == interval_of(
            match setting {
                Some(text) => Some(text@),
                None => None,
            },
        ),
        ms > 0,
{
    match setting {
        Some(text) => match parse_decimal(text) {
            Some(ms) => if ms > 0 {
                ms
            } else {
                DEFAULT_INTERVAL_MS
            },
            None => DEFAULT_INTERVAL_MS,
        },
        None => DEFAULT_INTERVAL_MS,
    }
}

/// The settings of one run: fixed at startup, never changed after.
pub struct Config {
    token: String,
    dns_name: String,
    poll_interval_ms: u64,
}

/// A `Config` with its texts as sequences of characters.
pub struct ConfigView {
    pub token: Seq<char>,
    pub dns_name: Seq<char>,
    pub poll_interval_ms: u64,
}

impl View for Config {
    type V = ConfigView;

    closed spec fn view(&self) -> ConfigView {
        ConfigView {
            token: self.token@,
            dns_name: self.dns_name@,
            poll_interval_ms: self.poll_interval_ms,
        }
    }
}

/// The settings that the environment holds, or the required variable that
/// it lacks: the token is looked for first, the name second.
pub open spec fn settings_of(
    token: Option<Seq<char>>,
    dns_name: Option<Seq<char>>,
    interval: Option<Seq<char>>,
) -> Result<ConfigView, SyncErrorView> {
    match token {
        None => Err(SyncErrorView::ConfigError { variable: TOKEN_VARIABLE@ }),
        Some(t) => match dns_name {
            None => Err(SyncErrorView::ConfigError { variable: NAME_VARIABLE@ }),
            Some(n) => Ok(
                ConfigView { token: t, dns_name: n, poll_interval_ms: interval_of(interval) },
            ),
        },
    }
}

impl Config {
    #[verifier::type_invariant]
    spec fn positive_interval(&self) -> bool {
        self.poll_interval_ms > 0
    }

    /// Settings with the given token, name and pause. A pause of zero is
    /// replaced by the default.
    pub fn new(token: String, dns_name: String, poll_interval_ms: u64) -> (config: Config)
        ensures
            config@ == (ConfigView {
                token: token@,
                dns_name: dns_name@,
                poll_interval_ms: if poll_interval_ms > 0 {
                    poll_interval_ms
                } else {
                    DEFAULT_INTERVAL_MS
                },
            }),
    {
        let ms: u64 = if poll_interval_ms > 0 {
            poll_interval_ms
        } else {
            DEFAULT_INTERVAL_MS
        };
        Config { token, dns_name, poll_interval_ms: ms }
    }

    /// Settings from the values of the three variables, each as the
    /// environment holds it or `None` where it is not set. Fails on the
    /// first required variable that is missing.
    pub fn from_settings(
        token: Option<String>,
        dns_name: Option<String>,
        interval: Option<String>,
    ) -> (config: Result<Config, SyncError>)
        ensures
            match config {
                Ok(c) => settings_of(text_of(token), text_of(dns_name), text_of(interval)) == Ok::<
                    ConfigView,
                    SyncErrorView,
                >(c@),
                Err(e) => settings_of(text_of(token), text_of(dns_name), text_of(interval)) == Err::<
                    ConfigView,
                    SyncErrorView,
                >(e@),
            },
    {
        let ms: u64 = match &interval {
            Some(text) => poll_interval(Some(text.as_str())),
            None => poll_interval(None),
        };
        match token {
            None => Err(SyncError::ConfigError { variable: String::from_str(TOKEN_VARIABLE) }),
            Some(t) => match dns_name {
                None => Err(SyncError::ConfigError { variable: String::from_str(NAME_VARIABLE) }),
                Some(n) => Ok(Config { token: t, dns_name: n, poll_interval_ms: ms }),
            },
        }
    }

    /// The API token.
    pub fn token(&self) -> (token: &str)
        ensures
            token@ == self@.token,
    {
        self.token.as_str()
    }

    /// The DNS name to keep in sync.
    pub fn dns_name(&self) -> (name: &str)
        ensures
            name@ == self@.dns_name,
    {
        self.dns_name.as_str()
    }

    /// The pause between two rounds, in milliseconds. Never zero.
    pub fn poll_interval_ms(&self) -> (ms: u64)
        ensures
            ms == self@.poll_interval_ms,
            ms > 0,
    {
        proof {
            use_type_invariant(self);
        }
        self.poll_interval_ms
    }
}

/// The text of an optional string.
pub open spec fn text_of(value: Option<String>) -> Option<Seq<char>> {
    match value {
        Some(s) => Some(s@),
        None => None,
    }
}

} // verus!
