//! The settings of a run, out of the values that the environment holds.
//!
//! Reading the environment is the caller's business. What a value means is
//! decided here: an interval is a count of milliseconds in decimal, and what
//! is not set falls back on its default.

use vstd::prelude::*;
use vstd::string::StrSliceExecFns;
use crate::startup::Settings;

verus! {

/// Milliseconds between a refresh request and the fetch, unless configured.
pub const DEFAULT_FETCH_INTERVAL: u64 = 10000;

/// Milliseconds between a fetch and the next refresh request, unless configured.
pub const DEFAULT_REFRESH_INTERVAL: u64 = 60000;

/// The zone in which a device's clock is read, unless configured.
pub fn default_zone() -> (r: &'static str)
    ensures
        r@ == "Europe/Helsinki"@,
{
    "Europe/Helsinki"
}

/// Whether the character is one of the ten decimal digits.
pub open spec fn is_digit(c: char) -> bool {
    48 <= c as u32 <= 57
}

/// What a decimal digit counts for; zero for any other character.
pub open spec fn digit_value(c: char) -> nat {
    if is_digit(c) {
        (c as u32 - 48) as nat
    } else {
        0
    }
}

/// Whether the text consists of decimal digits alone.
pub open spec fn all_digits(text: Seq<char>) -> bool {
    forall|i: int| 0 <= i < text.len() ==> is_digit(#[trigger] text[i])
}

/// The number that a run of decimal digits denotes.
pub open spec fn numeral(text: Seq<char>) -> nat
    decreases text.len(),
{
    if text.len() == 0 {
        0
    } else {
        numeral(text.drop_last()) * 10 + digit_value(text.last())
    }
}

/// The digits of a count: the text without the plus sign that may lead it.
pub open spec fn unsigned_part(text: Seq<char>) -> Seq<char> {
    if text.len() > 0 && text[0] == '+' {
        text.skip(1)
    } else {
        text
    }
}

/// The count of milliseconds that a text denotes: one or more decimal
/// digits, with or without a leading plus sign, whose number fits into 64
/// bits. Anything else denotes no count.
pub open spec fn millis(text: Seq<char>) -> Option<u64> {
    let digits = unsigned_part(text);
    if digits.len() > 0 && all_digits(digits) && numeral(digits) <= u64::MAX {
        Some(numeral(digits) as u64)
    } else {
        None
    }
}

/// A run of digits denotes at least what any of its beginnings denotes.
proof fn lemma_numeral_grows(text: Seq<char>, length: int)
    requires
        0 <= length <= text.len(),
    ensures
        numeral(text.take(length)) <= numeral(text),
    decreases text.len() - length,
{
    if length == text.len() {
        assert(text.take(length) =~= text);
    } else {
        assert(text.drop_last().take(length) =~= text.take(length));
        lemma_numeral_grows(text.drop_last(), length);
    }
}

/// Reads a count of milliseconds.
pub fn parse_millis(text: &str) -> (r: Option<u64>)
    ensures
        r == millis(text@),
{
    let length = text.unicode_len();
    let mut at: usize = 0;
    if length > 0 && text.get_char(0) == '+' {
        at = 1;
    }
    let start = at;
    let ghost digits = unsigned_part(text@);
    assert(digits =~= text@.skip(start as int));
    if at == length {
        return None;
    }
    let mut value: u64 = 0;
    assert(digits.take(0) =~= Seq::<char>::empty());
    while at < length
        invariant
            start <= at <= length,
            length == text@.len(),
            digits == text@.skip(start as int),
            digits == unsigned_part(text@),
            all_digits(digits.take(at - start)),
            value == numeral(digits.take(at - start)),
        decreases length - at,
    {
        let c = text.get_char(at);
        let code: u32 = c as u32;
        let ghost seen = digits.take(at - start);
        let ghost more = digits.take(at - start + 1);
        assert(more.drop_last() =~= seen);
        assert(more.last() == c);
        assert(digits[at - start] == c);
        if code < 48 || code > 57 {
            assert(!is_digit(digits[at - start]));
            return None;
        }
        let digit: u64 = (code - 48) as u64;
        assert(numeral(more) == value * 10 + digit);
        if value > (u64::MAX - digit) / 10 {
            proof {
                lemma_numeral_grows(digits, at - start + 1);
            }
            return None;
        }
        value = value * 10 + digit;
        at += 1;
        assert forall|i: int| 0 <= i < more.len() implies is_digit(#[trigger] more[i]) by {
            if i < seen.len() {
                assert(more[i] == seen[i]);
            }
        }
    }
    assert(digits.take(at - start) =~= digits);
    Some(value)
}

/// The values of the environment that a run is configured from, each as
/// it stands there or `None` where it is not set.
#[derive(Debug, Clone, PartialEq, Eq)]
pub struct Environment {
    /// `ACCESS_TOKEN`: an access token obtained beforehand.
    pub access_token: Option<String>,
    /// `DEVICE_ID`: the device to watch.
    pub device_id: Option<String>,
    /// `BUILDING_ID`: the building of that device.
    pub building_id: Option<String>,
    /// `CHRONO_TIMEZONE`: the zone in which the device's clock is read.
    pub zone: Option<String>,
    /// `FETCH_INTERVAL`: milliseconds between a refresh request and the fetch.
    pub fetch_interval: Option<String>,
    /// `REFRESH_INTERVAL`: milliseconds between a fetch and the next refresh request.
    pub refresh_interval: Option<String>,
}

/// Which setting cannot be made sense of.
#[derive(Debug, Clone, Copy, PartialEq, Eq, Structural)]
pub enum ConfigError {
    /// `FETCH_INTERVAL` is set and is no count of milliseconds.
    FetchInterval,
    /// `REFRESH_INTERVAL` is set and is no count of milliseconds.
    RefreshInterval,
}

/// The interval that a value of the environment stands for: its count of
/// milliseconds if it is set, the default if it is not.
pub open spec fn interval(value: Option<String>, default: u64) -> Option<u64> {
    match value {
        Some(text) => millis(text@),
        None => Some(default),
    }
}

fn read_interval(value: &Option<String>, default: u64) -> (r: Option<u64>)
    ensures
        r == interval(*value, default),
{
    match value {
        Some(text) => parse_millis(text.as_str()),
        None => Some(default),
    }
}

/// The settings of a run. The intervals default to 10 and 60 seconds and
/// the zone to Europe/Helsinki; an interval that is set and is no count of
/// milliseconds is an error, the fetch interval's first.
pub fn settings(environment: Environment) -> (r: Result<Settings, ConfigError>)
    ensures
        match (
            interval(environment.fetch_interval, DEFAULT_FETCH_INTERVAL),
            interval(environment.refresh_interval, DEFAULT_REFRESH_INTERVAL),
        ) {
            (Some(fetch), Some(refresh)) => {
                &&& r matches Ok(settings)
                &&& settings.token == environment.access_token
                &&& settings.device_id == environment.device_id
                &&& settings.building_id == environment.building_id
                &&& settings.zone@ == match environment.zone {
                    Some(zone) => zone@,
                    None => "Europe/Helsinki"@,
                }
                &&& settings.fetch_interval == fetch
                &&& settings.refresh_interval == refresh
            },
            (None, _) => r == Err::<Settings, ConfigError>(ConfigError::FetchInterval),
            (Some(_), None) => r == Err::<Settings, ConfigError>(ConfigError::RefreshInterval),
        },
{
    let fetch_interval = match read_interval(&environment.fetch_interval, DEFAULT_FETCH_INTERVAL) {
        Some(millis) => millis,
        None => return Err(ConfigError::FetchInterval),
    };
    let refresh_interval = match read_interval(
        &environment.refresh_interval,
        DEFAULT_REFRESH_INTERVAL,
    ) {
        Some(millis) => millis,
        None => return Err(ConfigError::RefreshInterval),
    };
    let zone = match environment.zone {
        Some(zone) => zone,
        None => default_zone().to_owned(),
    };
    Ok(
        Settings {
            token: environment.access_token,
            device_id: environment.device_id,
            building_id: environment.building_id,
            zone,
            fetch_interval,
            refresh_interval,
        },
    )
}

} // verus!
