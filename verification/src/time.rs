//! Wall-clock readings and absolute instants as plain numbers.
//!
//! Calendar arithmetic and the time-zone database are chrono's and
//! chrono-tz's. This module carries their results as seconds and nanoseconds
//! so that the rest of the crate can reason about them.

use vstd::prelude::*;
use chrono::{DateTime, LocalResult, NaiveDateTime, TimeZone};
use chrono_tz::Tz;

verus! {

/// A calendar date and time of day with no zone attached, counted as the
/// seconds and nanoseconds between 1970-01-01T00:00:00 and the reading on
/// the same zone-less calendar.
#[derive(Debug, Clone, Copy, PartialEq, Eq, Structural)]
pub struct LocalReading {
    pub secs: i64,
    pub nanos: u32,
}

/// An absolute instant: seconds and nanoseconds since 1970-01-01T00:00:00 UTC.
#[derive(Debug, Clone, Copy, PartialEq, Eq, Structural)]
pub struct UtcInstant {
    pub secs: i64,
    pub nanos: u32,
}

/// What `chrono::NaiveDateTime::parse_from_str` makes of `text` under the
/// strftime pattern `format`: the reading, or `None` where it reports an error.
pub uninterp spec fn naive_reading(text: Seq<char>, format: Seq<char>) -> Option<LocalReading>;

/// What a reading on the clocks of a zone comes to.
#[derive(Debug, Clone, Copy, PartialEq, Eq, Structural)]
pub enum Resolution {
    /// The zone's clocks never showed the reading: it falls into a gap, or
    /// beyond what the calendar can hold.
    Missing,
    /// The zone's clocks showed the reading once, at this instant.
    Single(UtcInstant),
    /// The zone's clocks showed the reading twice, at these instants, the
    /// earlier first.
    Fold(UtcInstant, UtcInstant),
}

/// Whether chrono-tz knows a zone by the name: whether its `Tz::from_str`
/// accepts it.
pub uninterp spec fn zone_known(zone: Seq<char>) -> bool;

/// What `chrono::TimeZone::from_local_datetime` makes, for the zone that
/// chrono-tz knows as `zone`, of the reading of `secs` seconds and `nanos`
/// nanoseconds. It says nothing of a name that is no zone's.
pub uninterp spec fn local_resolution(zone: Seq<char>, secs: int, nanos: int) -> Resolution;

/// The reading taken as one of a clock that runs on UTC.
pub open spec fn utc_instant(reading: LocalReading) -> UtcInstant {
    UtcInstant { secs: reading.secs, nanos: reading.nanos }
}

/// Calls `chrono::NaiveDateTime::parse_from_str` and hands the outcome back
/// in numbers. The contract only gives the outcome its name, `naive_reading`:
/// nothing is claimed about which texts chrono accepts.
#[verifier::external_body]
pub(crate) fn parse_reading(text: &str, format: &str) -> (r: Option<LocalReading>)
    ensures
        r == naive_reading(text@, format@),
{
    let at = NaiveDateTime::parse_from_str(text, format).ok()?.and_utc();
    Some(LocalReading { secs: at.timestamp(), nanos: at.timestamp_subsec_nanos() })
}

/// Looks the zone up with chrono-tz's `Tz::from_str`; for a zone that it
/// finds, rebuilds the reading with `chrono::DateTime::from_timestamp` and
/// maps it through `chrono::TimeZone::from_local_datetime`, whose three
/// outcomes it hands back in numbers. The contract gives each of the two
/// outcomes its name, `zone_known` and `local_resolution`, and claims
/// nothing about which names are zones or about any zone's offsets.
#[verifier::external_body]
pub(crate) fn resolve_in_zone(zone: &str, reading: LocalReading) -> (r: Option<Resolution>)
    ensures
        r is Some <==> zone_known(zone@),
        r matches Some(found) ==> found == local_resolution(
            zone@,
            reading.secs as int,
            reading.nanos as int,
        ),
{
    let Ok(tz) = zone.parse::<Tz>() else { return None };
    let Some(at) = DateTime::from_timestamp(reading.secs, reading.nanos) else { return Some(Resolution::Missing) };
    Some(match tz.from_local_datetime(&at.naive_utc()) {
        LocalResult::Single(t) => Resolution::Single(UtcInstant { secs: t.timestamp(), nanos: t.timestamp_subsec_nanos() }),
        LocalResult::Ambiguous(a, b) => Resolution::Fold(
            UtcInstant { secs: a.timestamp(), nanos: a.timestamp_subsec_nanos() },
            UtcInstant { secs: b.timestamp(), nanos: b.timestamp_subsec_nanos() },
        ),
        LocalResult::None => Resolution::Missing,
    })
}

impl LocalReading {
    /// Reads the clock as one that runs on UTC: the numbers stay as they are.
    pub fn to_utc(self) -> (r: UtcInstant)
        ensures
            r == utc_instant(self),
    {
        UtcInstant { secs: self.secs, nanos: self.nanos }
    }
}

} // verus!
