//! Instants in UTC, read from text, read from the clock and moved by whole
//! days.

use vstd::prelude::*;

verus! {

/// Seconds in one day. Durations are reported in whole days.
pub const SECONDS_IN_A_DAY: i64 = 86400;

/// An instant in UTC: the whole seconds since the start of 1970, leap seconds
/// not counted, and the nanoseconds into that second.
#[derive(Clone, Copy, Debug, PartialEq, Eq, Structural)]
pub struct Timestamp {
    pub seconds: i64,
    pub nanos: u32,
}

/// `chrono::ParseError`: why a text was refused. It is carried, never looked
/// into.
#[verifier::external_type_specification]
#[verifier::external_body]
pub struct ExParseError(chrono::ParseError);

/// The instant that `chrono::NaiveDateTime::parse_from_str` reads from a text
/// under a format, taken as UTC; `None` where it rejects the text.
pub uninterp spec fn parsed_datetime(text: Seq<char>, format: Seq<char>) -> Option<Timestamp>;

/// The instant that `chrono::DateTime::<Utc>::checked_add_days` gives for an
/// instant and a number of days; `None` where the instant or the sum lies
/// outside the dates that chrono represents.
pub uninterp spec fn days_later(at: Timestamp, days: u64) -> Option<Timestamp>;

/// `chrono::NaiveDateTime::parse_from_str`, the date and time handed back as
/// the UTC instant they denote. The outcome depends on the text and the
/// format alone; the parser reports what it cannot read and never panics.
#[verifier::external_body]
pub(crate) fn parse_datetime(text: &str, format: &str) -> (r: Result<Timestamp, chrono::ParseError>)
    ensures
        match r {
            Ok(at) => parsed_datetime(text@, format@) == Some(at),
            Err(_) => parsed_datetime(text@, format@) is None,
        },
{
    match chrono::NaiveDateTime::parse_from_str(text, format) {
        Ok(t) => Ok(Timestamp { seconds: t.and_utc().timestamp(), nanos: t.and_utc().timestamp_subsec_nanos() }),
        Err(e) => Err(e),
    }
}

/// `chrono::Utc::now`. Nothing is promised of the instant: it is whatever the
/// system clock reads. chrono panics where the clock reads a time before
/// 1970.
#[verifier::external_body]
pub(crate) fn utc_now() -> Timestamp {
    let now = chrono::Utc::now();
    Timestamp { seconds: now.timestamp(), nanos: now.timestamp_subsec_nanos() }
}

/// `chrono::DateTime::<Utc>::checked_add_days` on the instant that
/// `chrono::DateTime::from_timestamp` builds. The outcome depends on the
/// instant and the day count alone. In UTC a day added moves the date and
/// keeps the time of day, so each day counts 86400 seconds and the
/// nanoseconds stay.
#[verifier::external_body]
fn add_days(at: Timestamp, days: u64) -> (r: Option<Timestamp>)
    ensures
        r == days_later(at, days),
        r matches Some(t) ==> t.seconds == at.seconds + 86400 * days && t.nanos == at.nanos,
{
    chrono::DateTime::from_timestamp(at.seconds, at.nanos)
        .and_then(|t| t.checked_add_days(chrono::Days::new(days)))
        .map(|t| Timestamp { seconds: t.timestamp(), nanos: t.timestamp_subsec_nanos() })
}

impl Timestamp {
    /// The instant a number of days of 86400 seconds after this one, where
    /// its seconds can be counted.
    pub open spec fn plus_days(self, days: int) -> Timestamp {
        Timestamp { seconds: (self.seconds + SECONDS_IN_A_DAY * days) as i64, nanos: self.nanos }
    }

    /// Whether the instant a whole number of days after this one lies within
    /// the dates that can be represented.
    pub open spec fn reaches(self, days: u64) -> bool {
        days_later(self, days) is Some
    }

    /// The instant a whole number of days after this one, `None` where that
    /// instant cannot be represented.
    pub fn checked_add_days(self, days: u64) -> (r: Option<Timestamp>)
        ensures
            r == (if self.reaches(days) {
                Some(self.plus_days(days as int))
            } else {
                None
            }),
            r matches Some(t) ==> t.seconds == self.seconds + SECONDS_IN_A_DAY * days,
    {
        add_days(self, days)
    }
}

} // verus!
