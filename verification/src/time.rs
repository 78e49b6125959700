//! Points in time and the spans between them, as plain numbers.

use vstd::prelude::*;

verus! {

/// `chrono::ParseError`: why a text was refused. It is passed on unopened.
#[verifier::external_type_specification]
#[verifier::external_body]
pub struct ExParseError(chrono::ParseError);

/// The instant that an RFC 3339 text denotes, as seconds since the Unix epoch
/// and nanoseconds past that second, where `chrono` accepts the text.
pub uninterp spec fn rfc3339_instant(text: Seq<char>) -> Option<(i64, u32)>;

/// The RFC 3339 text that `chrono` writes for an instant in UTC, where it can
/// represent the instant.
pub uninterp spec fn rfc3339_text(secs: i64, nanos: u32) -> Option<Seq<char>>;

/// `DateTime::parse_from_rfc3339`, with the parsed value read back through
/// `timestamp` and `timestamp_subsec_nanos`. The contract only names the result:
/// the same text always parses to the same instant, or is always refused.
#[verifier::external_body]
fn parse_rfc3339(text: &str) -> (r: Result<(i64, u32), chrono::ParseError>)
    ensures
        match r {
            Ok(parts) => rfc3339_instant(text@) == Some(parts),
            Err(_) => rfc3339_instant(text@) is None,
        },
{
    match chrono::DateTime::parse_from_rfc3339(text) {
        Ok(t) => Ok((t.timestamp(), t.timestamp_subsec_nanos())),
        Err(e) => Err(e),
    }
}

/// `DateTime::from_timestamp` followed by `DateTime::to_rfc3339`. The contract
/// only names the result: `None` where `chrono` cannot represent the instant.
#[verifier::external_body]
fn write_rfc3339(secs: i64, nanos: u32) -> (r: Option<String>)
    ensures
        match r {
            Some(text) => rfc3339_text(secs, nanos) == Some(text@),
            None => rfc3339_text(secs, nanos) is None,
        },
{
    match chrono::DateTime::from_timestamp(secs, nanos) {
        Some(t) => Some(t.to_rfc3339()),
        None => None,
    }
}

/// `Utc::now`, read through `timestamp` and `timestamp_subsec_nanos`. Nothing
/// is promised of what the clock shows. What is promised holds of every
/// `DateTime`: `DateTime::from_timestamp` takes its seconds and nanoseconds
/// back, so the instant is one that `chrono` can write. `Utc::now` gives up
/// where the system clock stands before 1970.
#[verifier::external_body]
fn utc_now() -> (parts: (i64, u32))
    ensures
        rfc3339_text(parts.0, parts.1) is Some,
{
    let t = chrono::Utc::now();
    (t.timestamp(), t.timestamp_subsec_nanos())
}

/// A point in time: whole seconds since 1970-01-01T00:00:00Z and the
/// nanoseconds past that second.
#[derive(Debug, Clone, Copy, PartialEq, Eq)]
pub struct Timestamp {
    pub secs: i64,
    pub nanos: u32,
}

/// A signed span of time in nanoseconds.
#[derive(Debug, Clone, Copy, PartialEq, Eq)]
pub struct Elapsed {
    pub nanos: i128,
}

pub const NANOS_PER_SEC: i128 = 1_000_000_000;

pub const NANOS_PER_HOUR: i128 = 3_600_000_000_000;

impl Timestamp {
    /// Nanoseconds since the Unix epoch.
    pub open spec fn as_nanos(self) -> int {
        self.secs * 1_000_000_000 + self.nanos
    }

    /// The instant a text denotes, if it is an RFC 3339 date and time.
    pub open spec fn parsed(text: Seq<char>) -> Option<Timestamp> {
        match rfc3339_instant(text) {
            Some(parts) => Some(Timestamp { secs: parts.0, nanos: parts.1 }),
            None => None,
        }
    }

    /// The RFC 3339 text of this instant, if it has one.
    pub open spec fn text(self) -> Option<Seq<char>> {
        rfc3339_text(self.secs, self.nanos)
    }

    /// The current time in UTC. Whatever the clock shows, it is an instant
    /// that has an RFC 3339 text.
    pub fn now() -> (now: Timestamp)
        ensures
            now.text() is Some,
    {
        let parts = utc_now();
        Timestamp { secs: parts.0, nanos: parts.1 }
    }

    /// Reads an RFC 3339 date and time.
    pub fn parse(text: &str) -> (r: Option<Timestamp>)
        ensures
            r == Timestamp::parsed(text@),
    {
        match parse_rfc3339(text) {
            Ok(parts) => Some(Timestamp { secs: parts.0, nanos: parts.1 }),
            Err(_) => None,
        }
    }

    /// Writes this instant as an RFC 3339 date and time in UTC, or `None`
    /// where the calendar cannot represent it.
    pub fn to_rfc3339(&self) -> (r: Option<String>)
        ensures
            match r {
                Some(text) => self.text() == Some(text@),
                None => self.text() is None,
            },
    {
        write_rfc3339(self.secs, self.nanos)
    }

    /// The span from `earlier` to this instant; negative where `earlier` is
    /// the later of the two.
    pub fn since(&self, earlier: &Timestamp) -> (span: Elapsed)
        ensures
            span.nanos == self.as_nanos() - earlier.as_nanos(),
    {
        let secs: i128 = self.secs as i128 - earlier.secs as i128;
        let nanos: i128 = self.nanos as i128 - earlier.nanos as i128;
        Elapsed { nanos: secs * NANOS_PER_SEC + nanos }
    }
}

impl Elapsed {
    /// Whether this span is strictly longer than the given number of hours.
    pub open spec fn longer_than_hours(self, hours: int) -> bool {
        self.nanos > hours * 3_600_000_000_000
    }

    /// Whether this span is strictly longer than `hours` hours.
    pub(crate) fn exceeds_hours(&self, hours: i128) -> (longer: bool)
        requires
            i64::MIN <= hours <= u64::MAX,
        ensures
            longer == self.longer_than_hours(hours as int),
    {
        self.nanos > hours * NANOS_PER_HOUR
    }
}

} // verus!
