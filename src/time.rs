//! Instants in UTC, and what only the calendar library can compute of them.
use vstd::prelude::*;

verus! {

/// An instant: whole seconds since 1970-01-01T00:00:00Z and the nanoseconds
/// past that second.
#[derive(Debug, Clone, Copy, PartialEq, Eq)]
pub struct UtcTime {
    pub secs: i64,
    pub nanos: u32,
}

/// Whether `a` comes strictly before `b`.
pub open spec fn earlier(a: UtcTime, b: UtcTime) -> bool {
    a.secs < b.secs || (a.secs == b.secs && a.nanos < b.nanos)
}

impl UtcTime {
    /// Whether this instant comes strictly before `other`.
    pub fn is_before(&self, other: &UtcTime) -> (r: bool)
        ensures
            r == earlier(*self, *other),
    {
        self.secs < other.secs || (self.secs == other.secs && self.nanos < other.nanos)
    }
}

/// The RFC 3339 text of the instant `secs`, `nanos`, when the calendar
/// library can represent it.
pub uninterp spec fn rfc3339_of(secs: i64, nanos: u32) -> Option<Seq<char>>;

/// The instant that an RFC 3339 text denotes, when it is one.
pub uninterp spec fn rfc3339_instant(s: Seq<char>) -> Option<UtcTime>;

/// The day number (days since 1970-01-01) of the calendar date that `s`
/// denotes in format `fmt`, when it denotes one.
pub uninterp spec fn date_epoch_days(s: Seq<char>, fmt: Seq<char>) -> Option<i32>;

/// Relies on chrono's `DateTime::<Utc>::from_timestamp` (`None` outside the
/// representable range) and `DateTime::to_rfc3339`: the text depends on the
/// instant alone.
#[verifier::external_body]
pub fn rfc3339_text(t: &UtcTime) -> (r: Option<String>)
    ensures
        match r {
            Some(s) => rfc3339_of(t.secs, t.nanos) == Some(s@),
            None => rfc3339_of(t.secs, t.nanos) is None,
        },
{
    chrono::DateTime::<chrono::Utc>::from_timestamp(t.secs, t.nanos).map(|d| d.to_rfc3339())
}

/// Relies on chrono's `DateTime::parse_from_rfc3339`: the instant of the text,
/// read back as seconds and nanoseconds since the epoch in UTC.
#[verifier::external_body]
pub fn parse_rfc3339(s: &str) -> (r: Option<UtcTime>)
    ensures
        r == rfc3339_instant(s@),
{
    chrono::DateTime::parse_from_rfc3339(s).ok().map(
        |d| UtcTime { secs: d.timestamp(), nanos: d.timestamp_subsec_nanos() },
    )
}

/// Relies on chrono's `NaiveDate::parse_from_str` and `NaiveDate::to_epoch_days`:
/// the day number of the date that `s` denotes in format `fmt`.
#[verifier::external_body]
pub fn parse_date_days(s: &str, fmt: &str) -> (r: Option<i32>)
    ensures
        r == date_epoch_days(s@, fmt@),
{
    chrono::NaiveDate::parse_from_str(s, fmt).ok().map(|d| d.to_epoch_days())
}

/// Relies on chrono's `Utc::now`: the current instant, of which nothing is
/// known in advance.
#[verifier::external_body]
pub fn now() -> (r: UtcTime) {
    let t = chrono::Utc::now();
    UtcTime { secs: t.timestamp(), nanos: t.timestamp_subsec_nanos() }
}

} // verus!
