//! Points in time.
//!
//! A point in time is held as whole seconds since 1970-01-01 00:00:00 UTC
//! and the nanoseconds within that second, which is what orders two of them.
//! Reading the clock and writing a timestamp as text are asked of `chrono`.

use crate::text::opt_view;
use vstd::prelude::*;

verus! {

/// A point in time: seconds since the Unix epoch, and nanoseconds within the second.
#[derive(Debug, Clone, Copy, PartialEq, Eq, Hash, Structural)]
pub struct Timestamp {
    pub secs: i64,
    pub nanos: u32,
}

/// The timestamp written as `YYYY-MM-DD HH:MM:SS UTC`; `None` if no date
/// belongs to these numbers.
pub uninterp spec fn utc_text(secs: i64, nanos: u32) -> Option<Seq<char>>;

/// The timestamp written as RFC 3339 with `Z` for the zone and as many
/// fractional digits as it needs; `None` if no date belongs to these numbers.
pub uninterp spec fn rfc3339_text(secs: i64, nanos: u32) -> Option<Seq<char>>;

impl Timestamp {
    /// Strictly earlier, by seconds and then by nanoseconds.
    pub open spec fn spec_before(self, other: Timestamp) -> bool {
        self.secs < other.secs || (self.secs == other.secs && self.nanos < other.nanos)
    }

    /// A timestamp from its two numbers.
    pub fn new(secs: i64, nanos: u32) -> (t: Self)
        ensures
            t.secs == secs,
            t.nanos == nanos,
    {
        Timestamp { secs, nanos }
    }

    /// Whether `self` is strictly earlier than `other`.
    pub fn before(&self, other: &Timestamp) -> (r: bool)
        ensures
            r == self.spec_before(*other),
    {
        self.secs < other.secs || (self.secs == other.secs && self.nanos < other.nanos)
    }

    /// The timestamp as `YYYY-MM-DD HH:MM:SS UTC`, or `None` if no date
    /// belongs to its numbers.
    pub fn to_utc_text(&self) -> (r: Option<String>)
        ensures
            opt_view(r) == utc_text(self.secs, self.nanos),
    {
        format_utc(self.secs, self.nanos)
    }

    /// The timestamp in RFC 3339 form, or `None` if no date belongs to its numbers.
    pub fn to_rfc3339(&self) -> (r: Option<String>)
        ensures
            opt_view(r) == rfc3339_text(self.secs, self.nanos),
    {
        format_rfc3339(self.secs, self.nanos)
    }
}

/// Calls `chrono::Utc::now` and takes the result apart with
/// `DateTime::timestamp` and `DateTime::timestamp_subsec_nanos`. Nothing is
/// claimed of the time that comes back.
#[verifier::external_body]
pub(crate) fn now() -> (t: Timestamp) {
    let t = chrono::Utc::now();
    Timestamp { secs: t.timestamp(), nanos: t.timestamp_subsec_nanos() }
}

/// Calls `chrono::DateTime::from_timestamp` and `DateTime::format` with the
/// pattern `%Y-%m-%d %H:%M:%S UTC`. The contract only names the result.
#[verifier::external_body]
pub(crate) fn format_utc(secs: i64, nanos: u32) -> (r: Option<String>)
    ensures
        opt_view(r) == utc_text(secs, nanos),
{
    let t = chrono::DateTime::from_timestamp(secs, nanos)?;
    Some(t.format("%Y-%m-%d %H:%M:%S UTC").to_string())
}

/// Calls `chrono::DateTime::from_timestamp` and `DateTime::to_rfc3339_opts`
/// with automatic fractional digits and `Z`. The contract only names the result.
#[verifier::external_body]
pub(crate) fn format_rfc3339(secs: i64, nanos: u32) -> (r: Option<String>)
    ensures
        opt_view(r) == rfc3339_text(secs, nanos),
{
    let t = chrono::DateTime::from_timestamp(secs, nanos)?;
    Some(t.to_rfc3339_opts(chrono::SecondsFormat::AutoSi, true))
}

} // verus!
