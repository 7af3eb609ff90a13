//! Points in time, measured in milliseconds since the Unix epoch.
//!
//! The schedule logic only ever compares instants, so a signed millisecond
//! count is the whole model; reading the wall clock is the one operation
//! that has to be trusted.

use vstd::prelude::*;

verus! {

/// Milliseconds in one day.
pub const MILLIS_PER_DAY: i64 = 86400000;

/// An instant in time: milliseconds since the Unix epoch (UTC).
#[derive(Clone, Copy, Debug, PartialEq, Eq, Structural)]
pub struct Timestamp {
    pub millis: i64,
}

impl Timestamp {
    pub fn from_millis(millis: i64) -> (r: Timestamp)
        ensures
            r.millis == millis,
    {
        Timestamp { millis }
    }

    pub fn millis(&self) -> (r: i64)
        ensures
            r == self.millis,
    {
        self.millis
    }

    /// The instant `delta` milliseconds later (or earlier, when `delta`
    /// is negative), clamped at the representable range.
    pub fn offset(&self, delta: i64) -> (r: Timestamp)
        ensures
            r.millis == if self.millis + delta > i64::MAX {
                i64::MAX as int
            } else if self.millis + delta < i64::MIN {
                i64::MIN as int
            } else {
                self.millis + delta
            },
    {
        if delta >= 0 {
            if self.millis <= i64::MAX - delta {
                Timestamp { millis: self.millis + delta }
            } else {
                Timestamp { millis: i64::MAX }
            }
        } else {
            if self.millis >= i64::MIN - delta {
                Timestamp { millis: self.millis + delta }
            } else {
                Timestamp { millis: i64::MIN }
            }
        }
    }

    /// Whether `self` is no later than `other`.
    pub fn le(&self, other: &Timestamp) -> (r: bool)
        ensures
            r == spec_le(*self, *other),
    {
        self.millis <= other.millis
    }
}

/// `a` is no later than `b`.
pub open spec fn spec_le(a: Timestamp, b: Timestamp) -> bool {
    a.millis <= b.millis
}

/// Relies on `chrono::Utc::now`: the current wall-clock time. Nothing is
/// assumed about the value returned. Inherited from chrono: on a system
/// whose clock reads before the Unix epoch the call aborts instead of
/// returning a value.
#[verifier::external_body]
pub(crate) fn now() -> Timestamp {
    Timestamp { millis: chrono::Utc::now().timestamp_millis() }
}

/// The RFC 3339 rendering of the instant with the given millisecond
/// timestamp, as `chrono` writes it. A function of the timestamp alone.
pub uninterp spec fn rfc3339_of(millis: i64) -> Seq<char>;

/// What `chrono`'s RFC 3339 parser accepts for a string: the parsed
/// instant's millisecond timestamp, or nothing. A function of the string
/// alone.
pub uninterp spec fn rfc3339_millis(s: Seq<char>) -> Option<i64>;

/// Relies on `chrono::DateTime::from_timestamp_millis` and `to_rfc3339`:
/// the rendering is a function of the timestamp alone, and fails only for
/// a timestamp outside chrono's representable range.
#[verifier::external_body]
pub(crate) fn render_rfc3339(millis: i64) -> (r: Option<String>)
    ensures
        r matches Some(s) ==> s@ == rfc3339_of(millis),
{
    match chrono::DateTime::<chrono::Utc>::from_timestamp_millis(millis) {
        Some(d) => Some(d.to_rfc3339()),
        None => None,
    }
}

/// Relies on `chrono`'s `FromStr` for `DateTime<Utc>` (an RFC 3339
/// parser) and `timestamp_millis`: parsing is a function of the string
/// alone, and parsing a rendered timestamp gives the timestamp back.
#[verifier::external_body]
pub(crate) fn parse_rfc3339(s: &str) -> (r: Option<i64>)
    ensures
        r == rfc3339_millis(s@),
        forall|m: i64| s@ == rfc3339_of(m) ==> r == Some(m),
{
    match s.parse::<chrono::DateTime<chrono::Utc>>() {
        Ok(d) => Some(d.timestamp_millis()),
        Err(_) => None,
    }
}

} // verus!
