//! Points in time, as the library holds them.

use vstd::prelude::*;

verus! {

/// A point in time: whole seconds since 1970-01-01 00:00:00 UTC, and the
/// nanoseconds past that second.
#[derive(Debug, Clone, Copy, PartialEq, Eq, Structural)]
pub struct Timestamp {
    pub secs: i64,
    pub nanos: u32,
}

impl Timestamp {
    /// `self` is earlier than `other`.
    pub open spec fn is_before(self, other: Timestamp) -> bool {
        self.secs < other.secs || (self.secs == other.secs && self.nanos < other.nanos)
    }

    /// The start of 1970, the time taken for a file whose time is unknown.
    pub open spec fn epoch() -> Timestamp {
        Timestamp { secs: 0, nanos: 0 }
    }

    /// Whether `self` is earlier than `other`.
    pub fn earlier_than(&self, other: &Timestamp) -> (r: bool)
        ensures
            r == self.is_before(*other),
    {
        self.secs < other.secs || (self.secs == other.secs && self.nanos < other.nanos)
    }
}

/// The point in time that `s` writes in the relaxed form of RFC 3339 that
/// `chrono` reads with `str::parse`, if it writes one.
pub uninterp spec fn utc_of_text(s: Seq<char>) -> Option<Timestamp>;

/// The point in time that `s` writes in RFC 3339, if it writes one.
pub uninterp spec fn utc_of_rfc3339(s: Seq<char>) -> Option<Timestamp>;

/// `t` written in RFC 3339, in UTC; `None` where `chrono` has no date for it.
pub uninterp spec fn rfc3339_of(t: Timestamp) -> Option<Seq<char>>;

/// `str::parse::<DateTime<Utc>>`: reads `s` as a date and time, with a
/// space or a `T` between the two, converted to UTC.
#[verifier::external_body]
pub(crate) fn parse_utc(s: &str) -> (r: Option<Timestamp>)
    ensures
        r == utc_of_text(s@),
{
    let t = s.parse::<chrono::DateTime<chrono::Utc>>().ok()?;
    Some(Timestamp { secs: t.timestamp(), nanos: t.timestamp_subsec_nanos() })
}

/// `DateTime::parse_from_rfc3339`: reads `s` as a date and time in RFC 3339,
/// converted to UTC.
#[verifier::external_body]
pub(crate) fn parse_rfc3339(s: &str) -> (r: Option<Timestamp>)
    ensures
        r == utc_of_rfc3339(s@),
{
    let t = chrono::DateTime::parse_from_rfc3339(s).ok()?.with_timezone(&chrono::Utc);
    Some(Timestamp { secs: t.timestamp(), nanos: t.timestamp_subsec_nanos() })
}

/// `DateTime::from_timestamp` and `DateTime::to_rfc3339`: writes `t` in RFC
/// 3339, where `chrono` has a date for it.
#[verifier::external_body]
pub(crate) fn to_rfc3339(t: Timestamp) -> (r: Option<String>)
    ensures
        match r {
            Some(s) => rfc3339_of(t) == Some(s@),
            None => rfc3339_of(t) is None,
        },
{
    Some(chrono::DateTime::from_timestamp(t.secs, t.nanos)?.to_rfc3339())
}

} // verus!
