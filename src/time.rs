use vstd::prelude::*;

verus! {

/// An instant, as microseconds since 1970-01-01T00:00:00Z (leap seconds not counted).
#[derive(Clone, Copy, Debug, PartialEq, Eq, Structural)]
pub struct Timestamp {
    pub micros: i64,
}

/// The instant that the RFC 3339 text `s` denotes, in microseconds since the
/// epoch, if `s` is valid RFC 3339.
pub uninterp spec fn rfc3339_micros(s: Seq<char>) -> Option<i64>;

/// Relies on chrono's `DateTime::parse_from_rfc3339`, read out with
/// `DateTime::timestamp_micros`: the result depends on the text alone.
#[verifier::external_body]
fn parse_rfc3339_micros(s: &str) -> (r: Option<i64>)
    ensures
        r == rfc3339_micros(s@),
{
    match chrono::DateTime::parse_from_rfc3339(s) {
        Ok(t) => Some(t.timestamp_micros()),
        Err(_) => None,
    }
}

/// Relies on chrono's `Utc::now`, read out with `DateTime::timestamp_micros`.
/// Nothing is known of the value. (`Utc::now` panics when the system clock
/// reads before 1970.)
#[verifier::external_body]
fn now_micros() -> (r: i64) {
    chrono::Utc::now().timestamp_micros()
}

impl Timestamp {
    /// The current time.
    pub fn now() -> (r: Timestamp) {
        Timestamp { micros: now_micros() }
    }

    /// Parses an RFC 3339 date-time.
    pub fn parse_rfc3339(s: &str) -> (r: Option<Timestamp>)
        ensures
            r == (match rfc3339_micros(s@) {
                Some(m) => Some(Timestamp { micros: m }),
                None => None,
            }),
    {
        match parse_rfc3339_micros(s) {
            Some(m) => Some(Timestamp { micros: m }),
            None => None,
        }
    }
}

} // verus!
