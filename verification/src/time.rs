//! Instants on the UTC time line.

use vstd::prelude::*;

verus! {

/// The text that `chrono` writes for the instant `secs` seconds and `nanos`
/// nanoseconds after the epoch, in RFC 3339 with `Z` for UTC and as many
/// fractional digits as the nanoseconds need; `None` where `chrono` cannot
/// represent the instant.
pub uninterp spec fn rfc3339_text(secs: i64, nanos: u32) -> Option<Seq<char>>;

/// The instant that `chrono` reads from a text in RFC 3339, as seconds and
/// nanoseconds after the epoch; `None` where it rejects the text.
pub uninterp spec fn rfc3339_instant(text: Seq<char>) -> Option<(i64, u32)>;

/// Builds the instant with `chrono::DateTime::from_timestamp` and writes it
/// with `to_rfc3339_opts`, seconds format `AutoSi`, `Z` for UTC. The result
/// is `Some` exactly where `rfc3339_text` is defined, and then holds that
/// text; parsing the text as a `chrono::DateTime` gives the instant back.
#[verifier::external_body]
fn format_instant(secs: i64, nanos: u32) -> (r: Option<String>)
    ensures
        r is Some <==> rfc3339_text(secs, nanos) is Some,
        r matches Some(text) ==> rfc3339_text(secs, nanos) == Some(text@),
        r matches Some(text) ==> rfc3339_instant(text@) == Some((secs, nanos)),
{
    match chrono::DateTime::<chrono::Utc>::from_timestamp(secs, nanos) {
        Some(instant) => Some(instant.to_rfc3339_opts(chrono::SecondsFormat::AutoSi, true)),
        None => None,
    }
}

/// Parses a text as a `chrono::DateTime` with an offset, and returns its
/// `timestamp` and `timestamp_subsec_nanos`. The result is `Ok` exactly
/// where `rfc3339_instant` is defined, and then holds that instant;
/// otherwise it holds the message of the failure that `chrono` reported.
/// An instant that was read is one that `chrono` represents, so
/// `chrono::DateTime::from_timestamp` accepts it and it can be written.
#[verifier::external_body]
fn parse_instant(text: &str) -> (r: Result<(i64, u32), String>)
    ensures
        r is Ok <==> rfc3339_instant(text@) is Some,
        r matches Ok(instant) ==> rfc3339_instant(text@) == Some(instant),
        r matches Ok(instant) ==> rfc3339_text(instant.0, instant.1) is Some,
{
    match text.parse::<chrono::DateTime<chrono::FixedOffset>>() {
        Ok(instant) => Ok((instant.timestamp(), instant.timestamp_subsec_nanos())),
        Err(err) => Err(err.to_string()),
    }
}

/// An instant, UTC-normalized: whole seconds since 1970-01-01T00:00:00Z and
/// the nanoseconds since the last second boundary. During a leap second the
/// nanoseconds may exceed 999,999,999.
#[derive(Clone, Copy, Debug, PartialEq, Eq, Hash, Structural)]
pub struct Timestamp {
    pub secs: i64,
    pub nanos: u32,
}

impl Timestamp {
    /// `self` is not later than `other`.
    pub open spec fn le(self, other: Timestamp) -> bool {
        self.secs < other.secs || (self.secs == other.secs && self.nanos <= other.nanos)
    }

    /// `self` is strictly earlier than `other`.
    pub open spec fn lt(self, other: Timestamp) -> bool {
        self.secs < other.secs || (self.secs == other.secs && self.nanos < other.nanos)
    }

    /// The textual form of the instant, where it has one.
    pub open spec fn text(self) -> Option<Seq<char>> {
        rfc3339_text(self.secs, self.nanos)
    }

    /// The instant that a text stands for, where it stands for one.
    pub open spec fn of_text(text: Seq<char>) -> Option<Timestamp> {
        match rfc3339_instant(text) {
            Some((secs, nanos)) => Some(Timestamp { secs, nanos }),
            None => None,
        }
    }

    /// The instant `secs` seconds and `nanos` nanoseconds after the epoch.
    pub fn new(secs: i64, nanos: u32) -> (t: Timestamp)
        ensures
            t == (Timestamp { secs, nanos }),
    {
        Timestamp { secs, nanos }
    }

    /// The instant in RFC 3339, such as `2025-09-01T12:00:00Z`; `None` for
    /// an instant outside the years that can be written. `parse_rfc3339`
    /// maps the text back to `self`.
    pub fn to_rfc3339(&self) -> (r: Option<String>)
        ensures
            r is Some <==> self.text() is Some,
            r matches Some(text) ==> self.text() == Some(text@),
            r matches Some(text) ==> Timestamp::of_text(text@) == Some(*self),
    {
        format_instant(self.secs, self.nanos)
    }

    /// Parses an instant in RFC 3339. An offset from UTC is taken into
    /// account. An instant that was read can be written again. A text that
    /// is no instant is answered with a message that says why.
    pub fn parse_rfc3339(text: &str) -> (r: Result<Timestamp, String>)
        ensures
            r is Ok <==> Timestamp::of_text(text@) is Some,
            r matches Ok(t) ==> Timestamp::of_text(text@) == Some(t),
            r matches Ok(t) ==> t.text() is Some,
    {
        match parse_instant(text) {
            Ok((secs, nanos)) => Ok(Timestamp { secs, nanos }),
            Err(message) => Err(message),
        }
    }

    /// Whether `self` is not later than `other`.
    pub fn not_after(&self, other: &Timestamp) -> (b: bool)
        ensures
            b == self.le(*other),
    {
        self.secs < other.secs || (self.secs == other.secs && self.nanos <= other.nanos)
    }
}

} // verus!
