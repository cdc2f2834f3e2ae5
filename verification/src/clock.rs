use vstd::prelude::*;

verus! {

/// The last millisecond, counted from the Unix epoch, that chrono's `DateTime<Utc>` can hold
/// (the end of year 262142).
pub open spec fn max_clock_millis() -> int {
    8210266876799999
}

/// The last millisecond of year 9999: later instants have no four-digit RFC 3339 year.
pub open spec fn max_rfc3339_millis() -> int {
    253402300799999
}

/// The pattern that names meeting sessions after the time they start.
pub open spec fn session_stamp_pattern() -> Seq<char> {
    "%Y-%m-%d_%H-%M-%S"@
}

/// What chrono writes for the instant `ms` (UTC) under the strftime pattern `pattern`.
pub uninterp spec fn utc_stamp_text(ms: i64, pattern: Seq<char>) -> Seq<char>;

/// What chrono's `DateTime::to_rfc3339` writes for the instant `ms` (UTC).
pub uninterp spec fn rfc3339_text(ms: i64) -> Seq<char>;

/// The instant, in milliseconds since the epoch, that chrono's `DateTime::parse_from_rfc3339`
/// reads from a text, or `None` where it refuses the text.
pub uninterp spec fn rfc3339_millis(text: Seq<char>) -> Option<i64>;

/// One reading of the UTC clock, in milliseconds since the Unix epoch. Only a reading of the
/// clock makes one, so a value held in one is a time the clock gave.
pub struct ClockReading {
    ms: i64,
}

impl ClockReading {
    /// The time the clock gave, in milliseconds since the Unix epoch.
    pub closed spec fn value(&self) -> i64 {
        self.ms
    }

    /// The time the clock gave, in milliseconds since the Unix epoch.
    pub fn millis(&self) -> (ms: i64)
        ensures
            ms == self.value(),
    {
        self.ms
    }
}

/// `Utc::now().timestamp_millis()`: the current time in milliseconds since the Unix epoch.
/// chrono panics on a clock before the epoch and holds no instant past `max_clock_millis`,
/// so what comes back lies between the two; nothing else is claimed of it.
#[verifier::external_body]
pub(crate) fn utc_now_millis() -> (reading: ClockReading)
    ensures
        0 <= reading.value() <= max_clock_millis(),
{
    ClockReading { ms: chrono::Utc::now().timestamp_millis() }
}

/// `DateTime::from_timestamp_millis(ms)` formatted with `DateTime::format(pattern)`.
/// chrono yields `None` only for instants it cannot hold; the text is named, not stated.
/// The pattern is held to the one the library uses, which chrono formats without error.
#[verifier::external_body]
pub(crate) fn format_utc_millis(ms: i64, pattern: &str) -> (text: Option<String>)
    requires
        pattern@ == session_stamp_pattern(),
    ensures
        0 <= ms <= max_clock_millis() ==> text is Some,
        text matches Some(t) ==> t@ == utc_stamp_text(ms, pattern@),
{
    match chrono::DateTime::from_timestamp_millis(ms) {
        Some(dt) => Some(dt.format(pattern).to_string()),
        None => None,
    }
}

/// `DateTime::from_timestamp_millis(ms)` written by `DateTime::to_rfc3339`.
/// chrono yields `None` only for instants it cannot hold. For an instant from the epoch to the
/// end of year 9999 the text carries the milliseconds and `parse_from_rfc3339` reads it back.
#[verifier::external_body]
pub(crate) fn rfc3339_from_millis(ms: i64) -> (text: Option<String>)
    ensures
        0 <= ms <= max_clock_millis() ==> text is Some,
        text matches Some(t) ==> t@ == rfc3339_text(ms),
        text matches Some(t) ==> (0 <= ms <= max_rfc3339_millis() ==> rfc3339_millis(t@) == Some(ms)),
{
    match chrono::DateTime::from_timestamp_millis(ms) {
        Some(dt) => Some(dt.to_rfc3339()),
        None => None,
    }
}

/// `DateTime::parse_from_rfc3339(text)` taken to `timestamp_millis`, `None` where chrono
/// refuses the text.
#[verifier::external_body]
pub(crate) fn millis_from_rfc3339(text: &str) -> (ms: Option<i64>)
    ensures
        ms == rfc3339_millis(text@),
{
    match chrono::DateTime::parse_from_rfc3339(text) {
        Ok(dt) => Some(dt.timestamp_millis()),
        Err(_) => None,
    }
}

} // verus!
