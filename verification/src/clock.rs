//! The wall clock records are stamped with.

use vstd::prelude::*;
use vstd::string::StringExecFns;

verus! {

/// `std::time::SystemTime`, a reading of the system clock.
#[verifier::external_type_specification]
#[verifier::external_body]
pub struct ExSystemTime(std::time::SystemTime);

/// The text of a moment in UTC, given as whole seconds since the start of
/// 1970 and the nanoseconds into the second, written after a `strftime`
/// pattern; `None` where the moment is out of range or the pattern cannot
/// be followed.
pub uninterp spec fn utc_text(secs: i64, nanos: u32, pattern: Seq<char>) -> Option<Seq<char>>;

/// Reads the system clock.
///
/// Calls `std::time::SystemTime::now`. The reading depends on the clock, so
/// nothing is claimed of it.
#[verifier::external_body]
pub(crate) fn read_clock() -> (now: std::time::SystemTime) {
    std::time::SystemTime::now()
}

/// How far a reading of the clock lies after the start of 1970, as whole
/// seconds and the nanoseconds into the second; `None` for a reading
/// before 1970.
///
/// Calls `SystemTime::duration_since` with `UNIX_EPOCH`, which reports an
/// earlier reading as an error, and takes the two parts of the duration.
/// Nothing is claimed of the numbers.
#[verifier::external_body]
pub(crate) fn since_epoch(at: std::time::SystemTime) -> (elapsed: Option<(u64, u32)>) {
    match at.duration_since(std::time::UNIX_EPOCH) {
        Ok(elapsed) => Some((elapsed.as_secs(), elapsed.subsec_nanos())),
        Err(_) => None,
    }
}

/// Writes a moment in UTC after a pattern.
///
/// Calls `chrono::DateTime::from_timestamp`, which gives `None` for a moment
/// that is out of range, then `DateTime::format` and
/// `DelayedFormat::write_to`, which reports a pattern that cannot be
/// followed as an error. The text is a function of the three arguments
/// alone: the contract gives it the name `utc_text`, and says nothing more
/// of it.
#[verifier::external_body]
pub(crate) fn format_utc(secs: i64, nanos: u32, pattern: &str) -> (text: Option<String>)
    ensures
        match text {
            Some(s) => utc_text(secs, nanos, pattern@) == Some(s@),
            None => utc_text(secs, nanos, pattern@) is None,
        },
{
    let at = chrono::DateTime::from_timestamp(secs, nanos)?;
    let mut text = String::new();
    match at.format(pattern).write_to(&mut text) {
        Ok(()) => Some(text),
        Err(_) => None,
    }
}

/// The pattern of a timestamp: ISO-8601 in UTC with milliseconds, such as
/// `2024-05-17T09:30:15.042Z`.
pub open spec fn timestamp_pattern() -> Seq<char> {
    "%Y-%m-%dT%H:%M:%S%.3fZ"@
}

/// The timestamp of a record whose time of submission is unknown: the
/// start of 1970.
pub open spec fn unknown_time() -> Seq<char> {
    "1970-01-01T00:00:00.000Z"@
}

/// The timestamp for a reading of the clock, where `None` stands for a
/// clock that stands before 1970: the text of the moment, or the start of
/// 1970 where the moment has no text.
pub open spec fn timestamp_text(reading: Option<(u64, u32)>) -> Seq<char> {
    match reading {
        Some((secs, nanos)) => {
            if secs <= i64::MAX {
                match utc_text(secs as i64, nanos, timestamp_pattern()) {
                    Some(text) => text,
                    None => unknown_time(),
                }
            } else {
                unknown_time()
            }
        },
        None => unknown_time(),
    }
}

/// The timestamp for a reading of the clock, given as the seconds since the
/// start of 1970 and the nanoseconds into the second, or as `None` where
/// the clock stands before 1970. A reading that cannot be written is
/// stamped as the start of 1970.
pub fn timestamp_of(reading: Option<(u64, u32)>) -> (timestamp: String)
    ensures
        timestamp@ == timestamp_text(reading),
{
    match reading {
        Some((secs, nanos)) => {
            if secs <= i64::MAX as u64 {
                match format_utc(secs as i64, nanos, "%Y-%m-%dT%H:%M:%S%.3fZ") {
                    Some(text) => text,
                    None => String::from_str("1970-01-01T00:00:00.000Z"),
                }
            } else {
                String::from_str("1970-01-01T00:00:00.000Z")
            }
        },
        None => String::from_str("1970-01-01T00:00:00.000Z"),
    }
}

/// The current time in UTC as text with millisecond precision: the
/// timestamp of what the clock reads now.
pub fn get_current_time() -> (timestamp: String)
    ensures
        exists|reading: Option<(u64, u32)>| timestamp@ == #[trigger] timestamp_text(reading),
{
    let reading = since_epoch(read_clock());
    let timestamp = timestamp_of(reading);
    assert(timestamp@ == timestamp_text(reading));
    timestamp
}

} // verus!
