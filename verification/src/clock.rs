//! The local clock and the calendar, both by way of `chrono`.

use std::fmt::Write;
use vstd::prelude::*;
use crate::types::Timestamp;

verus! {

/// The text that `chrono` writes for the instant `secs` seconds and `nanos` nanoseconds after
/// the Unix epoch, seen at `offset` seconds east of UTC, under the strftime pattern `pattern`;
/// `None` where `chrono` cannot hold that instant or offset, or rejects the pattern.
pub uninterp spec fn chrono_format(secs: i64, nanos: u32, offset: i32, pattern: Seq<char>) -> Option<
    Seq<char>,
>;

/// Reads the local clock with `chrono::Local::now` and takes the reading apart with
/// `DateTime::timestamp`, `DateTime::timestamp_subsec_nanos` and `FixedOffset::local_minus_utc`.
///
/// Nothing is claimed of the reading: it is whatever the system clock and the time zone
/// database say at the moment of the call. `chrono` panics where the system clock stands
/// before 1970.
#[verifier::external_body]
pub(crate) fn local_now() -> (now: Timestamp) {
    let reading = chrono::Local::now();
    Timestamp {
        secs: reading.timestamp(),
        nanos: reading.timestamp_subsec_nanos(),
        offset: reading.offset().local_minus_utc(),
    }
}

/// Formats `time` with `chrono::DateTime::format`, after rebuilding the date and time with
/// `DateTime::from_timestamp` and `FixedOffset::east_opt`.
///
/// The contract only gives the result its name, [`chrono_format`]: the same timestamp and
/// pattern always give the same text, and what that text is remains `chrono`'s business.
#[verifier::external_body]
pub(crate) fn format_timestamp(time: Timestamp, pattern: &str) -> (text: Option<String>)
    ensures
        text.deep_view() == chrono_format(time.secs, time.nanos, time.offset, pattern@),
{
    let zone = chrono::FixedOffset::east_opt(time.offset)?;
    let local = chrono::DateTime::from_timestamp(time.secs, time.nanos)?.with_timezone(&zone);
    let mut text = String::new();
    write!(text, "{}", local.format(pattern)).ok()?;
    Some(text)
}

} // verus!
