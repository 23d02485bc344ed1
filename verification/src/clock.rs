//! Timestamps, read and shown in the machine's local time.

use chrono::{DateTime, FixedOffset, Local};
use vstd::prelude::*;

verus! {

/// How a time of event is written out: year, month and day, a blank, then
/// hours, minutes and seconds.
pub const TIME_PATTERN: &'static str = "%Y-%m-%d %H:%M:%S";

/// Whether `offset` can be the lead of a clock on UTC, in seconds: less than a
/// day either way.
pub open spec fn is_offset(offset: int) -> bool {
    -86_400 < offset < 86_400
}

/// Whether chrono reads `time` as a date and time with an offset from UTC
/// (a relaxed RFC 3339: `2023-01-01T10:00:00Z`, `2023-01-01 10:00:00+01:00`).
pub uninterp spec fn is_timestamp(time: Seq<char>) -> bool;

/// What chrono writes, by `TIME_PATTERN`, for the instant that the timestamp
/// `time` names, read on a clock that is `offset` seconds ahead of UTC.
pub uninterp spec fn shown_at(time: Seq<char>, offset: int) -> Seq<char>;

/// Calls `str::parse::<chrono::DateTime<chrono::Local>>`, and on success
/// `DateTime::offset` and `FixedOffset::local_minus_utc`. The contract claims
/// that the call succeeds on the texts that chrono's parser accepts, which the
/// text alone decides, and that the offset is less than a day either way, as
/// every `FixedOffset` is. Which offset comes back depends on the time zone of
/// the machine, which chrono looks up and expects to be well formed.
#[verifier::external_body]
pub(crate) fn local_offset(time: &str) -> (r: Option<i32>)
    ensures
        r is Some <==> is_timestamp(time@),
        r matches Some(offset) ==> is_offset(offset as int),
{
    match time.parse::<DateTime<Local>>() {
        Ok(at) => Some(at.offset().local_minus_utc()),
        Err(_) => None,
    }
}

/// Calls `str::parse::<chrono::DateTime<chrono::FixedOffset>>`,
/// `FixedOffset::east_opt`, `DateTime::with_timezone`, and `DateTime::format`
/// with `pattern` and `to_string`. The parser is the one behind
/// `is_timestamp`, so a timestamp is read; an offset of less than a day is
/// one that `east_opt` takes; and writing fails on a pattern that chrono
/// cannot read, so only `TIME_PATTERN` is let in. The contract claims that
/// the text is decided by the timestamp and the offset alone.
#[verifier::external_body]
pub(crate) fn time_at(time: &str, offset: i32, pattern: &str) -> (r: String)
    requires
        is_timestamp(time@),
        is_offset(offset as int),
        pattern@ == TIME_PATTERN@,
    ensures
        r@ == shown_at(time@, offset as int),
{
    let at = time.parse::<DateTime<FixedOffset>>().unwrap();
    let zone = FixedOffset::east_opt(offset).unwrap();
    at.with_timezone(&zone).format(pattern).to_string()
}

} // verus!
