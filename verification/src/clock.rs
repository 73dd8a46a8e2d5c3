//! Calendar time through `chrono`: instants are handed around as whole
//! milliseconds or seconds since the Unix epoch, and only their text form is
//! left to the calendar.

use vstd::prelude::*;

verus! {

/// Milliseconds in one day.
pub const MILLIS_PER_DAY: i64 = 86_400_000;

/// Layout of the instants sent to the upstream: UTC, ISO-8601, with
/// milliseconds.
pub const UTC_MILLIS_FORMAT: &'static str = "%Y-%m-%dT%H:%M:%S.%3fZ";

/// Seconds since the epoch of the instant that `text` denotes in RFC 3339
/// notation, if `text` is such a notation.
pub uninterp spec fn rfc3339_epoch_seconds(text: Seq<char>) -> Option<i64>;

/// Text of the UTC instant `millis` milliseconds after the epoch, laid out by
/// the `strftime`-style `format`, if the calendar can represent that instant.
pub uninterp spec fn utc_text(millis: i64, format: Seq<char>) -> Option<Seq<char>>;

/// `chrono::DateTime::parse_from_rfc3339`, then `DateTime::timestamp`: the
/// whole seconds since the epoch of an RFC 3339 date and time, `None` where
/// the text does not parse. The result depends on the text alone.
#[verifier::external_body]
pub(crate) fn parse_rfc3339_seconds(text: &str) -> (seconds: Option<i64>)
    ensures
        seconds == rfc3339_epoch_seconds(text@),
{
    chrono::DateTime::parse_from_rfc3339(text).ok().map(|t| t.timestamp())
}

/// `chrono::DateTime::from_timestamp_millis`, then `DateTime::format`: the
/// UTC instant as text, `None` where the instant is outside the calendar's
/// range. The result depends on the instant and the layout alone. Only the
/// one layout that is known to be well-formed is admitted, since rendering
/// a malformed layout panics.
#[verifier::external_body]
pub(crate) fn format_utc_millis(millis: i64, format: &str) -> (text: Option<String>)
    requires
        format@ == UTC_MILLIS_FORMAT@,
    ensures
        match text {
            Some(t) => utc_text(millis, format@) == Some(t@),
            None => utc_text(millis, format@) is None,
        },
{
    chrono::DateTime::from_timestamp_millis(millis).map(|t| t.format(format).to_string())
}

/// Text of the instant `now_ms`, as the upstream wants it written.
pub open spec fn spec_current_time(now_ms: i64) -> Option<Seq<char>> {
    utc_text(now_ms, UTC_MILLIS_FORMAT@)
}

/// The instant `days` days before `now_ms`, in milliseconds since the epoch,
/// if it can be written in 64 bits.
pub open spec fn spec_start_millis(now_ms: i64, days: u32) -> Option<i64> {
    if now_ms - days * MILLIS_PER_DAY >= i64::MIN {
        Some((now_ms - days * MILLIS_PER_DAY) as i64)
    } else {
        None
    }
}

/// Text of the instant `days` days before `now_ms`.
pub open spec fn spec_start_time(now_ms: i64, days: u32) -> Option<Seq<char>> {
    match spec_start_millis(now_ms, days) {
        Some(start) => utc_text(start, UTC_MILLIS_FORMAT@),
        None => None,
    }
}

/// The current instant `now_ms` as the upstream wants it written; `None`
/// where the calendar cannot write it.
pub fn get_current_time(now_ms: i64) -> (text: Option<String>)
    ensures
        match text {
            Some(t) => spec_current_time(now_ms) == Some(t@),
            None => spec_current_time(now_ms) is None,
        },
{
    format_utc_millis(now_ms, UTC_MILLIS_FORMAT)
}

/// The instant `days` days before `now_ms` as the upstream wants it
/// written; `None` where the calendar cannot write it.
pub fn get_start_time(now_ms: i64, days: u32) -> (text: Option<String>)
    ensures
        match text {
            Some(t) => spec_start_time(now_ms, days) == Some(t@),
            None => spec_start_time(now_ms, days) is None,
        },
{
    let span: i64 = (days as i64) * MILLIS_PER_DAY;
    match now_ms.checked_sub(span) {
        Some(start) => format_utc_millis(start, UTC_MILLIS_FORMAT),
        None => None,
    }
}

} // verus!
