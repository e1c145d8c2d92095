//! Timestamps on the dashboard.

use vstd::prelude::*;

use crate::text::opt_view;

verus! {

/// The offset of the dashboard's clock, in seconds east of UTC: Tokyo time.
pub const TOKYO_OFFSET_SECONDS: i32 = 32_400;

/// The milliseconds from 1970 to the time that an RFC 3339 text gives, where it gives one.
pub uninterp spec fn rfc3339_millis(text: Seq<char>) -> Option<i64>;

/// The time that an RFC 3339 text gives, written again, to the second, at an offset in seconds
/// east of UTC; none where the text gives no time or the offset is a day or more.
pub uninterp spec fn rfc3339_at_offset(text: Seq<char>, offset: i32) -> Option<Seq<char>>;

/// `chrono::DateTime::parse_from_rfc3339`, with the time taken as `timestamp_millis`.
#[verifier::external_body]
fn millis_of(text: &str) -> (out: Option<i64>)
    ensures
        out == rfc3339_millis(text@),
{
    chrono::DateTime::parse_from_rfc3339(text).ok().map(|time| time.timestamp_millis())
}

/// `chrono::DateTime::parse_from_rfc3339`, with the time moved to a `chrono::FixedOffset` and
/// written by `to_rfc3339_opts`.
#[verifier::external_body]
fn at_offset(text: &str, offset: i32) -> (out: Option<String>)
    ensures
        opt_view(out) == rfc3339_at_offset(text@, offset),
{
    let zone = chrono::FixedOffset::east_opt(offset)?;
    let time = chrono::DateTime::parse_from_rfc3339(text).ok()?.with_timezone(&zone);
    Some(time.to_rfc3339_opts(chrono::SecondsFormat::Secs, true))
}

/// What the dashboard shows for a timestamp: the time that was read from it, or the timestamp
/// itself where none was.
pub open spec fn shown_time(read: Option<Seq<char>>, timestamp: Seq<char>) -> Seq<char> {
    match read {
        Some(time) => time,
        None => timestamp,
    }
}

/// What the dashboard shows for a timestamp.
pub open spec fn ui_time(timestamp: Seq<char>) -> Seq<char> {
    shown_time(rfc3339_at_offset(timestamp, TOKYO_OFFSET_SECONDS), timestamp)
}

/// The time that was read from a timestamp, or the timestamp itself where none was.
pub fn shown_or_raw(read: Option<String>, timestamp: &str) -> (out: String)
    ensures
        out@ == shown_time(opt_view(read), timestamp@),
{
    match read {
        Some(time) => time,
        None => timestamp.to_string(),
    }
}

/// A timestamp in Tokyo time, or as it is where it cannot be read.
pub fn timestamp_for_ui(timestamp: &str) -> (out: String)
    ensures
        out@ == ui_time(timestamp@),
{
    shown_or_raw(at_offset(timestamp, TOKYO_OFFSET_SECONDS), timestamp)
}

/// The place of a timestamp in time: its milliseconds, or 0 where it cannot be read.
pub open spec fn sort_key(millis: Option<i64>) -> i64 {
    match millis {
        Some(millis) => millis,
        None => 0,
    }
}

/// The milliseconds that were read from a timestamp, or 0 where none were.
pub fn millis_or_zero(millis: Option<i64>) -> (key: i64)
    ensures
        key == sort_key(millis),
{
    match millis {
        Some(millis) => millis,
        None => 0,
    }
}

/// The place of a timestamp in time.
pub fn timestamp_sort_key(timestamp: &str) -> (key: i64)
    ensures
        key == sort_key(rfc3339_millis(timestamp@)),
{
    millis_or_zero(millis_of(timestamp))
}

} // verus!
