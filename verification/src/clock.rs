//! The current date and the rendering of timestamps, delegated to `chrono`.

use vstd::prelude::*;
use crate::chars::option_text;

verus! {

/// The format of a calendar date: year, month and day.
pub const DATE_FORMAT: &'static str = "%Y-%m-%d";

/// The format of a point in time, to the second, in UTC.
pub const TIMESTAMP_FORMAT: &'static str = "%Y-%m-%d %H:%M:%S UTC";

/// The text of the point in time `seconds` after the Unix epoch, in UTC and
/// in the given format, as `chrono` renders it; `None` where `chrono`
/// cannot represent that point.
pub uninterp spec fn utc_time_text(seconds: int, format: Seq<char>) -> Option<Seq<char>>;

/// Reads the clock with `chrono::Utc::now` and renders the date with
/// `DateTime::format`. The result depends on when the call is made, so
/// nothing is stated of it. Only the two formats of this module are
/// admitted: `chrono` panics while rendering a format that it cannot parse.
/// It also panics where the system clock stands before 1970, which no
/// argument can rule out.
#[verifier::external_body]
pub(crate) fn now_text(format: &str) -> (r: String)
    requires
        format@ == DATE_FORMAT@ || format@ == TIMESTAMP_FORMAT@,
{
    chrono::Utc::now().format(format).to_string()
}

/// Builds a point in time with `chrono::DateTime::from_timestamp` and
/// renders it with `DateTime::format`. The result is `chrono`'s text for
/// these seconds and this format, and `None` where the seconds are out of
/// its range. Only the timestamp format is admitted: `chrono` panics while
/// rendering a format that it cannot parse.
#[verifier::external_body]
pub(crate) fn timestamp_text(seconds: i64, format: &str) -> (r: Option<String>)
    requires
        format@ == TIMESTAMP_FORMAT@,
    ensures
        option_text(r) == utc_time_text(seconds as int, format@),
{
    chrono::DateTime::from_timestamp(seconds, 0).map(|t| t.format(format).to_string())
}

/// Today's date in UTC, as year, month and day.
pub fn today() -> (r: String)
{
    now_text(DATE_FORMAT)
}

/// The present moment in UTC, to the second.
pub fn now() -> (r: String)
{
    now_text(TIMESTAMP_FORMAT)
}

/// The text of a point in time given in seconds after the Unix epoch, to
/// the second and in UTC; `None` where the point is out of range.
pub fn format_timestamp(seconds: i64) -> (r: Option<String>)
    ensures
        option_text(r) == utc_time_text(seconds as int, TIMESTAMP_FORMAT@),
{
    timestamp_text(seconds, TIMESTAMP_FORMAT)
}

} // verus!
