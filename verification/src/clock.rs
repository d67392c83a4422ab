//! Wall-clock text for timestamps, in the fixed zone of the notifications.

use crate::text::text_of;
use std::fmt::Write;
use vstd::prelude::*;

verus! {

/// Hours that local time is ahead of UTC. The offset is fixed: there is no
/// daylight saving.
pub const LOCAL_OFFSET_HOURS: i64 = 8;

/// The text that chrono gives for the instant `millis` milliseconds after the
/// epoch, moved `offset_hours` hours ahead and written under `pattern`. `None`
/// where its calendar cannot hold the instant or the moved instant, or where
/// it does not accept the pattern.
pub uninterp spec fn clock_text(millis: int, offset_hours: int, pattern: Seq<char>) -> Option<
    Seq<char>,
>;

/// Calls chrono: `DateTime::from_timestamp_millis`, then on the UTC date and
/// time `checked_add_signed` with `TimeDelta::try_hours`, then `format`. The
/// three steps are fixed by their arguments, so the text is named by them.
/// Each step that fails gives `None`; none of them panics.
#[verifier::external_body]
fn render_clock(millis: i64, offset_hours: i64, pattern: &str) -> (text: Option<String>)
    ensures
        text_of(text) == clock_text(millis as int, offset_hours as int, pattern@),
{
    let utc = chrono::DateTime::from_timestamp_millis(millis)?.naive_utc();
    let local = utc.checked_add_signed(chrono::TimeDelta::try_hours(offset_hours)?)?;
    let mut text = String::new();
    write!(text, "{}", local.format(pattern)).ok()?;
    Some(text)
}

/// Local date and time of `millis`, as `YYYY-MM-DD HH:MM:SS`. An instant
/// whose local time the calendar cannot hold is shown as the epoch.
pub open spec fn beijing_time_text(millis: int) -> Seq<char> {
    match clock_text(millis, LOCAL_OFFSET_HOURS as int, "%Y-%m-%d %H:%M:%S"@) {
        Some(text) => text,
        None => match clock_text(0, LOCAL_OFFSET_HOURS as int, "%Y-%m-%d %H:%M:%S"@) {
            Some(text) => text,
            None => Seq::empty(),
        },
    }
}

/// Writes a timestamp in milliseconds as local date and time.
pub fn to_beijing_time(timestamp_millis: i64) -> (text: String)
    ensures
        text@ == beijing_time_text(timestamp_millis as int),
{
    match render_clock(timestamp_millis, LOCAL_OFFSET_HOURS, "%Y-%m-%d %H:%M:%S") {
        Some(text) => text,
        None => match render_clock(0, LOCAL_OFFSET_HOURS, "%Y-%m-%d %H:%M:%S") {
            Some(text) => text,
            None => String::new(),
        },
    }
}

} // verus!
