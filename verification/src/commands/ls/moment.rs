//! The modification time of the long format.

use chrono::{DateTime, FixedOffset};
use vstd::prelude::*;

verus! {

/// The last second that can be rendered: the end of the year 262142, the
/// last year of the calendar in use.
pub const LAST_SECOND: i64 = 8_210_266_876_799;

/// The bound of an offset of local time: a day, in seconds.
pub const DAY: i32 = 86_400;

/// The pattern of the time column: abbreviated month, day of the month
/// padded with a space, hour and minute.
pub open spec fn time_pattern() -> Seq<char> {
    seq!['%', 'b', ' ', '%', 'e', ' ', '%', 'H', ':', '%', 'M']
}

/// The text that `chrono` renders a moment as: the moment `seconds`
/// after the epoch, on a clock that is `offset` seconds ahead of UTC,
/// after `pattern`.
pub uninterp spec fn time_text(seconds: i64, offset: i32, pattern: Seq<char>) -> Seq<char>;

/// Renders a moment on a clock with a fixed offset, through
/// `DateTime::from_timestamp`, `FixedOffset::east_opt`,
/// `DateTime::with_timezone` and `DateTime::format`. The result depends
/// on the arguments alone; it is known here only by its name.
///
/// What the calls accept is what is admitted: a moment from the epoch
/// to `LAST_SECOND`, beyond which there is no date; an offset of less
/// than a day either way; and the pattern of the time column, whose
/// specifiers are all known to the formatter.
#[verifier::external_body]
pub(crate) fn render_at(seconds: i64, offset: i32, pattern: &str) -> (r: String)
    requires
        0 <= seconds <= LAST_SECOND,
        -DAY < offset < DAY,
        pattern@ == time_pattern(),
    ensures
        r@ == time_text(seconds, offset, pattern@),
{
    let utc = DateTime::from_timestamp(seconds, 0).unwrap();
    let zone = FixedOffset::east_opt(offset).unwrap();
    utc.with_timezone(&zone).format(pattern).to_string()
}

/// Why a modification time cannot be rendered, if it cannot.
#[derive(Clone, Copy, Debug, PartialEq, Eq, Structural)]
pub enum TimeFault {
    /// The moment lies before the epoch.
    BeforeEpoch,
    /// The moment lies after `LAST_SECOND`.
    TooLate,
    /// The offset of local time is a day or more.
    OffsetOutOfRange,
}

/// The fault of a modification time with its offset, if it has one.
pub open spec fn time_fault(mtime: i64, offset: i32) -> Option<TimeFault> {
    if mtime < 0 {
        Some(TimeFault::BeforeEpoch)
    } else if mtime > LAST_SECOND {
        Some(TimeFault::TooLate)
    } else if offset <= -DAY || offset >= DAY {
        Some(TimeFault::OffsetOutOfRange)
    } else {
        None
    }
}

/// The time column for a modification time: month, day, hour and
/// minute on the local clock.
pub open spec fn modified_text(mtime: i64, offset: i32) -> Seq<char> {
    time_text(mtime, offset, time_pattern())
}

/// Renders a modification time for the long format, in the local time
/// that `offset` gives: the seconds by which the local clock is ahead of
/// UTC at that moment. A moment before the epoch or after `LAST_SECOND`,
/// and an offset of a day or more, are refused with their fault.
pub fn last_modified_time(mtime: i64, offset: i32) -> (r: Result<String, TimeFault>)
    ensures
        match r {
            Ok(s) => time_fault(mtime, offset) is None && s@ == modified_text(mtime, offset),
            Err(fault) => time_fault(mtime, offset) == Some(fault),
        },
{
    if mtime < 0 {
        Err(TimeFault::BeforeEpoch)
    } else if mtime > LAST_SECOND {
        Err(TimeFault::TooLate)
    } else if offset <= -DAY || offset >= DAY {
        Err(TimeFault::OffsetOutOfRange)
    } else {
        let pattern = "%b %e %H:%M";
        proof {
            reveal_strlit("%b %e %H:%M");
            assert(pattern@ =~= time_pattern());
        }
        Ok(render_at(mtime, offset, pattern))
    }
}

} // verus!
