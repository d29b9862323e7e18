//! Hour-of-day window membership.
//!
//! A window is given by a start hour and an end hour, each in `0..=23`.
//! It includes its start hour and excludes its end hour, may wrap past
//! midnight when the start lies after the end, and covers the whole day
//! when start and end are equal.
use vstd::prelude::*;

verus! {

/// Number of hours in a day; valid hours are `0..HOURS_PER_DAY`.
pub const HOURS_PER_DAY: u32 = 24;

/// An hour of the day: an integer in `[0, 23]`.
pub open spec fn is_hour(h: int) -> bool {
    0 <= h < HOURS_PER_DAY
}

/// Whether `target` lies in the window that starts at `start` and ends at `end`.
///
/// - `start < end`: the half-open interval `[start, end)`.
/// - `start > end`: the window wraps past midnight, `[start, 24) ∪ [0, end)`.
/// - `start == end`: the whole day.
pub open spec fn in_window(target: int, start: int, end: int) -> bool {
    if start < end {
        start <= target && target < end
    } else if start > end {
        target >= start || target < end
    } else {
        true
    }
}

/// Returns whether the hour `target` lies in the window from `start`
/// (included) to `end` (excluded), wrapping past midnight when
/// `start > end`; a window with `start == end` covers every hour.
pub fn is_time_within_range(target: u32, start: u32, end: u32) -> (r: bool)
    requires
        is_hour(target as int),
        is_hour(start as int),
        is_hour(end as int),
    ensures
        r == in_window(target as int, start as int, end as int),
        start < end ==> (r == (target >= start && target < end)),
        start > end ==> (r == (target >= start || target < end)),
        start == end ==> r,
{
    if start < end {
        target >= start && target < end
    } else if start > end {
        !(target >= end && target < start)
    } else {
        true
    }
}

/// The error of a membership query whose hour lies outside `[0, 23]`.
#[derive(Debug, Clone, Copy, PartialEq, Eq, Structural)]
pub struct InvalidHour {
    /// The offending value: the first of target, start and end, in that
    /// order, that is not an hour.
    pub hour: u32,
}

/// Like [`is_time_within_range`], but reports an hour outside `[0, 23]`
/// as [`InvalidHour`] instead of requiring valid hours of its caller.
pub fn checked_is_time_within_range(target: u32, start: u32, end: u32) -> (r: Result<bool, InvalidHour>)
    ensures
        r is Ok <==> (is_hour(target as int) && is_hour(start as int) && is_hour(end as int)),
        r matches Ok(b) ==> b == in_window(target as int, start as int, end as int),
        !is_hour(target as int) ==> r == Err::<bool, InvalidHour>(InvalidHour { hour: target }),
        is_hour(target as int) && !is_hour(start as int)
            ==> r == Err::<bool, InvalidHour>(InvalidHour { hour: start }),
        is_hour(target as int) && is_hour(start as int) && !is_hour(end as int)
            ==> r == Err::<bool, InvalidHour>(InvalidHour { hour: end }),
{
    if target >= HOURS_PER_DAY {
        Err(InvalidHour { hour: target })
    } else if start >= HOURS_PER_DAY {
        Err(InvalidHour { hour: start })
    } else if end >= HOURS_PER_DAY {
        Err(InvalidHour { hour: end })
    } else {
        Ok(is_time_within_range(target, start, end))
    }
}

/// The start hour of a window always belongs to it.
pub proof fn lemma_start_included(start: int, end: int)
    requires
        is_hour(start),
        is_hour(end),
    ensures
        in_window(start, start, end),
{
}

/// The end hour of a window belongs to it exactly when the window is
/// degenerate, that is when start and end are equal.
pub proof fn lemma_end_included_iff_whole_day(start: int, end: int)
    requires
        is_hour(start),
        is_hour(end),
    ensures
        in_window(end, start, end) <==> start == end,
{
}

} // verus!
