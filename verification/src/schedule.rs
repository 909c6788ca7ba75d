//! When to poll: the time between ticks, and the window in which a tick
//! leads to a fetch.

use crate::calendar::{LocalDateTime, LocalDateTimeView, Weekday};
use vstd::prelude::*;

verus! {

/// Seconds between ticks on a Monday, under the day-aware policy.
pub const MONDAY_INTERVAL_SECS: u64 = 30;

/// Seconds between ticks on any other day, under the day-aware policy.
pub const DAILY_INTERVAL_SECS: u64 = 300;

/// Seconds between ticks under the simple policy.
pub const SIMPLE_INTERVAL_SECS: u64 = 120;

/// The hour at which the active window opens.
pub const WINDOW_OPENS: u32 = 9;

/// The hour before which the active window closes. No hour of the day
/// reaches it: once open, the window stays open until midnight.
pub const WINDOW_CLOSES: u32 = 24;

/// Monday to Friday.
pub open spec fn is_working_day(weekday: Weekday) -> bool {
    weekday != Weekday::Sat && weekday != Weekday::Sun
}

/// The active window: a working day, from nine o'clock until midnight.
pub open spec fn in_active_window(weekday: Weekday, hour: int) -> bool {
    is_working_day(weekday) && WINDOW_OPENS <= hour < WINDOW_CLOSES
}

/// Whether the hour `hour` of a day that falls on `weekday` lies in the
/// active window.
pub fn within_active_window(weekday: Weekday, hour: u32) -> (r: bool)
    ensures
        r == in_active_window(weekday, hour as int),
        hour < 9 ==> !r,
        !is_working_day(weekday) ==> !r,
{
    let is_weekday = weekday != Weekday::Sat && weekday != Weekday::Sun;
    let is_between_9_and_12 = hour >= WINDOW_OPENS && hour < WINDOW_CLOSES;
    is_weekday && is_between_9_and_12
}

/// Whether the moment `day` lies in the active window.
pub fn can_work(day: &LocalDateTime) -> (r: bool)
    ensures
        r == in_active_window(day@.weekday(), day@.hour),
        day@.hour < 9 ==> !r,
        !is_working_day(day@.weekday()) ==> !r,
{
    within_active_window(day.weekday(), day.hour())
}

/// Whether the moment `day` falls on a Monday.
pub fn is_monday(day: &LocalDateTime) -> (r: bool)
    ensures
        r == (day@.weekday() == Weekday::Mon),
{
    day.weekday() == Weekday::Mon
}

/// How the watcher paces itself. The two policies are alternatives; a
/// watcher follows one of them throughout.
#[derive(Clone, Copy, Debug, PartialEq, Eq, Structural)]
pub enum PollPolicy {
    /// Ticks every 30 seconds on Mondays and every 5 minutes on other days;
    /// a tick leads to a fetch only inside the active window.
    DayAware,
    /// Ticks every 2 minutes; every tick leads to a fetch.
    Simple,
}

impl PollPolicy {
    /// The seconds to wait for the next tick on a day that falls on
    /// `weekday`.
    pub open spec fn spec_interval_secs_on(self, weekday: Weekday) -> int {
        match self {
            PollPolicy::DayAware => if weekday == Weekday::Mon {
                MONDAY_INTERVAL_SECS as int
            } else {
                DAILY_INTERVAL_SECS as int
            },
            PollPolicy::Simple => SIMPLE_INTERVAL_SECS as int,
        }
    }

    /// Whether a tick at the hour `hour` of a day that falls on `weekday`
    /// leads to a fetch.
    pub open spec fn spec_permits(self, weekday: Weekday, hour: int) -> bool {
        match self {
            PollPolicy::DayAware => in_active_window(weekday, hour),
            PollPolicy::Simple => true,
        }
    }

    /// The seconds to wait for the next tick when the wait begins at `now`.
    pub open spec fn spec_interval_secs(self, now: LocalDateTimeView) -> int {
        self.spec_interval_secs_on(now.weekday())
    }

    /// Whether a tick whose wait began at `now` leads to a fetch.
    pub open spec fn spec_is_active(self, now: LocalDateTimeView) -> bool {
        self.spec_permits(now.weekday(), now.hour)
    }

    /// The seconds to wait for the next tick on a day that falls on
    /// `weekday`.
    pub fn interval_secs_on(&self, weekday: Weekday) -> (secs: u64)
        ensures
            secs == self.spec_interval_secs_on(weekday),
    {
        match self {
            PollPolicy::DayAware => if weekday == Weekday::Mon {
                MONDAY_INTERVAL_SECS
            } else {
                DAILY_INTERVAL_SECS
            },
            PollPolicy::Simple => SIMPLE_INTERVAL_SECS,
        }
    }

    /// Whether a tick at the hour `hour` of a day that falls on `weekday`
    /// leads to a fetch.
    pub fn permits(&self, weekday: Weekday, hour: u32) -> (r: bool)
        ensures
            r == self.spec_permits(weekday, hour as int),
    {
        match self {
            PollPolicy::DayAware => within_active_window(weekday, hour),
            PollPolicy::Simple => true,
        }
    }

    /// The seconds to wait for the next tick when the wait begins at `now`.
    pub fn interval_secs(&self, now: &LocalDateTime) -> (secs: u64)
        ensures
            secs == self.spec_interval_secs(now@),
    {
        self.interval_secs_on(now.weekday())
    }

    /// Whether a tick whose wait began at `now` leads to a fetch.
    pub fn is_active(&self, now: &LocalDateTime) -> (r: bool)
        ensures
            r == self.spec_is_active(now@),
    {
        self.permits(now.weekday(), now.hour())
    }
}

} // verus!
