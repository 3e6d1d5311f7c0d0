//! Points in time and validity windows, counted in whole nanoseconds.

use vstd::prelude::*;

verus! {

pub const NANOS_PER_SEC: i128 = 1_000_000_000;

pub const SECS_PER_HOUR: i128 = 3_600;

pub const SECS_PER_DAY: i128 = 86_400;

/// A point in time: seconds since the Unix epoch and the nanoseconds past
/// that second.
#[derive(Clone, Copy, Debug, PartialEq, Eq, Structural)]
pub struct Timestamp {
    pub secs: i64,
    pub nanos: u32,
}

impl Timestamp {
    /// Nanoseconds since the Unix epoch.
    pub open spec fn as_nanos(self) -> int {
        self.secs * 1_000_000_000 + self.nanos
    }

    pub fn new(secs: i64, nanos: u32) -> (t: Timestamp)
        ensures
            t.secs == secs,
            t.nanos == nanos,
    {
        Timestamp { secs, nanos }
    }

    /// Nanoseconds since the Unix epoch, as a machine integer.
    pub fn total_nanos(&self) -> (n: i128)
        ensures
            n == self.as_nanos(),
    {
        (self.secs as i128) * NANOS_PER_SEC + (self.nanos as i128)
    }
}

/// Length in nanoseconds of a window of `hours` hours.
pub open spec fn hours_as_nanos(hours: int) -> int {
    hours * 3_600 * 1_000_000_000
}

/// Length in nanoseconds of a window of `days` days.
pub open spec fn days_as_nanos(days: int) -> int {
    days * 86_400 * 1_000_000_000
}

/// Whether `start` lies strictly after `now - window`, that is, whether
/// less than `window` nanoseconds have passed since `start`.
pub open spec fn within_window(start: Timestamp, now: Timestamp, window: int) -> bool {
    start.as_nanos() > now.as_nanos() - window
}

pub fn hours_to_nanos(hours: i64) -> (n: i128)
    ensures
        n == hours_as_nanos(hours as int),
{
    (hours as i128) * SECS_PER_HOUR * NANOS_PER_SEC
}

pub fn days_to_nanos(days: i64) -> (n: i128)
    ensures
        n == days_as_nanos(days as int),
{
    (days as i128) * SECS_PER_DAY * NANOS_PER_SEC
}

/// Decides whether a window of `window` nanoseconds that opened at `start`
/// is still open at `now`. The window is half-open: at exactly
/// `start + window` it has closed.
pub fn is_within_window(start: Timestamp, now: Timestamp, window: i128) -> (open: bool)
    requires
        -(i128::MAX / 2) <= window <= i128::MAX / 2,
    ensures
        open == within_window(start, now, window as int),
        open == (now.as_nanos() - start.as_nanos() < window),
{
    start.total_nanos() > now.total_nanos() - window
}

/// A window that has closed at some moment stays closed afterwards.
pub proof fn lemma_window_closes_for_good(
    start: Timestamp,
    now: Timestamp,
    later: Timestamp,
    window: int,
)
    requires
        !within_window(start, now, window),
        now.as_nanos() <= later.as_nanos(),
    ensures
        !within_window(start, later, window),
{
}

} // verus!
