//! The log of bedtimes and the target that is in force.

use crate::coords::{local_of, localize, ZonedInstant};
use vstd::prelude::*;
use vstd::string::StringExecFns;

verus! {

/// The hour of the target that a new tracker starts with.
pub const DEFAULT_TARGET_HOUR: u8 = 11;

/// The minute of the target that a new tracker starts with.
pub const DEFAULT_TARGET_MINUTE: u8 = 20;

/// The time zone in which bedtimes are logged.
pub const TZ: &'static str = "Australia/Melbourne";

/// One logged bedtime.
#[derive(Debug)]
pub struct LogEntry {
    /// The instant, in seconds since the start of 1970 in UTC.
    pub bedtime: i64,
    /// The name of the time zone in which it was logged.
    pub timezone: String,
    /// The target, hour and minute, that was in force.
    pub target: (u8, u8),
}

/// The bedtime log with the current target.
#[derive(Debug)]
pub struct Tracker {
    /// The target, hour and minute, for the bedtimes to come.
    pub current_target: (u8, u8),
    /// The bedtimes, in the order in which they were logged.
    pub time_log: Vec<LogEntry>,
}

impl LogEntry {
    /// The entry's bedtime as a wall clock in its time zone shows it.
    pub open spec fn local(&self) -> Option<ZonedInstant> {
        local_of(self.bedtime as int, self.timezone@)
    }
}

/// Whether the instants of a log never go back.
pub open spec fn is_chronological(log: Seq<LogEntry>) -> bool {
    forall|i: int, j: int| 0 <= i <= j < log.len() ==> log[i].bedtime <= log[j].bedtime
}

impl Tracker {
    /// A tracker with an empty log and the default target.
    pub fn new() -> (tracker: Tracker)
        ensures
            tracker.current_target == (DEFAULT_TARGET_HOUR, DEFAULT_TARGET_MINUTE),
            tracker.time_log@.len() == 0,
    {
        Tracker {
            current_target: (DEFAULT_TARGET_HOUR, DEFAULT_TARGET_MINUTE),
            time_log: Vec::new(),
        }
    }

    /// Changes the target for the bedtimes to come. The log keeps the
    /// targets that its entries were logged with.
    pub fn set_target(&mut self, target: (u8, u8))
        ensures
            final(self).current_target == target,
            final(self).time_log == old(self).time_log,
    {
        self.current_target = target;
    }

    /// Appends a bedtime at the instant `utc_now`, in seconds since the
    /// start of 1970 in UTC, with the current target, and returns the
    /// instant as local time, where it has one.
    pub fn log(&mut self, utc_now: i64) -> (local: Option<ZonedInstant>)
        ensures
            final(self).current_target == old(self).current_target,
            final(self).time_log@.len() == old(self).time_log@.len() + 1,
            final(self).time_log@.drop_last() == old(self).time_log@,
            final(self).time_log@.last().bedtime == utc_now,
            final(self).time_log@.last().timezone@ == TZ@,
            final(self).time_log@.last().target == old(self).current_target,
            local == final(self).time_log@.last().local(),
            is_chronological(old(self).time_log@) && (old(self).time_log@.len() == 0 || old(
                self,
            ).time_log@.last().bedtime <= utc_now) ==> is_chronological(final(self).time_log@),
    {
        let entry = LogEntry {
            bedtime: utc_now,
            timezone: String::from_str(TZ),
            target: self.current_target,
        };
        self.time_log.push(entry);
        assert(self.time_log@.drop_last() =~= old(self).time_log@);
        assert forall|i: int| 0 <= i < old(self).time_log@.len() implies self.time_log@[i] == old(
            self,
        ).time_log@[i] by {
            assert(self.time_log@.drop_last()[i] == self.time_log@[i]);
        }
        localize(utc_now, TZ)
    }
}

} // verus!
