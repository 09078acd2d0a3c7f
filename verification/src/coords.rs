//! The mapping between clock times and chart coordinates.
//!
//! The chart's day starts at local noon rather than at midnight, so that
//! bedtimes on either side of midnight belong to the same night.

use crate::civil::{zoned_civil, zoned_civil_at, HALF_DAY_SECS};
use vstd::prelude::*;

verus! {

/// Length of the time-of-day axis, in minutes.
pub const DAY_MINUTES: i32 = 1440;

/// The time-of-day coordinate of the clock time `h:m`, in minutes: the clock
/// is turned back twelve hours, and the coordinate is what is left of the
/// day after that time.
pub open spec fn y_of(h: int, m: int) -> int {
    DAY_MINUTES - (((h - 12) % 24) * 60 + m)
}

/// The clock time `(hour, minute)` shown at the coordinate `y`.
pub open spec fn clock_of(y: int) -> (int, int) {
    ((((DAY_MINUTES - y) / 60) + 12) % 24, (DAY_MINUTES - y) % 60)
}

/// Whether `h:m` is a time of day.
pub open spec fn is_clock(h: int, m: int) -> bool {
    0 <= h < 24 && 0 <= m < 60
}

/// Maps a clock time to its time-of-day coordinate, in minutes.
pub fn hourminute_to_y(h: i16, m: i16) -> (y: i32)
    ensures
        y == y_of(h as int, m as int),
{
    // 32784 is a multiple of 24 that lifts every shifted hour above zero.
    let lifted: i32 = h as i32 - 12 + 32784;
    let folded: i32 = lifted % 24;
    assert(folded == (h as int - 12) % 24) by {
        assert(32784 == 24 * 1366);
        vstd::arithmetic::div_mod::lemma_mod_multiples_vanish(1366, h as int - 12, 24);
    }
    DAY_MINUTES - (folded * 60 + m as i32)
}

/// Recovers the clock time shown at a time-of-day coordinate.
pub fn y_to_hourminute(y: i32) -> (hm: (i16, i16))
    requires
        0 <= y <= DAY_MINUTES,
    ensures
        hm.0 as int == clock_of(y as int).0,
        hm.1 as int == clock_of(y as int).1,
        is_clock(hm.0 as int, hm.1 as int),
{
    let clock: i32 = DAY_MINUTES - y;
    let h: i32 = (clock / 60 + 12) % 24;
    let m: i32 = clock % 60;
    (h as i16, m as i16)
}

/// Mapping a time of day to its coordinate and back gives the same time.
pub proof fn lemma_clock_round_trip(h: int, m: int)
    requires
        is_clock(h, m),
    ensures
        0 < y_of(h, m) <= DAY_MINUTES,
        clock_of(y_of(h, m)) == (h, m),
{
    let folded = (h - 12) % 24;
    assert(folded == if h >= 12 { h - 12 } else { h + 12 });
    let clock = folded * 60 + m;
    assert(DAY_MINUTES - y_of(h, m) == clock);
    assert(clock / 60 == folded && clock % 60 == m);
    assert((folded + 12) % 24 == h);
}

/// Distinct times of day have distinct coordinates, and noon, where the
/// chart's day starts, lies at the top of the axis.
pub proof fn lemma_y_of_injective(h1: int, m1: int, h2: int, m2: int)
    requires
        is_clock(h1, m1),
        is_clock(h2, m2),
        y_of(h1, m1) == y_of(h2, m2),
    ensures
        h1 == h2,
        m1 == m2,
        y_of(12, 0) == DAY_MINUTES,
{
    lemma_clock_round_trip(h1, m1);
    lemma_clock_round_trip(h2, m2);
}

/// An instant as a wall clock shows it in its time zone.
#[derive(Clone, Copy, Debug, PartialEq, Eq, Structural)]
pub struct ZonedInstant {
    /// The night that the instant belongs to: the local calendar date twelve
    /// hours before the instant, counted in days from 31 December of 1 BCE.
    pub night: i32,
    /// The local calendar date of the instant itself, counted in the same
    /// way.
    pub date: i32,
    /// Local hour of the day.
    pub hour: u8,
    /// Local minute of the hour.
    pub minute: u8,
}

impl ZonedInstant {
    /// Whether the clock fields are a time of day.
    pub open spec fn wf(&self) -> bool {
        is_clock(self.hour as int, self.minute as int)
    }

    /// The instant's time-of-day coordinate.
    pub open spec fn y(&self) -> int {
        y_of(self.hour as int, self.minute as int)
    }

    /// Makes an instant from a night, a date and a clock time, if the clock
    /// time is a time of day.
    pub fn new(night: i32, date: i32, hour: u32, minute: u32) -> (r: Option<ZonedInstant>)
        ensures
            is_clock(hour as int, minute as int) <==> r is Some,
            r matches Some(t) ==> t.night == night && t.date == date && t.hour == hour
                && t.minute == minute && t.wf(),
    {
        if hour < 24 && minute < 60 {
            Some(ZonedInstant { night, date, hour: hour as u8, minute: minute as u8 })
        } else {
            None
        }
    }

    /// The instant's time-of-day coordinate, in minutes.
    pub fn y_coord(&self) -> (y: i32)
        ensures
            y == self.y(),
            self.wf() ==> 0 < y <= DAY_MINUTES,
    {
        proof {
            if self.wf() {
                lemma_clock_round_trip(self.hour as int, self.minute as int);
            }
        }
        hourminute_to_y(self.hour as i16, self.minute as i16)
    }
}

/// The instant `utc_secs` seconds after the start of 1970 in UTC, as a wall
/// clock in the time zone `zone` shows it: the date and the clock time at
/// the instant, and the date twelve hours before it. `None` where the zone is unknown,
/// either of the two instants is beyond the calendar, or the clock shows no
/// time of day.
pub open spec fn local_of(utc_secs: int, zone: Seq<char>) -> Option<ZonedInstant> {
    if utc_secs - HALF_DAY_SECS < i64::MIN {
        None
    } else {
        match (zoned_civil(utc_secs, zone), zoned_civil(utc_secs - HALF_DAY_SECS, zone)) {
            (Some(at), Some(before)) => if is_clock(at.1, at.2) {
                Some(
                    ZonedInstant {
                        night: before.0 as i32,
                        date: at.0 as i32,
                        hour: at.1 as u8,
                        minute: at.2 as u8,
                    },
                )
            } else {
                None
            },
            _ => None,
        }
    }
}

/// Converts a UTC instant, in seconds since the start of 1970, to the local
/// time of a zone of the time zone database.
pub fn localize(utc_secs: i64, zone: &str) -> (r: Option<ZonedInstant>)
    ensures
        r == local_of(utc_secs as int, zone@),
        r matches Some(t) ==> t.wf(),
{
    if utc_secs < i64::MIN + HALF_DAY_SECS {
        return None;
    }
    match (zoned_civil_at(utc_secs, zone), zoned_civil_at(utc_secs - HALF_DAY_SECS, zone)) {
        (Some(at), Some(before)) => ZonedInstant::new(before.0, at.0, at.1, at.2),
        _ => None,
    }
}

/// The day coordinate of `t` on a chart that starts at `tmin`: the number of
/// nights from that of `tmin` to that of `t`.
pub open spec fn x_of(tmin: ZonedInstant, t: ZonedInstant) -> int {
    t.night - tmin.night
}

/// Maps an instant to its day coordinate, relative to the first instant of
/// the chart.
pub fn get_x_coord(tmin: &ZonedInstant, t: &ZonedInstant) -> (x: i64)
    ensures
        x == x_of(*tmin, *t),
{
    t.night as i64 - tmin.night as i64
}

/// The first instant of a chart is at day 0, and the day coordinate follows
/// the order of the nights.
pub proof fn lemma_x_of_monotone(tmin: ZonedInstant, a: ZonedInstant, b: ZonedInstant)
    ensures
        x_of(tmin, tmin) == 0,
        a.night <= b.night <==> x_of(tmin, a) <= x_of(tmin, b),
        tmin.night <= a.night <==> 0 <= x_of(tmin, a),
{
}

} // verus!
