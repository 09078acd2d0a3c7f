//! Axis ticks, on the same coordinates as the data.

use crate::civil::{civil_day_month, day_month_at};
use crate::coords::{
    clock_of, is_clock, lemma_clock_round_trip, x_of, y_of, y_to_hourminute, ZonedInstant,
    DAY_MINUTES,
};
use crate::error::LogError;
use crate::text::{clock_label, day_label, format_clock, format_day};
use vstd::prelude::*;

verus! {

/// The number of ticks on the time-of-day axis: one for each quarter of an
/// hour.
pub const Y_TICKS: i32 = 96;

/// The distance between two ticks on the time-of-day axis, in minutes.
pub const Y_TICK_STEP: i32 = 15;

/// A mark on an axis.
#[derive(Debug)]
pub struct Tick {
    /// Where the mark stands: a number of days on the day axis, of minutes
    /// on the time-of-day axis.
    pub value: i64,
    /// What is written at the mark.
    pub label: String,
}

/// Whether `tick` is the `i`-th mark of the time-of-day axis: it stands at
/// `i` quarters of an hour and shows the clock time of that coordinate.
pub open spec fn is_y_tick(tick: Tick, i: int) -> bool {
    &&& tick.value == Y_TICK_STEP * i
    &&& tick.label@ == clock_label(
        clock_of(Y_TICK_STEP * i).0 as nat,
        clock_of(Y_TICK_STEP * i).1 as nat,
    )
}

/// Whether `tick` is the mark of day `i` on a chart whose first night is
/// `first_night`: it stands at `i` and shows that night's date.
pub open spec fn is_x_tick(tick: Tick, first_night: int, i: int) -> bool {
    &&& tick.value == i
    &&& civil_day_month(first_night + i) matches Some(dm) && tick.label@ == day_label(
        dm.0 as nat,
        dm.1 as nat,
    )
}

/// The number of days from the first night of a series to its last.
pub open spec fn x_span(times: Seq<ZonedInstant>) -> int {
    x_of(times.first(), times.last())
}

/// Whether every day from the first night of a series to its last has a
/// date.
pub open spec fn days_known(times: Seq<ZonedInstant>) -> bool {
    forall|d: int|
        0 <= d <= x_span(times) ==> (#[trigger] civil_day_month(times.first().night + d)) is Some
}

/// Whether `ticks` are the marks of the day axis for a series: one for each
/// day from the first night to the last, in order.
pub open spec fn are_x_ticks(times: Seq<ZonedInstant>, ticks: Seq<Tick>) -> bool {
    &&& times.len() > 0
    &&& ticks.len() == if x_span(times) >= 0 {
        x_span(times) + 1
    } else {
        0
    }
    &&& forall|i: int|
        0 <= i < ticks.len() ==> is_x_tick(#[trigger] ticks[i], times.first().night as int, i)
}

/// Whether `ticks` are the marks of the time-of-day axis.
pub open spec fn are_y_ticks(ticks: Seq<Tick>) -> bool {
    &&& ticks.len() == Y_TICKS
    &&& forall|i: int| 0 <= i < Y_TICKS ==> is_y_tick(#[trigger] ticks[i], i)
}

/// The marks of the day axis: one for each day from the first night of the
/// series to the last, labelled with the day and the month.
///
/// An empty series has no axis, and a series that reaches beyond the
/// calendar is corrupt.
pub fn get_x_ticks(times: &Vec<ZonedInstant>) -> (r: Result<Vec<Tick>, LogError>)
    ensures
        match r {
            Ok(ticks) => are_x_ticks(times@, ticks@) && days_known(times@),
            Err(LogError::EmptyLog) => times.len() == 0,
            Err(LogError::CorruptLog) => times.len() > 0 && !days_known(times@),
            Err(LogError::MissingLog) => false,
        },
{
    if times.len() == 0 {
        return Err(LogError::EmptyLog);
    }
    let first: i64 = times[0].night as i64;
    let span: i64 = times[times.len() - 1].night as i64 - first;
    assert(span == x_span(times@));
    let mut ticks: Vec<Tick> = Vec::new();
    let mut i: i64 = 0;
    while i <= span
        invariant
            0 <= i,
            span >= 0 ==> i <= span + 1,
            span < 0 ==> i == 0,
            times.len() > 0,
            first == times@.first().night,
            span == x_span(times@),
            ticks.len() == i,
            forall|k: int| 0 <= k < i ==> is_x_tick(#[trigger] ticks[k], first as int, k),
            forall|d: int| 0 <= d < i ==> (#[trigger] civil_day_month(first + d)) is Some,
        decreases span + 1 - i,
    {
        match day_month_at((first + i) as i32) {
            Some((day, month)) => {
                ticks.push(Tick { value: i, label: format_day(day, month) });
            },
            None => {
                assert(civil_day_month(times@.first().night + i) is None);
                return Err(LogError::CorruptLog);
            },
        }
        i += 1;
    }
    assert(days_known(times@)) by {
        assert forall|d: int| 0 <= d <= x_span(times@) implies (#[trigger] civil_day_month(
            times@.first().night + d,
        )) is Some by {
            assert(civil_day_month(first + d) is Some);
        }
    }
    assert(are_x_ticks(times@, ticks@));
    Ok(ticks)
}

/// The marks of the time-of-day axis: one for each quarter of an hour of
/// the day, labelled with the clock time that a data point at the same
/// coordinate shows.
pub fn get_y_ticks() -> (ticks: Vec<Tick>)
    ensures
        are_y_ticks(ticks@),
{
    let mut ticks: Vec<Tick> = Vec::new();
    let mut i: i32 = 0;
    while i < Y_TICKS
        invariant
            0 <= i <= Y_TICKS,
            ticks.len() == i,
            forall|k: int| 0 <= k < i ==> is_y_tick(#[trigger] ticks[k], k),
        decreases Y_TICKS - i,
    {
        let y: i32 = Y_TICK_STEP * i;
        let (h, m) = y_to_hourminute(y);
        ticks.push(Tick { value: y as i64, label: format_clock(h as u32, m as u32) });
        i += 1;
    }
    ticks
}

/// The marks of each axis stand at strictly increasing values, a day apart
/// on the day axis and a quarter of an hour apart on the time-of-day axis.
pub proof fn lemma_ticks_increase(times: Seq<ZonedInstant>, xs: Seq<Tick>, ys: Seq<Tick>, i: int)
    requires
        are_x_ticks(times, xs),
        are_y_ticks(ys),
    ensures
        0 < i < xs.len() ==> xs[i].value == xs[i - 1].value + 1,
        0 < i < ys.len() ==> ys[i].value == ys[i - 1].value + Y_TICK_STEP,
{
}

proof fn lemma_quarter_slot(h: int, m: int)
    requires
        is_clock(h, m),
        m % 15 == 0,
    ensures
        y_of(h, m) % 15 == 0,
        0 < y_of(h, m) / 15 <= 96,
        y_of(h, m) == 15 * (y_of(h, m) / 15),
{
    let folded = if h >= 12 {
        h - 12
    } else {
        h + 12
    };
    assert((h - 12) % 24 == folded);
    let quarter = m / 15;
    assert(m == 15 * quarter);
    assert(y_of(h, m) == 15 * (96 - 4 * folded - quarter));
}

/// Gridlines and data agree: a bedtime on a quarter of an hour lies on the
/// mark that shows its clock time. (Noon, where the day wraps, is shown by
/// the lowest mark and drawn at the top of the axis.)
pub proof fn lemma_tick_matches_instant(ticks: Seq<Tick>, t: ZonedInstant)
    requires
        are_y_ticks(ticks),
        t.wf(),
        t.minute % 15 == 0,
    ensures
        t.y() % 15 == 0,
        0 < t.y() / 15 <= Y_TICKS,
        t.y() < DAY_MINUTES ==> ticks[t.y() / 15].value == t.y(),
        ticks[(t.y() / 15) % 96].label@ == clock_label(t.hour as nat, t.minute as nat),
{
    lemma_clock_round_trip(t.hour as int, t.minute as int);
    lemma_quarter_slot(t.hour as int, t.minute as int);
    let y = t.y();
    let i = y / 15;
    assert(clock_of(y) == (t.hour as int, t.minute as int));
    if i < 96 {
        assert(i % 96 == i);
        assert(is_y_tick(ticks[i], i));
        assert(Y_TICK_STEP * i == y);
    } else {
        assert(i == 96 && y == 1440);
        assert(i % 96 == 0);
        assert(is_y_tick(ticks[0], 0));
        assert(Y_TICK_STEP * 0 == 0);
        assert(clock_of(0) == (12int, 0int));
        assert(clock_of(1440) == (12int, 0int));
    }
}

} // verus!
