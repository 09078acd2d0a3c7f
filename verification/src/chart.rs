//! The chart: everything a renderer needs, put together from a log.

use crate::civil::{civil_day_month, day_month_at};
use crate::coords::{
    clock_of, get_x_coord, hourminute_to_y, lemma_clock_round_trip, localize, x_of, y_of,
    y_to_hourminute, ZonedInstant, DAY_MINUTES,
};
use crate::error::LogError;
use crate::smoothing::{avg_filter_y, is_trend_of};
use crate::streaks::{
    best_streak, compute_streaks, current_of, current_streak, is_best_of, streak_runs,
};
use crate::text::{clock_label, format_clock, format_point, point_label};
use crate::ticks::{
    are_x_ticks, are_y_ticks, days_known, get_x_ticks, get_y_ticks, x_span, Tick,
};
use crate::tracker::{LogEntry, Tracker};
use vstd::prelude::*;

verus! {

/// The number of days that the chart shows before its last one, until the
/// viewer moves the range.
pub const DEFAULT_RANGE: i64 = 100;

/// One bedtime on the chart.
#[derive(Debug)]
pub struct Point {
    /// The day coordinate.
    pub x: i64,
    /// The time-of-day coordinate, in minutes.
    pub y: i32,
    /// What is shown when the pointer rests on the point: the local date
    /// and clock time of the bedtime, as `day/month HH:MM`.
    pub hover: String,
}

/// The end of an axis that stays in place when the axis is resized.
#[derive(Clone, Copy, Debug, PartialEq, Eq, Structural)]
pub enum AxisAnchor {
    /// The high end.
    Top,
    /// The low end.
    Bottom,
}

/// The colour of a line.
#[derive(Clone, Copy, Debug, PartialEq, Eq, Structural)]
pub enum Color {
    /// The bedtimes.
    Blue,
    /// The trend.
    Green,
    /// The target.
    Red,
}

/// How the points of a series are drawn.
#[derive(Clone, Copy, Debug, PartialEq, Eq, Structural)]
pub enum Mode {
    /// A line through the points.
    Lines,
    /// A line through the points, with a marker at each.
    LinesMarkers,
}

/// What is shown when the pointer rests on a point of a series.
#[derive(Clone, Copy, Debug, PartialEq, Eq, Structural)]
pub enum Hover {
    /// The point's hover text.
    Text,
    /// Nothing.
    Hidden,
    /// What the renderer shows by itself.
    Coordinates,
}

/// How a series is drawn.
#[derive(Clone, Copy, Debug, PartialEq, Eq, Structural)]
pub struct LineStyle {
    /// The line's colour.
    pub color: Color,
    /// Whether the points are marked.
    pub mode: Mode,
    /// What the pointer shows.
    pub hover: Hover,
}

/// The text block under the chart.
#[derive(Debug)]
pub struct Summary {
    /// The target as `HH:MM`.
    pub target: String,
    /// The number of nights up to the latest that met the target without a
    /// break.
    pub current_streak: u64,
    /// The longest such run in the log.
    pub best_streak: u64,
}

/// A chart as data, for a renderer to draw.
#[derive(Debug)]
pub struct ChartData {
    /// The marks of the day axis.
    pub x_ticks: Vec<Tick>,
    /// The marks of the time-of-day axis.
    pub y_ticks: Vec<Tick>,
    /// Which end of the time-of-day axis is held: the top, where noon is.
    pub y_anchor: AxisAnchor,
    /// The bedtimes, in the order of the log.
    pub points: Vec<Point>,
    /// How the bedtimes are drawn.
    pub points_style: LineStyle,
    /// The trend, one entry for each point: the sum of the point's window
    /// of time-of-day coordinates (the average times the window's size).
    pub trend: Vec<i64>,
    /// How the trend is drawn.
    pub trend_style: LineStyle,
    /// The time-of-day coordinate of the target line.
    pub target_y: i32,
    /// How the target line is drawn.
    pub target_style: LineStyle,
    /// The day coordinate at which the target line, which starts at 0, ends.
    pub x_max: i64,
    /// The day coordinate at which the range shown at first starts; it ends
    /// at `x_max`.
    pub range_start: i64,
    /// The text block.
    pub summary: Summary,
}

/// What is shown in answer to a request for the chart.
#[derive(Debug)]
pub enum Page {
    /// A placeholder: there is nothing to draw yet.
    NoData,
    /// A report that the log cannot be read.
    Failure,
    /// The chart.
    Chart(ChartData),
}

/// Whether every instant of a series shows a time of day.
pub open spec fn all_wf(times: Seq<ZonedInstant>) -> bool {
    forall|i: int| 0 <= i < times.len() ==> (#[trigger] times[i]).wf()
}

/// Whether the date of every instant of a series is one of the calendar.
pub open spec fn dates_known(times: Seq<ZonedInstant>) -> bool {
    forall|i: int|
        0 <= i < times.len() ==> civil_day_month((#[trigger] times[i]).date as int) is Some
}

/// Whether a series can be charted.
pub open spec fn chartable(times: Seq<ZonedInstant>) -> bool {
    all_wf(times) && dates_known(times) && days_known(times)
}

/// Whether `p` is the point of the `i`-th instant of a series: its day
/// coordinate counts from the first night of the series, its time-of-day
/// coordinate is that of the instant's clock time, and its hover text shows
/// the instant's date and the clock time of its coordinate.
pub open spec fn is_point_of(times: Seq<ZonedInstant>, i: int, p: Point) -> bool {
    &&& p.x == x_of(times.first(), times[i])
    &&& p.y == times[i].y()
    &&& civil_day_month(times[i].date as int) matches Some(dm) && p.hover@ == point_label(
        dm.0 as nat,
        dm.1 as nat,
        clock_of(p.y as int).0 as nat,
        clock_of(p.y as int).1 as nat,
    )
}

/// Whether `points` are the points of a series, in its order.
pub open spec fn are_points_of(times: Seq<ZonedInstant>, points: Seq<Point>) -> bool {
    &&& points.len() == times.len()
    &&& forall|i: int| 0 <= i < times.len() ==> is_point_of(times, i, #[trigger] points[i])
}

/// The time-of-day coordinates of a list of points.
pub open spec fn point_ys(points: Seq<Point>) -> Seq<i32> {
    points.map_values(|p: Point| p.y)
}

/// Whether `m` is the largest day coordinate of `points`, or 0 where none
/// is above 0.
pub open spec fn is_x_max(points: Seq<Point>, m: int) -> bool {
    &&& m >= 0
    &&& forall|i: int| 0 <= i < points.len() ==> (#[trigger] points[i]).x <= m
    &&& m == 0 || exists|i: int| 0 <= i < points.len() && (#[trigger] points[i]).x == m
}

/// Whether `s` sums up a series of time-of-day coordinates against a
/// target: it shows the target, the current streak and the best streak.
pub open spec fn is_summary_of(ys: Seq<i32>, target: (u8, u8), s: Summary) -> bool {
    let runs = streak_runs(ys, y_of(target.0 as int, target.1 as int));
    &&& s.target@ == clock_label(target.0 as nat, target.1 as nat)
    &&& s.current_streak as int == current_of(runs)
    &&& is_best_of(runs, s.best_streak as int)
}

/// How the bedtimes are drawn: blue, marked, each with its hover text.
pub open spec fn points_style() -> LineStyle {
    LineStyle { color: Color::Blue, mode: Mode::LinesMarkers, hover: Hover::Text }
}

/// How the trend is drawn: green, without markers or hover text.
pub open spec fn trend_style() -> LineStyle {
    LineStyle { color: Color::Green, mode: Mode::Lines, hover: Hover::Hidden }
}

/// How the target line is drawn: red, without markers.
pub open spec fn target_style() -> LineStyle {
    LineStyle { color: Color::Red, mode: Mode::Lines, hover: Hover::Coordinates }
}

/// Whether `c` is the chart of a series against a target.
pub open spec fn is_chart_of(times: Seq<ZonedInstant>, target: (u8, u8), c: ChartData) -> bool {
    &&& are_x_ticks(times, c.x_ticks@)
    &&& are_y_ticks(c.y_ticks@)
    &&& c.y_anchor == AxisAnchor::Top
    &&& are_points_of(times, c.points@)
    &&& c.points_style == points_style()
    &&& is_trend_of(point_ys(c.points@), c.trend@)
    &&& c.trend_style == trend_style()
    &&& c.target_y == y_of(target.0 as int, target.1 as int)
    &&& c.target_style == target_style()
    &&& is_x_max(c.points@, c.x_max as int)
    &&& c.range_start == c.x_max - DEFAULT_RANGE
    &&& is_summary_of(point_ys(c.points@), target, c.summary)
}

/// Whether `r` is what assembling a series against a target gives: the
/// chart where the series can be charted, and else what is wrong with it.
pub open spec fn is_assembly_of(
    times: Seq<ZonedInstant>,
    target: (u8, u8),
    r: Result<ChartData, LogError>,
) -> bool {
    match r {
        Ok(c) => times.len() > 0 && chartable(times) && is_chart_of(times, target, c),
        Err(LogError::EmptyLog) => times.len() == 0,
        Err(LogError::CorruptLog) => times.len() > 0 && !chartable(times),
        Err(LogError::MissingLog) => false,
    }
}

/// The local times of a log's entries; meaningful where each has one.
pub open spec fn localized(log: Seq<LogEntry>) -> Seq<ZonedInstant> {
    Seq::new(log.len(), |i: int| log[i].local().unwrap())
}

/// Whether every entry of a log has a local time.
pub open spec fn all_local(log: Seq<LogEntry>) -> bool {
    forall|i: int| 0 <= i < log.len() ==> (#[trigger] log[i]).local() is Some
}

/// Each point shows its own clock time: on a series of times of day, the
/// time-of-day coordinate lies on the axis and the hover text ends in the
/// instant's hour and minute.
pub proof fn lemma_point_shows_clock(times: Seq<ZonedInstant>, points: Seq<Point>, i: int)
    requires
        are_points_of(times, points),
        0 <= i < times.len(),
        times[i].wf(),
    ensures
        0 < points[i].y <= DAY_MINUTES,
        civil_day_month(times[i].date as int) matches Some(dm) && points[i].hover@
            == point_label(
            dm.0 as nat,
            dm.1 as nat,
            times[i].hour as nat,
            times[i].minute as nat,
        ),
{
    assert(is_point_of(times, i, points[i]));
    lemma_clock_round_trip(times[i].hour as int, times[i].minute as int);
}

/// On a series whose nights never go back, the day coordinates start at 0
/// and never go back either, possibly with gaps, and the target line ends
/// where the day axis does.
pub proof fn lemma_points_in_order(times: Seq<ZonedInstant>, points: Seq<Point>, m: int)
    requires
        times.len() > 0,
        forall|i: int, j: int| 0 <= i <= j < times.len() ==> times[i].night <= times[j].night,
        are_points_of(times, points),
        is_x_max(points, m),
    ensures
        points[0].x == 0,
        forall|i: int, j: int| 0 <= i <= j < points.len() ==> points[i].x <= points[j].x,
        m == x_span(times),
{
    assert forall|i: int, j: int| 0 <= i <= j < points.len() implies points[i].x
        <= points[j].x by {
        assert(is_point_of(times, i, points[i]));
        assert(is_point_of(times, j, points[j]));
    }
    let last = times.len() - 1;
    assert(is_point_of(times, 0, points[0]));
    assert(is_point_of(times, last, points[last]));
    assert(points[last].x == x_span(times));
    if m != 0 {
        let k = choose|k: int| 0 <= k < points.len() && (#[trigger] points[k]).x == m;
        assert(points[k].x <= points[last].x);
    }
}

/// The points of a series: its coordinates with their hover texts.
///
/// A series with an instant that shows no time of day, or whose date is
/// beyond the calendar, is corrupt.
pub fn get_points(times: &Vec<ZonedInstant>) -> (r: Result<Vec<Point>, LogError>)
    ensures
        match r {
            Ok(points) => all_wf(times@) && dates_known(times@) && are_points_of(
                times@,
                points@,
            ),
            Err(LogError::CorruptLog) => !(all_wf(times@) && dates_known(times@)),
            Err(_) => false,
        },
{
    let mut points: Vec<Point> = Vec::new();
    let mut i: usize = 0;
    while i < times.len()
        invariant
            i <= times.len(),
            points.len() == i,
            forall|k: int| 0 <= k < i ==> (#[trigger] times@[k]).wf(),
            forall|k: int|
                0 <= k < i ==> civil_day_month((#[trigger] times@[k]).date as int) is Some,
            forall|k: int| 0 <= k < i ==> is_point_of(times@, k, #[trigger] points@[k]),
        decreases times.len() - i,
    {
        let t = &times[i];
        if t.hour >= 24 || t.minute >= 60 {
            assert(!times@[i as int].wf());
            return Err(LogError::CorruptLog);
        }
        let y = t.y_coord();
        let (h, m) = y_to_hourminute(y);
        match day_month_at(t.date) {
            Some((day, month)) => {
                let hover = format_point(day, month, h as u32, m as u32);
                points.push(Point { x: get_x_coord(&times[0], t), y, hover });
            },
            None => {
                assert(civil_day_month(times@[i as int].date as int) is None);
                return Err(LogError::CorruptLog);
            },
        }
        i += 1;
    }
    Ok(points)
}

/// The time-of-day coordinates of a list of points, in order.
pub fn y_coords(points: &Vec<Point>) -> (ys: Vec<i32>)
    ensures
        ys@ == point_ys(points@),
{
    let mut ys: Vec<i32> = Vec::new();
    let mut i: usize = 0;
    while i < points.len()
        invariant
            i <= points.len(),
            ys.len() == i,
            forall|k: int| 0 <= k < i ==> ys@[k] == (#[trigger] points@[k]).y,
        decreases points.len() - i,
    {
        ys.push(points[i].y);
        i += 1;
    }
    assert(ys@ =~= point_ys(points@));
    ys
}

/// The day coordinate at which the target line ends: the largest of the
/// points, and 0 where there is none above it.
pub fn max_x(points: &Vec<Point>) -> (m: i64)
    ensures
        is_x_max(points@, m as int),
{
    let mut m: i64 = 0;
    let mut i: usize = 0;
    while i < points.len()
        invariant
            i <= points.len(),
            m >= 0,
            forall|k: int| 0 <= k < i ==> (#[trigger] points@[k]).x <= m,
            m == 0 || exists|k: int| 0 <= k < i && (#[trigger] points@[k]).x == m,
        decreases points.len() - i,
    {
        if points[i].x > m {
            m = points[i].x;
            assert(points@[i as int].x == m);
        } else if m != 0 {
            let ghost k = choose|k: int| 0 <= k < i && (#[trigger] points@[k]).x == m;
            assert(points@[k].x == m);
        }
        i += 1;
    }
    m
}

/// Sums up a chronological series of time-of-day coordinates against a
/// target.
pub fn summarize(target: (u8, u8), ys: &Vec<i32>) -> (s: Summary)
    ensures
        is_summary_of(ys@, target, s),
{
    let target_y = hourminute_to_y(target.0 as i16, target.1 as i16);
    let streaks = compute_streaks(target_y, ys);
    Summary {
        target: format_clock(target.0 as u32, target.1 as u32),
        current_streak: current_streak(&streaks),
        best_streak: best_streak(&streaks),
    }
}

/// Puts the chart of a series of local times together: the points with
/// their hover texts, the trend, the target line, both axes and the
/// summary.
///
/// An empty series gives [`LogError::EmptyLog`], one that cannot be charted
/// [`LogError::CorruptLog`].
pub fn assemble_chart(times: &Vec<ZonedInstant>, target: (u8, u8)) -> (r: Result<
    ChartData,
    LogError,
>)
    ensures
        is_assembly_of(times@, target, r),
{
    let x_ticks = match get_x_ticks(times) {
        Ok(ticks) => ticks,
        Err(e) => {
            return Err(e);
        },
    };
    let points = match get_points(times) {
        Ok(points) => points,
        Err(e) => {
            return Err(e);
        },
    };
    let ys = y_coords(&points);
    let x_max = max_x(&points);
    assert(x_max <= i32::MAX - i32::MIN) by {
        if x_max != 0 {
            let k = choose|k: int| 0 <= k < points@.len() && (#[trigger] points@[k]).x == x_max;
            assert(is_point_of(times@, k, points@[k]));
        }
    }
    Ok(
        ChartData {
            x_ticks,
            y_ticks: get_y_ticks(),
            y_anchor: AxisAnchor::Top,
            points_style: LineStyle {
                color: Color::Blue,
                mode: Mode::LinesMarkers,
                hover: Hover::Text,
            },
            trend: avg_filter_y(&ys),
            trend_style: LineStyle { color: Color::Green, mode: Mode::Lines, hover: Hover::Hidden },
            target_y: hourminute_to_y(target.0 as i16, target.1 as i16),
            target_style: LineStyle {
                color: Color::Red,
                mode: Mode::Lines,
                hover: Hover::Coordinates,
            },
            x_max,
            range_start: x_max - DEFAULT_RANGE,
            summary: summarize(target, &ys),
            points,
        },
    )
}

/// The chart of a tracker's log against its current target.
///
/// Each entry is first converted to the local time of its zone; a log with
/// an entry that has none is corrupt.
pub fn render_chart(tracker: &Tracker) -> (r: Result<ChartData, LogError>)
    ensures
        all_local(tracker.time_log@) ==> is_assembly_of(
            localized(tracker.time_log@),
            tracker.current_target,
            r,
        ),
        !all_local(tracker.time_log@) ==> r == Err::<ChartData, LogError>(LogError::CorruptLog),
{
    let mut times: Vec<ZonedInstant> = Vec::new();
    let mut i: usize = 0;
    while i < tracker.time_log.len()
        invariant
            i <= tracker.time_log.len(),
            times.len() == i,
            forall|k: int|
                0 <= k < i ==> (#[trigger] tracker.time_log@[k]).local() == Some(times@[k]),
        decreases tracker.time_log.len() - i,
    {
        let entry = &tracker.time_log[i];
        match localize(entry.bedtime, entry.timezone.as_str()) {
            Some(t) => {
                times.push(t);
            },
            None => {
                assert(tracker.time_log@[i as int].local() is None);
                return Err(LogError::CorruptLog);
            },
        }
        i += 1;
    }
    assert(times@ =~= localized(tracker.time_log@));
    assemble_chart(&times, tracker.current_target)
}

/// Decides what a request for the chart is answered with: the chart where
/// there is one, a placeholder where the log is missing or empty, and a
/// report where it is corrupt.
pub fn page_for(outcome: Result<ChartData, LogError>) -> (page: Page)
    ensures
        match outcome {
            Ok(c) => page == Page::Chart(c),
            Err(e) => if e.is_no_data() {
                page is NoData
            } else {
                page is Failure
            },
        },
{
    match outcome {
        Ok(c) => Page::Chart(c),
        Err(e) => if e.no_data() {
            Page::NoData
        } else {
            Page::Failure
        },
    }
}

} // verus!
