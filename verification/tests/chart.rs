use chrono::Datelike;
use gotobed::chart::{assemble_chart, get_points, max_x, page_for, render_chart, summarize};
use gotobed::chart::{AxisAnchor, Color, Hover, LineStyle, Mode, Page, Point};
use gotobed::coords::ZonedInstant;
use gotobed::{LogEntry, LogError, Tracker};

fn entry(bedtime: i64, zone: &str) -> LogEntry {
    LogEntry { bedtime, timezone: zone.to_string(), target: (23, 0) }
}

fn three_nights() -> Tracker {
    Tracker {
        current_target: (23, 0),
        time_log: vec![
            // 23:10 on 15 January, 23:40 on 16 January and 00:05 on 18 January 2023.
            entry(1673784600, "Australia/Melbourne"),
            entry(1673872800, "Australia/Melbourne"),
            entry(1673960700, "Australia/Melbourne"),
        ],
    }
}

#[test]
fn concrete_scenario_three_qualifying_nights() {
    let chart = render_chart(&three_nights()).unwrap();
    let ys: Vec<i32> = chart.points.iter().map(|p| p.y).collect();
    assert_eq!(ys, vec![770, 740, 715]);
    let hours: Vec<f64> = ys.iter().map(|&y| y as f64 / 60.0).collect();
    assert!((hours[0] - 12.8333).abs() < 1e-4);
    assert!((hours[1] - (24.0 - (11.0 + 40.0 / 60.0))).abs() < 1e-9);
    assert!((hours[1] - 12.3333).abs() < 1e-4);
    assert!((hours[2] - 11.9167).abs() < 1e-4);
    assert_eq!(chart.target_y, 780);
    assert_eq!(chart.target_y as f64 / 60.0, 13.0);
    assert_eq!(chart.summary.current_streak, 3);
    assert_eq!(chart.summary.best_streak, 3);
    assert_eq!(chart.summary.target, "23:00");
}

#[test]
fn chart_of_three_nights() {
    let chart = render_chart(&three_nights()).unwrap();
    let xs: Vec<i64> = chart.points.iter().map(|p| p.x).collect();
    assert_eq!(xs, vec![0i64, 1, 2]);
    let hovers: Vec<&str> = chart.points.iter().map(|p| p.hover.as_str()).collect();
    assert_eq!(hovers, vec!["15/1 23:10", "16/1 23:40", "18/1 00:05"]);
    let labels: Vec<&str> = chart.x_ticks.iter().map(|t| t.label.as_str()).collect();
    assert_eq!(labels, vec!["15/1", "16/1", "17/1"]);
    assert_eq!(chart.y_ticks.len(), 96);
    assert_eq!(chart.y_anchor, AxisAnchor::Top);
    assert_eq!(chart.trend, vec![5390i64, 5360, 5305]);
    assert_eq!(chart.x_max, 2);
    assert_eq!(chart.range_start, -98);
}

#[test]
fn series_styles() {
    let chart = render_chart(&three_nights()).unwrap();
    assert_eq!(
        chart.points_style,
        LineStyle { color: Color::Blue, mode: Mode::LinesMarkers, hover: Hover::Text }
    );
    assert_eq!(
        chart.trend_style,
        LineStyle { color: Color::Green, mode: Mode::Lines, hover: Hover::Hidden }
    );
    assert_eq!(
        chart.target_style,
        LineStyle { color: Color::Red, mode: Mode::Lines, hover: Hover::Coordinates }
    );
}

#[test]
fn chart_uses_the_current_target() {
    let mut tracker = three_nights();
    tracker.current_target = (23, 30);
    let chart = render_chart(&tracker).unwrap();
    assert_eq!(chart.target_y, 750);
    assert_eq!(chart.summary.target, "23:30");
    // Newest first: 715 and 740 are below 750, 770 is not.
    assert_eq!(chart.summary.current_streak, 2);
    assert_eq!(chart.summary.best_streak, 2);
}

#[test]
fn empty_log_gives_no_data() {
    let tracker = Tracker::new();
    let outcome = render_chart(&tracker);
    assert_eq!(outcome.as_ref().unwrap_err(), &LogError::EmptyLog);
    assert!(matches!(page_for(outcome), Page::NoData));
    assert_eq!(assemble_chart(&Vec::new(), (23, 0)).unwrap_err(), LogError::EmptyLog);
}

#[test]
fn missing_log_gives_no_data_and_corrupt_log_a_failure() {
    assert!(matches!(page_for(Err(LogError::MissingLog)), Page::NoData));
    assert!(matches!(page_for(Err(LogError::EmptyLog)), Page::NoData));
    assert!(matches!(page_for(Err(LogError::CorruptLog)), Page::Failure));
    let page = page_for(render_chart(&three_nights()));
    match page {
        Page::Chart(chart) => assert_eq!(chart.points.len(), 3),
        _ => panic!("expected a chart"),
    }
}

#[test]
fn unknown_zone_makes_the_log_corrupt() {
    let mut tracker = three_nights();
    tracker.time_log.push(entry(1674000000, "Nowhere/Land"));
    assert_eq!(render_chart(&tracker).unwrap_err(), LogError::CorruptLog);
}

#[test]
fn instant_beyond_the_calendar_makes_the_log_corrupt() {
    let mut tracker = three_nights();
    tracker.time_log.push(entry(i64::MAX, "Australia/Melbourne"));
    assert_eq!(render_chart(&tracker).unwrap_err(), LogError::CorruptLog);
}

#[test]
fn invalid_clock_makes_the_series_corrupt() {
    let days: i32 = chrono::NaiveDate::from_ymd_opt(2023, 1, 15).unwrap().num_days_from_ce();
    let times = vec![ZonedInstant { night: days, date: days, hour: 25, minute: 0 }];
    assert_eq!(assemble_chart(&times, (23, 0)).unwrap_err(), LogError::CorruptLog);
    assert_eq!(get_points(&times).unwrap_err(), LogError::CorruptLog);
    let times = vec![ZonedInstant { night: days, date: i32::MIN, hour: 5, minute: 0 }];
    assert_eq!(get_points(&times).unwrap_err(), LogError::CorruptLog);
}

#[test]
fn gaps_between_nights_show_in_x() {
    let days: i32 = chrono::NaiveDate::from_ymd_opt(2023, 3, 30).unwrap().num_days_from_ce();
    let times = vec![
        ZonedInstant::new(days, days, 22, 45).unwrap(),
        ZonedInstant::new(days + 3, days + 4, 0, 15).unwrap(),
    ];
    let chart = assemble_chart(&times, (23, 0)).unwrap();
    assert_eq!(chart.points[1].x, 3);
    assert_eq!(chart.points[0].hover, "30/3 22:45");
    assert_eq!(chart.points[1].hover, "3/4 00:15");
    assert_eq!(chart.x_ticks.len(), 4);
    assert_eq!(chart.x_max, 3);
    assert_eq!(chart.range_start, -97);
    // 00:15 is at 705, below the target's 780; 22:45 is at 795.
    assert_eq!(chart.summary.current_streak, 1);
    assert_eq!(chart.summary.best_streak, 1);
}

#[test]
fn target_line_ends_at_the_largest_x() {
    let point = |x: i64| Point { x, y: 0, hover: String::new() };
    assert_eq!(max_x(&vec![point(0), point(5), point(2)]), 5);
    assert_eq!(max_x(&vec![point(0), point(-3)]), 0);
    assert_eq!(max_x(&Vec::new()), 0);
}

#[test]
fn summary_shows_the_target_as_given() {
    let s = summarize((7, 5), &vec![1000, 1000]);
    assert_eq!(s.target, "07:05");
    // 07:05 is at 1440 - (19 * 60 + 5) = 295, and neither night is below it.
    assert_eq!(s.current_streak, 0);
    assert_eq!(s.best_streak, 0);
    let s = summarize((30, 70), &Vec::new());
    assert_eq!(s.target, "30:70");
}
