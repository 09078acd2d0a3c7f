use chrono::Datelike;
use gotobed::coords::{hourminute_to_y, ZonedInstant};
use gotobed::ticks::{get_x_ticks, get_y_ticks};
use gotobed::LogError;

fn night(year: i32, month: u32, day: u32, hour: u32, minute: u32) -> ZonedInstant {
    let days: i32 = chrono::NaiveDate::from_ymd_opt(year, month, day).unwrap().num_days_from_ce();
    ZonedInstant::new(days, days, hour, minute).unwrap()
}

#[test]
fn x_ticks_one_for_each_day_of_the_span() {
    let times = vec![night(2023, 1, 30, 23, 0), night(2023, 2, 2, 23, 0)];
    let ticks = get_x_ticks(&times).unwrap();
    assert_eq!(ticks.len(), 4);
    let values: Vec<i64> = ticks.iter().map(|t| t.value).collect();
    assert_eq!(values, vec![0i64, 1, 2, 3]);
    let labels: Vec<&str> = ticks.iter().map(|t| t.label.as_str()).collect();
    assert_eq!(labels, vec!["30/1", "31/1", "1/2", "2/2"]);
}

#[test]
fn x_ticks_count_is_span_plus_one() {
    for k in 0..40i32 {
        let first = night(2024, 2, 20, 22, 30);
        let last = ZonedInstant::new(first.night + k, first.night + k + 1, 1, 0).unwrap();
        let ticks = get_x_ticks(&vec![first, last]).unwrap();
        assert_eq!(ticks.len() as i32, k + 1);
        for (i, tick) in ticks.iter().enumerate() {
            assert_eq!(tick.value, i as i64);
        }
    }
}

#[test]
fn x_ticks_cross_a_leap_day_and_a_year() {
    let times = vec![night(2024, 2, 28, 23, 0), night(2024, 3, 1, 23, 0)];
    let labels: Vec<String> = get_x_ticks(&times).unwrap().into_iter().map(|t| t.label).collect();
    assert_eq!(labels, vec!["28/2", "29/2", "1/3"]);
    let times = vec![night(2023, 12, 31, 23, 0), night(2024, 1, 1, 23, 0)];
    let labels: Vec<String> = get_x_ticks(&times).unwrap().into_iter().map(|t| t.label).collect();
    assert_eq!(labels, vec!["31/12", "1/1"]);
}

#[test]
fn x_ticks_of_a_single_entry() {
    let ticks = get_x_ticks(&vec![night(2023, 5, 9, 0, 30)]).unwrap();
    assert_eq!(ticks.len(), 1);
    assert_eq!(ticks[0].value, 0);
    assert_eq!(ticks[0].label, "9/5");
}

#[test]
fn x_ticks_of_an_empty_series() {
    assert_eq!(get_x_ticks(&Vec::new()).unwrap_err(), LogError::EmptyLog);
}

#[test]
fn x_ticks_when_the_last_night_is_before_the_first() {
    let times = vec![night(2023, 5, 9, 0, 30), night(2023, 5, 8, 0, 30)];
    assert!(get_x_ticks(&times).unwrap().is_empty());
}

#[test]
fn x_ticks_beyond_the_calendar() {
    let times = vec![
        ZonedInstant::new(i32::MAX - 1, 0, 0, 0).unwrap(),
        ZonedInstant::new(i32::MAX, 0, 0, 0).unwrap(),
    ];
    assert_eq!(get_x_ticks(&times).unwrap_err(), LogError::CorruptLog);
}

#[test]
fn y_ticks_every_quarter_of_an_hour() {
    let ticks = get_y_ticks();
    assert_eq!(ticks.len(), 96);
    for (i, tick) in ticks.iter().enumerate() {
        assert_eq!(tick.value, 15 * i as i64);
    }
    assert_eq!(ticks[0].label, "12:00");
    assert_eq!(ticks[1].label, "11:45");
    assert_eq!(ticks[48].label, "00:00");
    assert_eq!(ticks[52].label, "23:00");
    assert_eq!(ticks[95].label, "12:15");
}

#[test]
fn y_ticks_line_up_with_data_points() {
    let ticks = get_y_ticks();
    for h in 0..24i16 {
        for quarter in 0..4i16 {
            let m: i16 = 15 * quarter;
            let y: i32 = hourminute_to_y(h, m);
            if h == 12 && m == 0 {
                assert_eq!(y, 1440);
                continue;
            }
            let tick = &ticks[(y / 15) as usize];
            assert_eq!(tick.value, y as i64);
            assert_eq!(tick.label, format!("{:0>2}:{:0>2}", h, m));
        }
    }
}
