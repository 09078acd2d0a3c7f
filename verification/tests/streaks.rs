use gotobed::streaks::{best_streak, compute_streaks, current_streak};

#[test]
fn streak_example_pattern() {
    // Oldest to newest: qualifies, does not, qualifies, qualifies.
    let ys: Vec<i32> = vec![700, 800, 700, 700];
    let runs = compute_streaks(780, &ys);
    assert_eq!(runs, vec![2u64, 0, 1]);
    assert_eq!(current_streak(&runs), 2);
    assert_eq!(best_streak(&runs), 2);
}

#[test]
fn three_qualifying_nights_make_a_streak_of_three() {
    let ys: Vec<i32> = vec![770, 740, 715];
    let runs = compute_streaks(780, &ys);
    assert_eq!(runs, vec![3u64]);
    assert_eq!(current_streak(&runs), 3);
    assert_eq!(best_streak(&runs), 3);
}

#[test]
fn empty_series_has_no_runs() {
    let ys: Vec<i32> = Vec::new();
    let runs = compute_streaks(780, &ys);
    assert!(runs.is_empty());
    assert_eq!(current_streak(&runs), 0);
    assert_eq!(best_streak(&runs), 0);
}

#[test]
fn target_itself_does_not_qualify() {
    let ys: Vec<i32> = vec![780];
    assert_eq!(compute_streaks(780, &ys), vec![0u64]);
    let ys: Vec<i32> = vec![779];
    assert_eq!(compute_streaks(780, &ys), vec![1u64]);
}

#[test]
fn adjacent_misses_are_recorded_as_zeros() {
    let ys: Vec<i32> = vec![700, 900, 900, 700, 700, 700, 900];
    let runs = compute_streaks(780, &ys);
    assert_eq!(runs, vec![0u64, 3, 0, 0, 1]);
    assert_eq!(current_streak(&runs), 0);
    assert_eq!(best_streak(&runs), 3);
}

#[test]
fn best_streak_may_lie_in_the_past() {
    let ys: Vec<i32> = vec![1, 1, 1, 1, 9, 1];
    let runs = compute_streaks(5, &ys);
    assert_eq!(runs, vec![1u64, 0, 4]);
    assert_eq!(current_streak(&runs), 1);
    assert_eq!(best_streak(&runs), 4);
}

#[test]
fn runs_stand_for_every_night_once() {
    let ys: Vec<i32> = vec![3, 8, 2, 2, 9, 9, 1, 7, 1, 1, 1];
    let runs = compute_streaks(5, &ys);
    let nights: u64 = runs.iter().map(|&r| if r > 0 { r } else { 1 }).sum();
    assert_eq!(nights, 11);
}

#[test]
fn streak_helpers_on_plain_lists() {
    assert_eq!(current_streak(&vec![0u64, 7]), 0);
    assert_eq!(best_streak(&vec![0u64, 7, 3]), 7);
    assert_eq!(best_streak(&vec![0u64]), 0);
}
