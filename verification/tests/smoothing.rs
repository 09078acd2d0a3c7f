use gotobed::smoothing::{avg_filter_y, WINDOW};

#[test]
fn smoothing_keeps_the_length() {
    for n in 0..20usize {
        let ys: Vec<i32> = (0..n).map(|i| (i * 37 % 1440) as i32).collect();
        assert_eq!(avg_filter_y(&ys).len(), n);
    }
}

#[test]
fn smoothing_a_constant_series_gives_it_back() {
    for n in 1..12usize {
        let ys: Vec<i32> = vec![765; n];
        let totals = avg_filter_y(&ys);
        assert_eq!(totals.len(), n);
        for total in totals {
            assert_eq!(total, WINDOW * 765);
            assert_eq!(total / WINDOW, 765);
            assert_eq!(total % WINDOW, 0);
        }
    }
}

#[test]
fn smoothing_pads_with_the_first_sample() {
    let ys: Vec<i32> = vec![10, 20];
    assert_eq!(avg_filter_y(&ys), vec![70i64, 80]);
}

#[test]
fn smoothing_window_slides_over_seven_samples() {
    let ys: Vec<i32> = vec![1, 2, 3, 4, 5, 6, 7, 8, 9];
    assert_eq!(avg_filter_y(&ys), vec![7i64, 8, 10, 13, 17, 22, 28, 35, 42]);
}

#[test]
fn smoothing_does_not_look_ahead() {
    let a: Vec<i32> = vec![5, 6, 7, 100, 200];
    let b: Vec<i32> = vec![5, 6, 7, -100, 0, 3];
    assert_eq!(avg_filter_y(&a)[..3], avg_filter_y(&b)[..3]);
}

#[test]
fn smoothing_extreme_values() {
    let ys: Vec<i32> = vec![i32::MAX; 8];
    assert_eq!(avg_filter_y(&ys)[7], 7 * (i32::MAX as i64));
    let ys: Vec<i32> = vec![i32::MIN; 8];
    assert_eq!(avg_filter_y(&ys)[7], 7 * (i32::MIN as i64));
}

#[test]
fn smoothing_an_empty_series() {
    let ys: Vec<i32> = Vec::new();
    assert!(avg_filter_y(&ys).is_empty());
}
