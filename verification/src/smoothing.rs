//! The trend line: a moving average that looks back only.

use vstd::prelude::*;

verus! {

/// The number of samples that the moving average takes together.
pub const WINDOW: i64 = 7;

/// The sample `back` places before place `i` of a series that is continued
/// to the left by its first sample.
pub open spec fn sample_back(ys: Seq<i32>, i: int, back: int) -> int {
    if back <= i {
        ys[i - back] as int
    } else {
        ys[0] as int
    }
}

/// The sum of the window that ends at place `i`: the sample there and the
/// six before it.
pub open spec fn window_total(ys: Seq<i32>, i: int) -> int {
    sample_back(ys, i, 0) + sample_back(ys, i, 1) + sample_back(ys, i, 2) + sample_back(ys, i, 3)
        + sample_back(ys, i, 4) + sample_back(ys, i, 5) + sample_back(ys, i, 6)
}

/// Whether `totals` holds the window sums of `ys`, place by place.
pub open spec fn is_trend_of(ys: Seq<i32>, totals: Seq<i64>) -> bool {
    &&& totals.len() == ys.len()
    &&& forall|i: int| 0 <= i < ys.len() ==> #[trigger] totals[i] as int == window_total(ys, i)
}

fn sample(ys: &Vec<i32>, i: usize, back: usize) -> (v: i64)
    requires
        i < ys.len(),
    ensures
        v == sample_back(ys@, i as int, back as int),
{
    if back <= i {
        ys[i - back] as i64
    } else {
        ys[0] as i64
    }
}

/// Smooths a series with a moving average over the last seven samples.
///
/// The result has one entry for each sample: the sum of its window, which
/// is [`WINDOW`] times the average and, unlike the average, always a whole
/// number. Before the first sample the series counts as constant, so the
/// first entries lag behind, and no entry depends on a later sample.
pub fn avg_filter_y(y_coords: &Vec<i32>) -> (totals: Vec<i64>)
    ensures
        is_trend_of(y_coords@, totals@),
{
    let mut totals: Vec<i64> = Vec::new();
    let mut i: usize = 0;
    while i < y_coords.len()
        invariant
            i <= y_coords.len(),
            totals.len() == i,
            forall|k: int| 0 <= k < i ==> #[trigger] totals[k] as int == window_total(y_coords@, k),
        decreases y_coords.len() - i,
    {
        let total: i64 = sample(y_coords, i, 0) + sample(y_coords, i, 1) + sample(y_coords, i, 2)
            + sample(y_coords, i, 3) + sample(y_coords, i, 4) + sample(y_coords, i, 5) + sample(
            y_coords,
            i,
            6,
        );
        totals.push(total);
        i += 1;
    }
    totals
}

/// The average of a constant series is the series itself: each window sum
/// is seven times the constant.
pub proof fn lemma_constant_series(ys: Seq<i32>, c: i32, i: int)
    requires
        0 <= i < ys.len(),
        forall|k: int| 0 <= k < ys.len() ==> ys[k] == c,
    ensures
        window_total(ys, i) == WINDOW * c,
{
}

/// The average does not look ahead: two series that agree up to a place
/// have the same window sum there.
pub proof fn lemma_no_look_ahead(a: Seq<i32>, b: Seq<i32>, i: int)
    requires
        0 <= i < a.len(),
        i < b.len(),
        forall|k: int| 0 <= k <= i ==> a[k] == b[k],
    ensures
        window_total(a, i) == window_total(b, i),
{
}

} // verus!
