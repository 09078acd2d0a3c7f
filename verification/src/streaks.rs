//! Streaks: runs of consecutive nights on which the bedtime met the target.

use vstd::prelude::*;

verus! {

/// Whether a night with time-of-day coordinate `y` meets the target at
/// coordinate `target`.
pub open spec fn qualifies(y: int, target: int) -> bool {
    y < target
}

/// A finished run as it is recorded: its length, unless it is empty.
pub open spec fn flushed(run: int) -> Seq<int> {
    if run > 0 {
        seq![run]
    } else {
        Seq::empty()
    }
}

/// The runs recorded for the first `n` nights of `ys`, walked from the
/// latest of them back to the first, when `run` qualifying nights directly
/// after them are already counted. A run of qualifying nights is recorded
/// by its length, a night that does not qualify by a 0.
pub open spec fn runs_before(ys: Seq<i32>, target: int, n: nat, run: int) -> Seq<int>
    decreases n,
{
    if n == 0 {
        flushed(run)
    } else if qualifies(ys[n - 1] as int, target) {
        runs_before(ys, target, (n - 1) as nat, run + 1)
    } else {
        flushed(run) + seq![0int] + runs_before(ys, target, (n - 1) as nat, 0)
    }
}

/// The runs of a chronological series, latest first.
pub open spec fn streak_runs(ys: Seq<i32>, target: int) -> Seq<int> {
    runs_before(ys, target, ys.len(), 0)
}

/// The number of nights at the end of the first `n` that qualify without a
/// break.
pub open spec fn trailing_qualifying(ys: Seq<i32>, target: int, n: nat) -> int
    decreases n,
{
    if n == 0 || !qualifies(ys[n - 1] as int, target) {
        0
    } else {
        1 + trailing_qualifying(ys, target, (n - 1) as nat)
    }
}

/// The number of nights that a list of runs stands for.
pub open spec fn nights_covered(runs: Seq<int>) -> int
    decreases runs.len(),
{
    if runs.len() == 0 {
        0
    } else {
        nights_covered(runs.drop_last()) + if runs.last() > 0 {
            runs.last()
        } else {
            1
        }
    }
}

/// The current streak: the first of the runs, or 0 where there is none.
pub open spec fn current_of(runs: Seq<int>) -> int {
    if runs.len() == 0 {
        0
    } else {
        runs[0]
    }
}

/// Whether `best` is the best streak of `runs`: the longest of the runs, or
/// 0 where there is none.
pub open spec fn is_best_of(runs: Seq<int>, best: int) -> bool {
    &&& forall|i: int| 0 <= i < runs.len() ==> runs[i] <= best
    &&& if runs.len() == 0 {
        best == 0
    } else {
        exists|i: int| 0 <= i < runs.len() && runs[i] == best
    }
}

/// Recorded runs as mathematical integers.
pub open spec fn as_ints(runs: Seq<u64>) -> Seq<int> {
    runs.map_values(|v: u64| v as int)
}

/// Splits a chronological series of time-of-day coordinates into runs,
/// latest first.
pub fn compute_streaks(target_y_val: i32, y_coords: &Vec<i32>) -> (streaks: Vec<u64>)
    ensures
        as_ints(streaks@) == streak_runs(y_coords@, target_y_val as int),
{
    let mut streaks: Vec<u64> = Vec::new();
    let mut run: u64 = 0;
    let mut i: usize = y_coords.len();
    let ghost target = target_y_val as int;
    assert(as_ints(streaks@) + runs_before(y_coords@, target, i as nat, 0) =~= streak_runs(
        y_coords@,
        target,
    ));
    while i > 0
        invariant
            i <= y_coords.len(),
            target == target_y_val as int,
            run <= y_coords.len() - i,
            as_ints(streaks@) + runs_before(y_coords@, target, i as nat, run as int)
                == streak_runs(y_coords@, target),
        decreases i,
    {
        let ghost before = as_ints(streaks@);
        let ghost rest = runs_before(y_coords@, target, (i - 1) as nat, 0);
        i -= 1;
        if y_coords[i] < target_y_val {
            run += 1;
        } else {
            if run > 0 {
                streaks.push(run);
            }
            streaks.push(0);
            proof {
                assert(as_ints(streaks@) =~= before + flushed(run as int) + seq![0int]);
                assert(before + (flushed(run as int) + seq![0int] + rest) =~= as_ints(streaks@)
                    + rest);
            }
            run = 0;
        }
    }
    let ghost before = as_ints(streaks@);
    if run > 0 {
        streaks.push(run);
    }
    assert(as_ints(streaks@) =~= before + flushed(run as int));
    streaks
}

/// The current streak: the run that ends at the latest night.
pub fn current_streak(streaks: &Vec<u64>) -> (current: u64)
    ensures
        current as int == current_of(as_ints(streaks@)),
{
    if streaks.len() == 0 {
        0
    } else {
        streaks[0]
    }
}

/// The best streak: the longest run.
pub fn best_streak(streaks: &Vec<u64>) -> (best: u64)
    ensures
        is_best_of(as_ints(streaks@), best as int),
{
    let mut best: u64 = 0;
    let mut i: usize = 0;
    while i < streaks.len()
        invariant
            i <= streaks.len(),
            is_best_of(as_ints(streaks@.take(i as int)), best as int),
        decreases streaks.len() - i,
    {
        let ghost seen = as_ints(streaks@.take(i as int));
        let ghost grown = as_ints(streaks@.take(i + 1));
        proof {
            assert(grown =~= seen.push(streaks@[i as int] as int));
            if seen.len() > 0 {
                let k = choose|k: int| 0 <= k < seen.len() && seen[k] == best as int;
                assert(grown[k] == best as int);
            }
        }
        if streaks[i] > best || i == 0 {
            best = streaks[i];
            assert(grown[i as int] == best as int);
        }
        assert(is_best_of(grown, best as int));
        i += 1;
    }
    assert(streaks@.take(i as int) =~= streaks@);
    best
}

/// The best streak is never shorter than the current one.
pub proof fn lemma_best_at_least_current(runs: Seq<int>, best: int)
    requires
        is_best_of(runs, best),
    ensures
        current_of(runs) <= best,
{
}

/// The current streak is the number of nights, counted back from the
/// latest, that qualify without a break.
pub proof fn lemma_current_is_trailing_run(ys: Seq<i32>, target: int)
    ensures
        current_of(streak_runs(ys, target)) == trailing_qualifying(ys, target, ys.len()),
{
    lemma_first_run(ys, target, ys.len(), 0);
}

proof fn lemma_first_run(ys: Seq<i32>, target: int, n: nat, run: int)
    requires
        n <= ys.len(),
        run >= 0,
    ensures
        current_of(runs_before(ys, target, n, run)) == run + trailing_qualifying(ys, target, n),
    decreases n,
{
    if n > 0 && qualifies(ys[n - 1] as int, target) {
        lemma_first_run(ys, target, (n - 1) as nat, run + 1);
    }
}

/// Where every night of a series qualifies, its runs are one run of all
/// its nights.
pub proof fn lemma_all_qualify(ys: Seq<i32>, target: int)
    requires
        forall|i: int| 0 <= i < ys.len() ==> qualifies(#[trigger] ys[i] as int, target),
    ensures
        streak_runs(ys, target) == flushed(ys.len() as int),
{
    lemma_unbroken(ys, target, ys.len(), 0);
}

proof fn lemma_unbroken(ys: Seq<i32>, target: int, n: nat, run: int)
    requires
        n <= ys.len(),
        forall|i: int| 0 <= i < n ==> qualifies(#[trigger] ys[i] as int, target),
    ensures
        runs_before(ys, target, n, run) == flushed(run + n),
    decreases n,
{
    if n > 0 {
        lemma_unbroken(ys, target, (n - 1) as nat, run + 1);
    }
}

/// The runs of a series stand for each of its nights once: together the
/// runs of qualifying nights and the nights that do not qualify are as
/// many as the series has nights.
pub proof fn lemma_runs_partition(ys: Seq<i32>, target: int)
    ensures
        nights_covered(streak_runs(ys, target)) == ys.len(),
{
    lemma_covered_before(ys, target, ys.len(), 0);
}

proof fn lemma_covered_single(v: int)
    ensures
        nights_covered(seq![v]) == if v > 0 {
            v
        } else {
            1
        },
{
    let single = seq![v];
    assert(single.drop_last() =~= Seq::<int>::empty());
    assert(nights_covered(single.drop_last()) == 0);
    assert(single.last() == v);
}

proof fn lemma_covered_concat(a: Seq<int>, b: Seq<int>)
    ensures
        nights_covered(a + b) == nights_covered(a) + nights_covered(b),
    decreases b.len(),
{
    if b.len() == 0 {
        assert(a + b =~= a);
    } else {
        assert((a + b).drop_last() =~= a + b.drop_last());
        lemma_covered_concat(a, b.drop_last());
    }
}

proof fn lemma_covered_before(ys: Seq<i32>, target: int, n: nat, run: int)
    requires
        n <= ys.len(),
        run >= 0,
    ensures
        nights_covered(runs_before(ys, target, n, run)) == n + run,
    decreases n,
{
    if run > 0 {
        lemma_covered_single(run);
    }
    if n > 0 {
        if qualifies(ys[n - 1] as int, target) {
            lemma_covered_before(ys, target, (n - 1) as nat, run + 1);
        } else {
            let rest = runs_before(ys, target, (n - 1) as nat, 0);
            lemma_covered_before(ys, target, (n - 1) as nat, 0);
            lemma_covered_single(0);
            lemma_covered_concat(flushed(run), seq![0int]);
            lemma_covered_concat(flushed(run) + seq![0int], rest);
        }
    }
}

} // verus!
