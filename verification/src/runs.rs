//! Runs of consecutive days in a history of active days.
//!
//! A history lists the distinct calendar days on which a member was active, most recent first,
//! each as its distance in days from today. Walking the history therefore means walking back in
//! time, and a day continues the run of the day before it in the list when its distance is
//! larger by exactly one.

use vstd::prelude::*;

verus! {

/// Day `k` of the history is the calendar day right before day `k - 1`.
pub open spec fn consecutive(days: Seq<int>, k: int) -> bool {
    0 < k < days.len() && days[k] == days[k - 1] + 1
}

/// `days[lo..hi)` is a non-empty stretch of the history without a gap.
pub open spec fn is_run(days: Seq<int>, lo: int, hi: int) -> bool {
    &&& 0 <= lo < hi <= days.len()
    &&& forall|k: int| lo < k < hi ==> consecutive(days, k)
}

/// Length of the longest run that ends with day `i` (0 when `i` is no index of the history).
pub open spec fn run_ending_at(days: Seq<int>, i: int) -> nat
    decreases i,
{
    if i < 0 || i >= days.len() {
        0
    } else if consecutive(days, i) {
        run_ending_at(days, i - 1) + 1
    } else {
        1
    }
}

/// Length of the longest run that starts with day `i` (0 when `i` is no index of the history).
pub open spec fn run_starting_at(days: Seq<int>, i: int) -> nat
    decreases days.len() - i,
{
    if i < 0 || i >= days.len() {
        0
    } else if consecutive(days, i + 1) {
        run_starting_at(days, i + 1) + 1
    } else {
        1
    }
}

/// Length of the longest run that ends among the first `n` days of the history.
pub open spec fn longest_run_within(days: Seq<int>, n: int) -> nat
    decreases n,
{
    if n <= 0 {
        0
    } else {
        let before = longest_run_within(days, n - 1);
        let here = run_ending_at(days, n - 1);
        if here > before {
            here
        } else {
            before
        }
    }
}

/// Length of the longest run anywhere in the history (0 for an empty history).
pub open spec fn longest_run(days: Seq<int>) -> nat {
    longest_run_within(days, days.len() as int)
}

/// The run that `run_ending_at` measures is a run, and the day before it in the history, if
/// there is one, does not belong to it.
pub proof fn lemma_run_ending_at(days: Seq<int>, i: int)
    requires
        0 <= i < days.len(),
    ensures
        1 <= run_ending_at(days, i) <= i + 1,
        is_run(days, i + 1 - run_ending_at(days, i), i + 1),
        !consecutive(days, i + 1 - run_ending_at(days, i)),
    decreases i,
{
    if consecutive(days, i) {
        lemma_run_ending_at(days, i - 1);
    }
}

/// No run that ends with day `hi - 1` is longer than `run_ending_at` says.
pub proof fn lemma_run_ending_at_is_longest(days: Seq<int>, lo: int, hi: int)
    requires
        is_run(days, lo, hi),
    ensures
        hi - lo <= run_ending_at(days, hi - 1),
    decreases hi - lo,
{
    if lo + 1 < hi {
        assert(consecutive(days, hi - 1));
        lemma_run_ending_at_is_longest(days, lo, hi - 1);
    }
}

/// The run that `run_starting_at` measures is a run, and the day after it, if there is one,
/// does not continue it.
pub proof fn lemma_run_starting_at(days: Seq<int>, i: int)
    requires
        0 <= i < days.len(),
    ensures
        1 <= run_starting_at(days, i) <= days.len() - i,
        is_run(days, i, i + run_starting_at(days, i)),
        !consecutive(days, i + run_starting_at(days, i)),
    decreases days.len() - i,
{
    if consecutive(days, i + 1) {
        lemma_run_starting_at(days, i + 1);
    }
}

/// A run that the next day does not continue is the one that `run_starting_at` measures.
pub proof fn lemma_run_starting_at_unique(days: Seq<int>, lo: int, hi: int)
    requires
        is_run(days, lo, hi),
        !consecutive(days, hi),
    ensures
        run_starting_at(days, lo) == hi - lo,
    decreases hi - lo,
{
    if lo + 1 < hi {
        assert(consecutive(days, lo + 1));
        lemma_run_starting_at_unique(days, lo + 1, hi);
    }
}

/// `longest_run` is the length of some run of the history, and no run is longer.
pub proof fn lemma_longest_run_is_maximum(days: Seq<int>)
    ensures
        forall|lo: int, hi: int| #[trigger] is_run(days, lo, hi) ==> hi - lo <= longest_run(days),
        days.len() > 0 ==> exists|lo: int, hi: int|
            #[trigger] is_run(days, lo, hi) && hi - lo == longest_run(days),
        days.len() == 0 ==> longest_run(days) == 0,
{
    assert forall|lo: int, hi: int| #[trigger] is_run(days, lo, hi) implies hi - lo
        <= longest_run(days) by {
        lemma_run_ending_at_is_longest(days, lo, hi);
        lemma_longest_run_within_bounds(days, days.len() as int, hi - 1);
    }
    if days.len() > 0 {
        let i = lemma_longest_run_within_witness(days, days.len() as int);
        lemma_run_ending_at(days, i);
        assert(is_run(days, i + 1 - run_ending_at(days, i), i + 1));
    }
}

/// Every run that ends among the first `n` days is at most `longest_run_within(days, n)` long.
pub proof fn lemma_longest_run_within_bounds(days: Seq<int>, n: int, i: int)
    requires
        0 <= i < n <= days.len(),
    ensures
        run_ending_at(days, i) <= longest_run_within(days, n),
    decreases n,
{
    if i < n - 1 {
        lemma_longest_run_within_bounds(days, n - 1, i);
    }
}

/// Some day among the first `n` ends a run of length `longest_run_within(days, n)`.
pub proof fn lemma_longest_run_within_witness(days: Seq<int>, n: int) -> (i: int)
    requires
        0 < n <= days.len(),
    ensures
        0 <= i < n,
        run_ending_at(days, i) == longest_run_within(days, n),
    decreases n,
{
    if n == 1 {
        assert(longest_run_within(days, 0) == 0);
        0
    } else if run_ending_at(days, n - 1) > longest_run_within(days, n - 1) {
        n - 1
    } else {
        lemma_longest_run_within_witness(days, n - 1)
    }
}

/// Two histories hold the same days in their first `n` places.
pub open spec fn same_prefix(a: Seq<int>, b: Seq<int>, n: int) -> bool {
    &&& 0 <= n <= a.len()
    &&& n <= b.len()
    &&& forall|k: int| 0 <= k < n ==> a[k] == b[k]
}

/// The run that ends with day `i` depends on the days up to `i` alone.
pub proof fn lemma_run_ending_at_prefix(a: Seq<int>, b: Seq<int>, n: int, i: int)
    requires
        same_prefix(a, b, n),
        i < n,
    ensures
        run_ending_at(a, i) == run_ending_at(b, i),
    decreases i,
{
    if 0 <= i {
        if consecutive(a, i) {
            lemma_run_ending_at_prefix(a, b, n, i - 1);
        }
    }
}

/// The longest run among the first `m` days depends on those days alone.
pub proof fn lemma_longest_run_within_prefix(a: Seq<int>, b: Seq<int>, n: int, m: int)
    requires
        same_prefix(a, b, n),
        m <= n,
    ensures
        longest_run_within(a, m) == longest_run_within(b, m),
    decreases m,
{
    if 0 < m {
        lemma_longest_run_within_prefix(a, b, n, m - 1);
        lemma_run_ending_at_prefix(a, b, n, m - 1);
    }
}

/// Once a gap has closed the run that starts with the most recent day, older days no longer
/// change its length.
pub proof fn lemma_leading_run_prefix(a: Seq<int>, b: Seq<int>, n: int)
    requires
        same_prefix(a, b, n),
        0 < n,
        run_starting_at(a, 0) < n,
    ensures
        run_starting_at(b, 0) == run_starting_at(a, 0),
{
    let lead = run_starting_at(a, 0) as int;
    lemma_run_starting_at(a, 0);
    assert(is_run(b, 0, lead)) by {
        assert forall|k: int| 0 < k < lead implies consecutive(b, k) by {
            assert(consecutive(a, k));
        }
    }
    lemma_run_starting_at_unique(b, 0, lead);
}

/// A run of days that all lie at or after `floor` is no longer than the distance of its last
/// day from `floor` allows.
pub proof fn lemma_run_ending_at_span(days: Seq<int>, i: int, floor: int)
    requires
        0 <= i < days.len(),
        forall|k: int| 0 <= k < days.len() ==> floor <= days[k],
    ensures
        run_ending_at(days, i) <= days[i] - floor + 1,
    decreases i,
{
    if consecutive(days, i) {
        lemma_run_ending_at_span(days, i - 1, floor);
    }
}

} // verus!
