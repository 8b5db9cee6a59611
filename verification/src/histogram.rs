//! The mathematics of a histogram of times: a finite map from a rounded
//! time to the number of samples that fell on it.

use vstd::prelude::*;

verus! {

/// The number of samples on time `k`; zero where the histogram has no
/// such bucket.
pub open spec fn count_at(h: Map<usize, usize>, k: int) -> nat {
    if 0 <= k <= usize::MAX && h.contains_key(k as usize) {
        h[k as usize] as nat
    } else {
        0
    }
}

/// The number of samples on times smaller than `n`.
pub open spec fn count_below(h: Map<usize, usize>, n: int) -> nat
    decreases n,
{
    if n <= 0 {
        0
    } else {
        count_below(h, n - 1) + count_at(h, n - 1)
    }
}

/// The number of samples in the histogram.
pub open spec fn histogram_total(h: Map<usize, usize>) -> nat {
    count_below(h, usize::MAX as int + 1)
}

/// A count held in a machine word: what does not fit stays at the largest
/// value.
pub open spec fn saturate(n: nat) -> usize {
    if n > usize::MAX {
        usize::MAX
    } else {
        n as usize
    }
}

/// Two histograms merged: each time has the samples of both.
pub open spec fn spec_merge_times(g: Map<usize, usize>, l: Map<usize, usize>) -> Map<usize, usize> {
    Map::new(
        |k: usize| g.contains_key(k) || l.contains_key(k),
        |k: usize| saturate(count_at(g, k as int) + count_at(l, k as int)),
    )
}

/// No bucket of the merged histogram exceeds a machine word.
pub open spec fn merge_fits(g: Map<usize, usize>, l: Map<usize, usize>) -> bool {
    forall|k: int| #[trigger] count_at(g, k) + count_at(l, k) <= usize::MAX
}

/// The rank of the sample that a percentile asks for: the number of
/// samples times the percentile, rounded to the nearest whole number. The
/// percentile is given in ten-thousandths, 9900 for the 99th.
pub open spec fn percentile_target(total: nat, per_myriad: nat) -> nat {
    (total * per_myriad + 5000) / 10000
}

/// The samples on times up to and including bucket `k` number at least
/// `target`.
pub open spec fn reaches(h: Map<usize, usize>, target: nat, k: usize) -> bool {
    h.contains_key(k) && count_below(h, k + 1) >= target
}

/// Bucket `k` is the smallest bucket at which the running total reaches
/// `target`.
pub open spec fn first_reaching(h: Map<usize, usize>, target: nat, k: usize) -> bool {
    reaches(h, target, k) && forall|j: usize| j < k ==> !reaches(h, target, j)
}

/// A time held between the smallest and the largest time observed.
pub open spec fn clamp_time(value: usize, min: usize, max: usize) -> usize {
    if value < min {
        min
    } else if value > max {
        max
    } else {
        value
    }
}

/// The bucket at which the running total, taken by ascending time, first
/// reaches `target`, held between `min` and `max`; zero where no bucket
/// reaches it.
pub open spec fn bucket_reaching(
    h: Map<usize, usize>,
    target: nat,
    min: usize,
    max: usize,
) -> usize {
    if exists|k: usize| first_reaching(h, target, k) {
        clamp_time(choose|k: usize| first_reaching(h, target, k), min, max)
    } else {
        0
    }
}

/// The time within which the given percentile of `total` samples
/// finished.
pub open spec fn spec_percentile(
    h: Map<usize, usize>,
    total: nat,
    min: usize,
    max: usize,
    per_myriad: nat,
) -> usize {
    bucket_reaching(h, percentile_target(total, per_myriad), min, max)
}

/// Where no bucket lies from `a` up to `b`, the counts below both agree.
pub proof fn lemma_count_below_gap(h: Map<usize, usize>, a: int, b: int)
    requires
        a <= b,
        forall|k: usize| a <= k < b ==> !h.contains_key(k),
    ensures
        count_below(h, b) == count_below(h, a),
    decreases b - a,
{
    if a < b {
        lemma_count_below_gap(h, a, b - 1);
    }
}

/// Counting further never counts less.
pub proof fn lemma_count_below_monotone(h: Map<usize, usize>, a: int, b: int)
    requires
        a <= b,
    ensures
        count_below(h, a) <= count_below(h, b),
    decreases b - a,
{
    if a < b {
        lemma_count_below_monotone(h, a, b - 1);
    }
}

/// Beyond the largest machine word there is nothing to count.
pub proof fn lemma_count_below_end(h: Map<usize, usize>, n: int)
    requires
        n > usize::MAX,
    ensures
        count_below(h, n) == histogram_total(h),
    decreases n,
{
    if n > usize::MAX + 1 {
        lemma_count_below_end(h, n - 1);
    }
}

/// A bucket holds no more than the whole histogram.
pub proof fn lemma_count_at_le_total(h: Map<usize, usize>, k: usize)
    ensures
        count_at(h, k as int) <= histogram_total(h),
{
    lemma_count_below_monotone(h, k + 1, usize::MAX + 1);
}

/// An empty histogram counts nothing.
pub proof fn lemma_count_below_empty(h: Map<usize, usize>, n: int)
    requires
        forall|k: usize| !h.contains_key(k),
    ensures
        count_below(h, n) == 0,
    decreases n,
{
    if n > 0 {
        lemma_count_below_empty(h, n - 1);
    }
}

/// Setting bucket `k` to `v` changes the count below `n` by the change of
/// that bucket, where `n` lies beyond it.
pub proof fn lemma_count_below_insert(h: Map<usize, usize>, k: usize, v: usize, n: int)
    ensures
        count_below(h.insert(k, v), n) == if n > k {
            count_below(h, n) - count_at(h, k as int) + v
        } else {
            count_below(h, n) as int
        },
    decreases n,
{
    if n > 0 {
        lemma_count_below_insert(h, k, v, n - 1);
        if n - 1 != k {
            assert(count_at(h.insert(k, v), n - 1) == count_at(h, n - 1));
        }
    }
}

/// Where the merged buckets fit a machine word, the merged histogram
/// counts what both count.
pub proof fn lemma_count_below_merge(g: Map<usize, usize>, l: Map<usize, usize>, n: int)
    requires
        merge_fits(g, l),
    ensures
        count_below(spec_merge_times(g, l), n) == count_below(g, n) + count_below(l, n),
    decreases n,
{
    if n > 0 {
        lemma_count_below_merge(g, l, n - 1);
        assert(count_at(g, n - 1) + count_at(l, n - 1) <= usize::MAX);
    }
}

/// Two histograms whose totals together fit a machine word merge without
/// loss.
pub proof fn lemma_merge_fits(g: Map<usize, usize>, l: Map<usize, usize>)
    requires
        histogram_total(g) + histogram_total(l) <= usize::MAX,
    ensures
        merge_fits(g, l),
{
    assert forall|k: int| #[trigger] count_at(g, k) + count_at(l, k) <= usize::MAX by {
        if 0 <= k <= usize::MAX {
            lemma_count_at_le_total(g, k as usize);
            lemma_count_at_le_total(l, k as usize);
        }
    }
}

/// At most one bucket is the first to reach a target.
pub proof fn lemma_first_reaching_unique(h: Map<usize, usize>, target: nat, a: usize, b: usize)
    requires
        first_reaching(h, target, a),
        first_reaching(h, target, b),
    ensures
        a == b,
{
}

/// The rank asked for grows with the percentile, and stays within the
/// number of samples for percentiles up to one hundred.
pub proof fn lemma_percentile_target(total: nat, p: nat, q: nat)
    requires
        p <= q,
    ensures
        percentile_target(total, p) <= percentile_target(total, q),
        q <= 10000 ==> percentile_target(total, q) <= total,
{
    assert(total * p <= total * q) by (nonlinear_arith)
        requires
            p <= q,
    ;
    if q <= 10000 {
        assert(total * q <= total * 10000) by (nonlinear_arith)
            requires
                q <= 10000,
        ;
        if total > 0 {
            assert((total * 10000 + 5000) / 10000 == total);
        }
    }
}

/// Where some bucket reaches a target, one bucket is the first to do so.
pub proof fn lemma_first_reaching_exists(h: Map<usize, usize>, target: nat, k: usize)
    requires
        reaches(h, target, k),
    ensures
        exists|j: usize| j <= k && first_reaching(h, target, j),
    decreases k,
{
    if exists|j: usize| j < k && reaches(h, target, j) {
        let j = choose|j: usize| j < k && reaches(h, target, j);
        lemma_first_reaching_exists(h, target, j);
    } else {
        assert(first_reaching(h, target, k));
    }
}

/// A histogram with a bucket has a bucket at which the running total is
/// the total of the histogram.
pub proof fn lemma_last_bucket(h: Map<usize, usize>, k: usize)
    requires
        h.contains_key(k),
    ensures
        exists|last: usize| h.contains_key(last) && count_below(h, last + 1) == histogram_total(h),
    decreases usize::MAX - k,
{
    if exists|j: usize| j > k && h.contains_key(j) {
        let j = choose|j: usize| j > k && h.contains_key(j);
        lemma_last_bucket(h, j);
    } else {
        lemma_count_below_gap(h, k + 1, usize::MAX + 1);
    }
}

/// A higher percentile never finishes within a smaller time: for a
/// histogram that holds `total` samples, with the shortest time no longer
/// than the longest, and for percentiles `p` below `q` up to one hundred
/// (in ten-thousandths), the time of `p` is at most the time of `q`.
pub proof fn lemma_percentile_monotone(
    h: Map<usize, usize>,
    total: nat,
    min: usize,
    max: usize,
    p: nat,
    q: nat,
)
    requires
        histogram_total(h) == total,
        min <= max,
        p < q <= 10000,
    ensures
        spec_percentile(h, total, min, max, p) <= spec_percentile(h, total, min, max, q),
{
    let tp = percentile_target(total, p);
    let tq = percentile_target(total, q);
    lemma_percentile_target(total, p, q);
    if exists|k: usize| first_reaching(h, tq, k) {
        let kq = choose|k: usize| first_reaching(h, tq, k);
        assert(reaches(h, tp, kq));
        lemma_first_reaching_exists(h, tp, kq);
        let kp = choose|k: usize| first_reaching(h, tp, k);
        if kp > kq {
            assert(!reaches(h, tp, kq));
        }
    } else {
        if exists|k: usize| first_reaching(h, tp, k) {
            let kp = choose|k: usize| first_reaching(h, tp, k);
            lemma_last_bucket(h, kp);
            let last = choose|last: usize|
                h.contains_key(last) && count_below(h, last + 1) == histogram_total(h);
            assert(reaches(h, tq, last));
            lemma_first_reaching_exists(h, tq, last);
        }
    }
}

} // verus!
