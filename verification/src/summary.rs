//! The summary kept for each request and each task, as mathematics: what
//! recording a sample, reclassifying one and merging two summaries do.

use crate::histogram::{
    count_at, histogram_total, lemma_count_at_le_total, lemma_count_below_insert,
    lemma_count_below_merge, lemma_merge_fits, saturate, spec_merge_times,
};
use vstd::prelude::*;

verus! {

/// The numbers kept for one request or one task.
pub struct Summary {
    /// How many samples fell on each rounded time.
    pub times: Map<usize, usize>,
    /// The shortest time seen; zero while none was seen.
    pub min_time: usize,
    /// The longest time seen.
    pub max_time: usize,
    /// All times added up.
    pub total_time: usize,
    /// The number of samples.
    pub counter: usize,
    /// The number of samples counted as a success.
    pub success_count: usize,
    /// The number of samples counted as a failure.
    pub fail_count: usize,
}

/// The summary of nothing.
pub open spec fn empty_summary() -> Summary {
    Summary {
        times: Map::empty(),
        min_time: 0,
        max_time: 0,
        total_time: 0,
        counter: 0,
        success_count: 0,
        fail_count: 0,
    }
}

/// The histogram holds as many samples as were counted, and the shortest
/// time is no longer than the longest.
pub open spec fn times_consistent(s: Summary) -> bool {
    &&& histogram_total(s.times) == s.counter
    &&& s.min_time <= s.max_time
}

/// Every sample is in the histogram, and is either a success or a failure.
pub open spec fn summary_consistent(s: Summary) -> bool {
    &&& times_consistent(s)
    &&& s.success_count + s.fail_count == s.counter
}

/// A time rounded to the nearest multiple of `unit`, halves upwards.
pub open spec fn round_to(time: nat, unit: nat) -> nat {
    ((time + unit / 2) / unit) * unit
}

/// The bucket of a time: times up to 100 stand for themselves, up to 500
/// they are rounded to the nearest 10, up to 1000 to the nearest 100, and
/// beyond to the nearest 1000.
pub open spec fn rounded_time(time: usize) -> usize {
    if time <= 100 {
        time
    } else if time <= 500 {
        saturate(round_to(time as nat, 10))
    } else if time <= 1000 {
        saturate(round_to(time as nat, 100))
    } else {
        saturate(round_to(time as nat, 1000))
    }
}

/// The shortest time after `time` was seen: zero stands for "none yet".
pub open spec fn sample_min(min_time: usize, time: usize) -> usize {
    if min_time == 0 || time < min_time {
        time
    } else {
        min_time
    }
}

/// The longest time after `time` was seen.
pub open spec fn sample_max(max_time: usize, time: usize) -> usize {
    if time > max_time {
        time
    } else {
        max_time
    }
}

/// A summary after the time of one more sample went in. A summary whose
/// counter is full takes no more.
pub open spec fn record_time(s: Summary, time: usize) -> Summary {
    if s.counter == usize::MAX {
        s
    } else {
        Summary {
            times: s.times.insert(
                rounded_time(time),
                saturate(count_at(s.times, rounded_time(time) as int) + 1),
            ),
            min_time: sample_min(s.min_time, time),
            max_time: sample_max(s.max_time, time),
            total_time: saturate((s.total_time + time) as nat),
            counter: (s.counter + 1) as usize,
            ..s
        }
    }
}

/// A summary after one more sample was counted as a success or a failure.
pub open spec fn record_outcome(s: Summary, success: bool) -> Summary {
    if success {
        Summary { success_count: saturate((s.success_count + 1) as nat), ..s }
    } else {
        Summary { fail_count: saturate((s.fail_count + 1) as nat), ..s }
    }
}

/// A summary after one more sample: its time and its outcome. A summary
/// whose counter is full takes no more.
pub open spec fn record_sample(s: Summary, time: usize, success: bool) -> Summary {
    if s.counter == usize::MAX {
        s
    } else {
        record_outcome(record_time(s, time), success)
    }
}

/// A summary after a sample that was counted before changed sides: with
/// `success` a failure becomes a success, without it a success becomes a
/// failure. Where there is no sample on the other side nothing changes.
pub open spec fn reclassify(s: Summary, success: bool) -> Summary {
    if success {
        if s.fail_count > 0 && s.success_count < usize::MAX {
            Summary {
                success_count: (s.success_count + 1) as usize,
                fail_count: (s.fail_count - 1) as usize,
                ..s
            }
        } else {
            s
        }
    } else {
        if s.success_count > 0 && s.fail_count < usize::MAX {
            Summary {
                success_count: (s.success_count - 1) as usize,
                fail_count: (s.fail_count + 1) as usize,
                ..s
            }
        } else {
            s
        }
    }
}

/// The shortest time of two summaries; zero stands for "none yet".
pub open spec fn spec_update_min_time(global_min: usize, min: usize) -> usize {
    if global_min == 0 || (min > 0 && min < global_min) {
        min
    } else {
        global_min
    }
}

/// The longest time of two summaries.
pub open spec fn spec_update_max_time(global_max: usize, max: usize) -> usize {
    if global_max < max {
        max
    } else {
        global_max
    }
}

/// Two summaries merged into one.
pub open spec fn spec_merge(a: Summary, b: Summary) -> Summary {
    Summary {
        times: spec_merge_times(a.times, b.times),
        min_time: spec_update_min_time(a.min_time, b.min_time),
        max_time: spec_update_max_time(a.max_time, b.max_time),
        total_time: saturate((a.total_time + b.total_time) as nat),
        counter: saturate((a.counter + b.counter) as nat),
        success_count: saturate((a.success_count + b.success_count) as nat),
        fail_count: saturate((a.fail_count + b.fail_count) as nat),
    }
}

/// Recording the time of a sample keeps the histogram in step with the
/// counter.
pub proof fn lemma_record_time_consistent(s: Summary, time: usize)
    requires
        times_consistent(s),
    ensures
        times_consistent(record_time(s, time)),
{
    if s.counter < usize::MAX {
        let k = rounded_time(time);
        lemma_count_at_le_total(s.times, k);
        lemma_count_below_insert(
            s.times,
            k,
            saturate(count_at(s.times, k as int) + 1),
            usize::MAX as int + 1,
        );
    }
}

/// Recording the time of a sample makes exactly one bucket of the
/// histogram grow, by one: the bucket of the rounded time. All other
/// buckets stay as they are, and the counter grows by one.
pub proof fn lemma_record_time_grows_one_bucket(s: Summary, time: usize, other: usize)
    requires
        times_consistent(s),
        s.counter < usize::MAX,
    ensures
        count_at(record_time(s, time).times, rounded_time(time) as int) == count_at(
            s.times,
            rounded_time(time) as int,
        ) + 1,
        other != rounded_time(time) ==> count_at(record_time(s, time).times, other as int)
            == count_at(s.times, other as int),
        record_time(s, time).counter == s.counter + 1,
{
    lemma_count_at_le_total(s.times, rounded_time(time));
}

/// Recording a sample keeps a summary consistent: afterwards the
/// successes and failures still add up to the counter, and the histogram
/// still holds as many samples as were counted.
pub proof fn lemma_record_sample_consistent(s: Summary, time: usize, success: bool)
    requires
        summary_consistent(s),
    ensures
        summary_consistent(record_sample(s, time, success)),
{
    lemma_record_time_consistent(s, time);
}

/// Reclassifying a sample keeps a summary consistent and leaves the
/// histogram and the counter as they were.
pub proof fn lemma_reclassify_consistent(s: Summary, success: bool)
    requires
        summary_consistent(s),
    ensures
        summary_consistent(reclassify(s, success)),
        reclassify(s, success).times == s.times,
        reclassify(s, success).counter == s.counter,
{
}

/// Merging two consistent summaries whose samples together fit a machine
/// word gives a consistent summary.
pub proof fn lemma_merge_consistent(a: Summary, b: Summary)
    requires
        summary_consistent(a),
        summary_consistent(b),
        a.counter + b.counter <= usize::MAX,
    ensures
        summary_consistent(spec_merge(a, b)),
{
    lemma_merge_fits(a.times, b.times);
    lemma_count_below_merge(a.times, b.times, usize::MAX as int + 1);
}

/// Merging the empty summary with a summary gives that summary, on either
/// side.
pub proof fn lemma_merge_empty(s: Summary)
    ensures
        spec_merge(empty_summary(), s) == s,
        spec_merge(s, empty_summary()) == s,
{
    assert(spec_merge_times(Map::empty(), s.times) =~= s.times);
    assert(spec_merge_times(s.times, Map::empty()) =~= s.times);
}

/// Merging does not depend on the order of the two summaries.
pub proof fn lemma_merge_commutative(a: Summary, b: Summary)
    ensures
        spec_merge(a, b) == spec_merge(b, a),
{
    assert(spec_merge_times(a.times, b.times) =~= spec_merge_times(b.times, a.times));
}

/// Merging three summaries does not depend on which two are merged first.
pub proof fn lemma_merge_associative(a: Summary, b: Summary, c: Summary)
    ensures
        spec_merge(spec_merge(a, b), c) == spec_merge(a, spec_merge(b, c)),
{
    assert(spec_merge_times(spec_merge_times(a.times, b.times), c.times) =~= spec_merge_times(
        a.times,
        spec_merge_times(b.times, c.times),
    ));
}

} // verus!
