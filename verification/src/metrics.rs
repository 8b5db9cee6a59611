//! Aggregation of request and task timings.

use crate::histogram::{
    count_at, count_below, first_reaching, lemma_count_below_gap, lemma_first_reaching_unique,
    percentile_target, reaches, saturate, spec_merge_times, spec_percentile,
};
use crate::goose::{GooseRawRequest, GooseRequest};
use crate::ordered::sorted_keys;
use crate::summary::{
    empty_summary, lemma_record_sample_consistent, record_sample, rounded_time,
    spec_update_max_time, spec_update_min_time, summary_consistent, Summary,
};
use std::collections::BTreeMap;
use vstd::prelude::*;
use vstd::string::StringExecFns;

verus! {

/// What a user reports to the parent for aggregation.
#[derive(Debug, Clone)]
pub enum GooseMetric {
    Request(GooseRawRequest),
    Task(GooseRawTask),
}

/// The request metrics of a load test: one summary for each method and
/// name, no two of them under the same key.
pub type GooseRequestMetrics = Vec<GooseRequest>;

/// The task metrics of a load test: for each task set, one summary for
/// each of its tasks.
pub type GooseTaskMetrics = Vec<Vec<GooseTaskMetric>>;

/// A sample of one task run, as a user reports it.
#[derive(Debug, Clone)]
pub struct GooseRawTask {
    /// How many milliseconds the load test has been running.
    pub elapsed: u64,
    /// Which task set the task belongs to.
    pub taskset_index: usize,
    /// Which task of the task set this is.
    pub task_index: usize,
    /// The optional name of the task.
    pub name: String,
    /// How long the task ran, in milliseconds.
    pub run_time: u64,
    /// Whether or not the task ran successfully.
    pub success: bool,
    /// Which user ran the task.
    pub user: usize,
}

impl GooseRawTask {
    /// A sample for a task that starts now; the times are cut to 64 bits.
    pub fn new(
        elapsed: u128,
        taskset_index: usize,
        task_index: usize,
        name: String,
        user: usize,
    ) -> (r: Self)
        ensures
            r.elapsed == elapsed as u64,
            r.taskset_index == taskset_index,
            r.task_index == task_index,
            r.name == name,
            r.run_time == 0,
            r.success,
            r.user == user,
    {
        GooseRawTask {
            elapsed: #[verifier::truncate]
            (elapsed as u64),
            taskset_index,
            task_index,
            name,
            run_time: 0,
            success: true,
            user,
        }
    }

    /// Stores how long the task ran and whether it succeeded.
    pub fn set_time(&mut self, time: u128, success: bool)
        ensures
            final(self).run_time == time as u64,
            final(self).success == success,
            final(self).elapsed == old(self).elapsed,
            final(self).taskset_index == old(self).taskset_index,
            final(self).task_index == old(self).task_index,
            final(self).name == old(self).name,
            final(self).user == old(self).user,
    {
        self.run_time = #[verifier::truncate]
        (time as u64);
        self.success = success;
    }
}

/// The summary of all runs of one task.
#[derive(Debug, Clone)]
pub struct GooseTaskMetric {
    /// Which task set the task belongs to.
    pub taskset_index: usize,
    /// The task set name.
    pub taskset_name: String,
    /// Which task of the task set this is.
    pub task_index: usize,
    /// An optional name for the task.
    pub task_name: String,
    /// Per-run-time counters, tracking how often the task took a given time.
    pub times: BTreeMap<usize, usize>,
    /// The shortest run-time for the task.
    pub min_time: usize,
    /// The longest run-time for the task.
    pub max_time: usize,
    /// Total combined run-times for the task.
    pub total_time: usize,
    /// Total number of times the task has run.
    pub counter: usize,
    /// Total number of times the task has run successfully.
    pub success_count: usize,
    /// Total number of times the task has failed.
    pub fail_count: usize,
}

/// A time rounded to its bucket.
pub fn round_time(time: usize) -> (r: usize)
    ensures
        r == rounded_time(time),
{
    if time <= 100 {
        time
    } else if time <= 500 {
        (time + 5) / 10 * 10
    } else if time <= 1000 {
        (time + 50) / 100 * 100
    } else {
        let whole: usize = time / 1000;
        let rest: usize = time % 1000;
        let units: usize = if rest >= 500 {
            whole + 1
        } else {
            whole
        };
        assert(units == (time + 500) / 1000);
        match units.checked_mul(1000) {
            Some(r) => r,
            None => usize::MAX,
        }
    }
}

impl GooseTaskMetric {
    /// The numbers kept for the task.
    pub open spec fn summary(&self) -> Summary {
        Summary {
            times: self.times@,
            min_time: self.min_time,
            max_time: self.max_time,
            total_time: self.total_time,
            counter: self.counter,
            success_count: self.success_count,
            fail_count: self.fail_count,
        }
    }

    /// Every run is in the histogram, and is either a success or a failure.
    pub open spec fn wf(&self) -> bool {
        summary_consistent(self.summary())
    }

    /// The empty summary of a task.
    pub fn new(taskset_index: usize, taskset_name: &str, task_index: usize, task_name: &str) -> (r:
        Self)
        ensures
            r.taskset_index == taskset_index,
            r.taskset_name@ == taskset_name@,
            r.task_index == task_index,
            r.task_name@ == task_name@,
            r.summary() == empty_summary(),
            r.wf(),
    {
        let r = GooseTaskMetric {
            taskset_index,
            taskset_name: String::from_str(taskset_name),
            task_index,
            task_name: String::from_str(task_name),
            times: BTreeMap::new(),
            min_time: 0,
            max_time: 0,
            total_time: 0,
            counter: 0,
            success_count: 0,
            fail_count: 0,
        };
        proof {
            crate::histogram::lemma_count_below_empty(r.times@, usize::MAX as int + 1);
        }
        r
    }

    /// Tracks one run of the task: its time, cut to a machine word, goes
    /// into the shortest, longest and total time and into its bucket of the
    /// histogram, and the run is counted as a success or a failure.
    pub fn set_time(&mut self, time: u64, success: bool)
        ensures
            final(self).summary() == record_sample(old(self).summary(), time as usize, success),
            final(self).taskset_index == old(self).taskset_index,
            final(self).taskset_name == old(self).taskset_name,
            final(self).task_index == old(self).task_index,
            final(self).task_name == old(self).task_name,
            old(self).wf() ==> final(self).wf(),
    {
        let time_usize: usize = #[verifier::truncate]
        (time as usize);
        proof {
            if old(self).wf() {
                lemma_record_sample_consistent(old(self).summary(), time_usize, success);
            }
        }
        if self.counter == usize::MAX {
            return ;
        }
        if self.min_time == 0 || time_usize < self.min_time {
            self.min_time = time_usize;
        }
        if time_usize > self.max_time {
            self.max_time = time_usize;
        }
        self.total_time = self.total_time.saturating_add(time_usize);
        self.counter = self.counter + 1;
        if success {
            self.success_count = self.success_count.saturating_add(1);
        } else {
            self.fail_count = self.fail_count.saturating_add(1);
        }
        let rounded = round_time(time_usize);
        let counter: usize = match self.times.get(&rounded) {
            Some(c) => c.saturating_add(1),
            None => 1,
        };
        self.times.insert(rounded, counter);
    }
}

/// Merges the histogram `local_response_times` into
/// `global_response_times`: each time gets the samples of both.
pub fn merge_times(
    global_response_times: BTreeMap<usize, usize>,
    local_response_times: BTreeMap<usize, usize>,
) -> (r: BTreeMap<usize, usize>)
    ensures
        r@ == spec_merge_times(global_response_times@, local_response_times@),
{
    let mut global = global_response_times;
    let keys = sorted_keys(&local_response_times);
    let mut i: usize = 0;
    while i < keys.len()
        invariant
            i <= keys.len(),
            forall|k: usize| keys@.contains(k) <==> local_response_times@.contains_key(k),
            crate::ordered::ascending(keys@),
            forall|k: usize|
                global@.contains_key(k) <==> (global_response_times@.contains_key(k) || exists|
                    j: int,
                | 0 <= j < i && keys@[j] == k),
            forall|k: usize| #[trigger]
                global@.contains_key(k) ==> global@[k] == if exists|j: int|
                    0 <= j < i && keys@[j] == k {
                    saturate(
                        count_at(global_response_times@, k as int) + count_at(
                            local_response_times@,
                            k as int,
                        ),
                    )
                } else {
                    global_response_times@[k]
                },
        decreases keys.len() - i,
    {
        let key = keys[i];
        assert(keys@.contains(key));
        let count: usize = match local_response_times.get(&key) {
            Some(c) => *c,
            None => 0,
        };
        let ghost before = global@;
        assert(!(exists|j: int| 0 <= j < i && keys@[j] == key));
        let counter: usize = match global.get(&key) {
            Some(c) => c.saturating_add(count),
            None => count,
        };
        global.insert(key, counter);
        i = i + 1;
        assert forall|k: usize|
            global@.contains_key(k) <==> (global_response_times@.contains_key(k) || exists|j: int|
                0 <= j < i && keys@[j] == k) by {
            if k == key {
                assert(keys@[i - 1] == k);
            } else {
                if exists|j: int| 0 <= j < i && keys@[j] == k {
                    let j = choose|j: int| 0 <= j < i && keys@[j] == k;
                    assert(0 <= j < i - 1 && keys@[j] == k);
                }
            }
        }
        assert forall|k: usize| #[trigger] global@.contains_key(k) implies global@[k] == if exists|
            j: int,
        |
            0 <= j < i && keys@[j] == k {
            saturate(
                count_at(global_response_times@, k as int) + count_at(
                    local_response_times@,
                    k as int,
                ),
            )
        } else {
            global_response_times@[k]
        } by {
            if k == key {
                assert(keys@[i - 1] == k);
            } else {
                assert(before.contains_key(k));
                if exists|j: int| 0 <= j < i && keys@[j] == k {
                    let j = choose|j: int| 0 <= j < i && keys@[j] == k;
                    assert(0 <= j < i - 1 && keys@[j] == k);
                }
            }
        }
    }
    proof {
        let want = spec_merge_times(global_response_times@, local_response_times@);
        assert forall|k: usize| global@.contains_key(k) <==> want.contains_key(k) by {
            if local_response_times@.contains_key(k) {
                assert(keys@.contains(k));
                let j = choose|j: int| 0 <= j < keys@.len() && keys@[j] == k;
                assert(0 <= j < i && keys@[j] == k);
            }
            if exists|j: int| 0 <= j < i && keys@[j] == k {
                let j = choose|j: int| 0 <= j < i && keys@[j] == k;
                assert(keys@.contains(keys@[j]));
            }
        }
        assert forall|k: usize| global@.contains_key(k) implies global@[k] == want[k] by {
            if local_response_times@.contains_key(k) {
                assert(keys@.contains(k));
                let j = choose|j: int| 0 <= j < keys@.len() && keys@[j] == k;
                assert(0 <= j < i && keys@[j] == k);
            } else {
                if exists|j: int| 0 <= j < i && keys@[j] == k {
                    let j = choose|j: int| 0 <= j < i && keys@[j] == k;
                    assert(keys@.contains(keys@[j]));
                }
            }
        }
        assert(global@ =~= want);
    }
    global
}

/// Merges the histogram `local` into the histogram `global` in place.
pub fn merge_times_into(global: &mut BTreeMap<usize, usize>, local: &BTreeMap<usize, usize>)
    ensures
        final(global)@ == spec_merge_times(old(global)@, local@),
{
    let mut taken: BTreeMap<usize, usize> = BTreeMap::new();
    std::mem::swap(global, &mut taken);
    let merged = merge_times(taken, local.clone());
    *global = merged;
}

/// Update a running minimum time with a newly observed minimum; zero
/// stands for "none yet" on either side.
pub fn update_min_time(global_min: usize, min: usize) -> (r: usize)
    ensures
        r == spec_update_min_time(global_min, min),
{
    if global_min == 0 || (min > 0 && min < global_min) {
        min
    } else {
        global_min
    }
}

/// Update a running maximum time with a newly observed maximum.
pub fn update_max_time(global_max: usize, max: usize) -> (r: usize)
    ensures
        r == spec_update_max_time(global_max, max),
{
    if global_max < max {
        max
    } else {
        global_max
    }
}

/// The rank of the sample that a percentile of `total_requests` samples
/// asks for; the percentile is given in ten-thousandths.
pub fn percentile_rank(total_requests: usize, percent: usize) -> (r: u128)
    ensures
        r == percentile_target(total_requests as nat, percent as nat),
{
    assert(total_requests * percent <= usize::MAX * usize::MAX) by (nonlinear_arith)
        requires
            total_requests <= usize::MAX,
            percent <= usize::MAX,
    ;
    assert(usize::MAX * usize::MAX + 5000 <= u128::MAX) by (nonlinear_arith)
        requires
            usize::MAX <= 0xffff_ffff_ffff_ffff,
    ;
    let total: u128 = total_requests as u128;
    let part: u128 = percent as u128;
    (total * part + 5000) / 10000
}

/// Get the time that a certain percentile of the requests finished
/// within. The percentile is given in ten-thousandths: 5000 for the
/// median, 9999 for 99.99%. The buckets are taken by ascending time until
/// their running total reaches the rank asked for; the time of that
/// bucket, held between `min` and `max`, is the answer, and zero where no
/// bucket reaches the rank.
pub fn calculate_response_time_percentile(
    response_times: &BTreeMap<usize, usize>,
    total_requests: usize,
    min: usize,
    max: usize,
    percent: usize,
) -> (r: usize)
    ensures
        r == spec_percentile(response_times@, total_requests as nat, min, max, percent as nat),
{
    let target = percentile_rank(total_requests, percent);
    let ghost h = response_times@;
    let ghost t = target as nat;
    let keys = sorted_keys(response_times);
    let mut total_count: u128 = 0;
    let mut i: usize = 0;
    while i < keys.len()
        invariant
            i <= keys.len(),
            h == response_times@,
            t == target,
            t == percentile_target(total_requests as nat, percent as nat),
            total_count <= i * 0xffff_ffff_ffff_ffff,
            forall|k: usize| keys@.contains(k) <==> h.contains_key(k),
            crate::ordered::ascending(keys@),
            total_count == count_below(h, if i == 0 { 0 } else { keys@[i - 1] + 1 }),
            forall|j: int| 0 <= j < i ==> !reaches(h, t, #[trigger] keys@[j]),
        decreases keys.len() - i,
    {
        let value = keys[i];
        assert(keys@.contains(value));
        let counter: usize = match response_times.get(&value) {
            Some(c) => *c,
            None => 0,
        };
        proof {
            let low: int = if i == 0 { 0 } else { keys@[i - 1] + 1 };
            assert forall|k: usize| low <= k < value implies !h.contains_key(k) by {
                if h.contains_key(k) {
                    assert(keys@.contains(k));
                    let j = choose|j: int| 0 <= j < keys@.len() && keys@[j] == k;
                    if j < i {
                        if i > 0 && j < i - 1 {
                            assert(keys@[j] < keys@[i - 1]);
                        }
                    } else if j > i {
                        assert(keys@[i as int] < keys@[j]);
                    }
                }
            }
            lemma_count_below_gap(h, low, value as int);
            assert(count_below(h, value + 1) == total_count + counter);
        }
        assert((i + 1) * 0xffff_ffff_ffff_ffff <= u128::MAX) by (nonlinear_arith)
            requires
                i < 0xffff_ffff_ffff_ffff,
        ;
        assert(total_count + counter <= (i + 1) * 0xffff_ffff_ffff_ffff) by (nonlinear_arith)
            requires
                total_count <= i * 0xffff_ffff_ffff_ffff,
                counter <= 0xffff_ffff_ffff_ffff,
        ;
        let sum: u128 = total_count + counter as u128;
        if sum >= target {
            proof {
                assert(reaches(h, t, value));
                assert forall|k: usize| k < value implies !reaches(h, t, k) by {
                    if h.contains_key(k) {
                        assert(keys@.contains(k));
                        let j = choose|j: int| 0 <= j < keys@.len() && keys@[j] == k;
                        if j >= i {
                            if j > i {
                                assert(keys@[i as int] < keys@[j]);
                            }
                        } else {
                            assert(!reaches(h, t, keys@[j]));
                        }
                    }
                }
                assert(first_reaching(h, t, value));
                let chosen = choose|k: usize| first_reaching(h, t, k);
                lemma_first_reaching_unique(h, t, chosen, value);
            }
            if value < min {
                return min;
            } else if value > max {
                return max;
            } else {
                return value;
            }
        }
        total_count = sum;
        i = i + 1;
    }
    proof {
        assert forall|k: usize| !first_reaching(h, t, k) by {
            if h.contains_key(k) {
                assert(keys@.contains(k));
                let j = choose|j: int| 0 <= j < keys@.len() && keys@[j] == k;
                assert(!reaches(h, t, keys@[j]));
            }
        }
    }
    0
}

/// Metrics collected during a load test.
#[derive(Clone, Debug, Default)]
pub struct GooseMetrics {
    /// A hash of the load test, useful to verify if different metrics are
    /// from the same load test.
    pub hash: u64,
    /// How many seconds the load test ran.
    pub duration: usize,
    /// Total number of users simulated during this load test.
    pub users: usize,
    /// Request metrics.
    pub requests: GooseRequestMetrics,
    /// Task metrics.
    pub tasks: GooseTaskMetrics,
    /// Flag indicating whether or not to display percentile.
    pub display_percentile: bool,
    /// Flag indicating whether or not to display status_codes.
    pub display_status_codes: bool,
    /// Flag indicating whether or not to display metrics, set to false on
    /// Workers.
    pub display_metrics: bool,
}

} // verus!
