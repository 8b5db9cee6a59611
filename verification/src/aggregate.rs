//! Merging summaries: what a Manager does with the metrics of its Workers,
//! and what the last line of a table does with the lines above it.

use crate::goose::GooseRequest;
use crate::histogram::saturate;
use crate::metrics::{merge_times_into, update_max_time, update_min_time, GooseTaskMetric};
use crate::ordered::{ascending_codes, sorted_codes};
use crate::summary::{empty_summary, lemma_merge_consistent, spec_merge, Summary};
use std::collections::BTreeMap;
use vstd::prelude::*;

verus! {

/// How often a status code was counted; zero where it was not seen.
pub open spec fn code_count(counts: Map<u16, usize>, code: u16) -> nat {
    if counts.contains_key(code) {
        counts[code] as nat
    } else {
        0
    }
}

/// Two maps of status codes merged: each code has the counts of both.
pub open spec fn spec_merge_codes(g: Map<u16, usize>, l: Map<u16, usize>) -> Map<u16, usize> {
    Map::new(
        |k: u16| g.contains_key(k) || l.contains_key(k),
        |k: u16| saturate(code_count(g, k) + code_count(l, k)),
    )
}

/// Merges the counts of status codes `local` into `global`.
pub fn merge_codes(global_counts: BTreeMap<u16, usize>, local_counts: BTreeMap<u16, usize>) -> (r:
    BTreeMap<u16, usize>)
    ensures
        r@ == spec_merge_codes(global_counts@, local_counts@),
{
    let mut global = global_counts;
    let keys = sorted_codes(&local_counts);
    let mut i: usize = 0;
    while i < keys.len()
        invariant
            i <= keys.len(),
            forall|k: u16| keys@.contains(k) <==> local_counts@.contains_key(k),
            ascending_codes(keys@),
            forall|k: u16|
                global@.contains_key(k) <==> (global_counts@.contains_key(k) || exists|j: int|
                    0 <= j < i && keys@[j] == k),
            forall|k: u16| #[trigger]
                global@.contains_key(k) ==> global@[k] == if exists|j: int|
                    0 <= j < i && keys@[j] == k {
                    saturate(code_count(global_counts@, k) + code_count(local_counts@, k))
                } else {
                    global_counts@[k]
                },
        decreases keys.len() - i,
    {
        let key = keys[i];
        assert(keys@.contains(key));
        let count: usize = match local_counts.get(&key) {
            Some(c) => *c,
            None => 0,
        };
        let ghost before = global@;
        assert(!(exists|j: int| 0 <= j < i && keys@[j] == key));
        let counter: usize = match global.get(&key) {
            Some(c) => c.saturating_add(count),
            None => count,
        };
        global.insert(key, counter);
        i = i + 1;
        assert forall|k: u16|
            global@.contains_key(k) <==> (global_counts@.contains_key(k) || exists|j: int|
                0 <= j < i && keys@[j] == k) by {
            if k == key {
                assert(keys@[i - 1] == k);
            } else {
                if exists|j: int| 0 <= j < i && keys@[j] == k {
                    let j = choose|j: int| 0 <= j < i && keys@[j] == k;
                    assert(0 <= j < i - 1 && keys@[j] == k);
                }
            }
        }
        assert forall|k: u16| #[trigger] global@.contains_key(k) implies global@[k] == if exists|
            j: int,
        |
            0 <= j < i && keys@[j] == k {
            saturate(code_count(global_counts@, k) + code_count(local_counts@, k))
        } else {
            global_counts@[k]
        } by {
            if k == key {
                assert(keys@[i - 1] == k);
            } else {
                assert(before.contains_key(k));
                if exists|j: int| 0 <= j < i && keys@[j] == k {
                    let j = choose|j: int| 0 <= j < i && keys@[j] == k;
                    assert(0 <= j < i - 1 && keys@[j] == k);
                }
            }
        }
    }
    proof {
        let want = spec_merge_codes(global_counts@, local_counts@);
        assert forall|k: u16| global@.contains_key(k) <==> want.contains_key(k) by {
            if local_counts@.contains_key(k) {
                assert(keys@.contains(k));
                let j = choose|j: int| 0 <= j < keys@.len() && keys@[j] == k;
                assert(0 <= j < i && keys@[j] == k);
            }
            if exists|j: int| 0 <= j < i && keys@[j] == k {
                let j = choose|j: int| 0 <= j < i && keys@[j] == k;
                assert(keys@.contains(keys@[j]));
            }
        }
        assert forall|k: u16| global@.contains_key(k) implies global@[k] == want[k] by {
            if local_counts@.contains_key(k) {
                assert(keys@.contains(k));
                let j = choose|j: int| 0 <= j < keys@.len() && keys@[j] == k;
                assert(0 <= j < i && keys@[j] == k);
            } else {
                if exists|j: int| 0 <= j < i && keys@[j] == k {
                    let j = choose|j: int| 0 <= j < i && keys@[j] == k;
                    assert(keys@.contains(keys@[j]));
                }
            }
        }
        assert(global@ =~= want);
    }
    global
}

/// Merges the counts of status codes `local` into `global` in place.
pub fn merge_codes_into(global: &mut BTreeMap<u16, usize>, local: &BTreeMap<u16, usize>)
    ensures
        final(global)@ == spec_merge_codes(old(global)@, local@),
{
    let mut taken: BTreeMap<u16, usize> = BTreeMap::new();
    std::mem::swap(global, &mut taken);
    let merged = merge_codes(taken, local.clone());
    *global = merged;
}

/// The numbers of several summaries merged into one.
pub struct Totals {
    /// The merged histogram.
    pub times: BTreeMap<usize, usize>,
    /// The shortest time of all.
    pub min_time: usize,
    /// The longest time of all.
    pub max_time: usize,
    /// All times added up.
    pub total_time: usize,
    /// The number of samples.
    pub counter: usize,
    /// The number of successes.
    pub success_count: usize,
    /// The number of failures.
    pub fail_count: usize,
}

impl Totals {
    /// The numbers held.
    pub open spec fn summary(&self) -> Summary {
        Summary {
            times: self.times@,
            min_time: self.min_time,
            max_time: self.max_time,
            total_time: self.total_time,
            counter: self.counter,
            success_count: self.success_count,
            fail_count: self.fail_count,
        }
    }

    /// The totals of nothing.
    pub fn new() -> (r: Totals)
        ensures
            r.summary() == empty_summary(),
    {
        Totals {
            times: BTreeMap::new(),
            min_time: 0,
            max_time: 0,
            total_time: 0,
            counter: 0,
            success_count: 0,
            fail_count: 0,
        }
    }

    /// Merges the summary of a task into the totals.
    pub fn add_task(&mut self, task: &GooseTaskMetric)
        ensures
            final(self).summary() == spec_merge(old(self).summary(), task.summary()),
    {
        merge_times_into(&mut self.times, &task.times);
        self.min_time = update_min_time(self.min_time, task.min_time);
        self.max_time = update_max_time(self.max_time, task.max_time);
        self.total_time = self.total_time.saturating_add(task.total_time);
        self.counter = self.counter.saturating_add(task.counter);
        self.success_count = self.success_count.saturating_add(task.success_count);
        self.fail_count = self.fail_count.saturating_add(task.fail_count);
    }

    /// Merges the summary of a request into the totals.
    pub fn add_request(&mut self, request: &GooseRequest)
        ensures
            final(self).summary() == spec_merge(old(self).summary(), request.summary()),
    {
        merge_times_into(&mut self.times, &request.response_times);
        self.min_time = update_min_time(self.min_time, request.min_response_time);
        self.max_time = update_max_time(self.max_time, request.max_response_time);
        self.total_time = self.total_time.saturating_add(request.total_response_time);
        self.counter = self.counter.saturating_add(request.response_time_counter);
        self.success_count = self.success_count.saturating_add(request.success_count);
        self.fail_count = self.fail_count.saturating_add(request.fail_count);
    }
}

impl GooseTaskMetric {
    /// Merges the summary of the same task from another process into this
    /// one. Two consistent summaries whose runs together fit a machine
    /// word give a consistent summary.
    pub fn merge(&mut self, other: &GooseTaskMetric)
        ensures
            final(self).summary() == spec_merge(old(self).summary(), other.summary()),
            final(self).taskset_index == old(self).taskset_index,
            final(self).taskset_name == old(self).taskset_name,
            final(self).task_index == old(self).task_index,
            final(self).task_name == old(self).task_name,
            old(self).wf() && other.wf() && old(self).counter + other.counter <= usize::MAX
                ==> final(self).wf(),
    {
        proof {
            if old(self).wf() && other.wf() && old(self).counter + other.counter <= usize::MAX {
                lemma_merge_consistent(old(self).summary(), other.summary());
            }
        }
        merge_times_into(&mut self.times, &other.times);
        self.min_time = update_min_time(self.min_time, other.min_time);
        self.max_time = update_max_time(self.max_time, other.max_time);
        self.total_time = self.total_time.saturating_add(other.total_time);
        self.counter = self.counter.saturating_add(other.counter);
        self.success_count = self.success_count.saturating_add(other.success_count);
        self.fail_count = self.fail_count.saturating_add(other.fail_count);
    }
}

impl GooseRequest {
    /// Merges the summary of the same request from another process into
    /// this one; the counts of status codes are merged where they are
    /// tracked. Two consistent summaries whose requests together fit a
    /// machine word give a consistent summary.
    pub fn merge(&mut self, other: &GooseRequest, status_codes: bool)
        ensures
            final(self).summary() == spec_merge(old(self).summary(), other.summary()),
            final(self).path == old(self).path,
            final(self).method == old(self).method,
            final(self).load_test_hash == old(self).load_test_hash,
            final(self).status_code_counts@ == if status_codes {
                spec_merge_codes(old(self).status_code_counts@, other.status_code_counts@)
            } else {
                old(self).status_code_counts@
            },
            old(self).wf() && other.wf() && old(self).response_time_counter
                + other.response_time_counter <= usize::MAX ==> final(self).wf(),
    {
        proof {
            if old(self).wf() && other.wf() && old(self).response_time_counter
                + other.response_time_counter <= usize::MAX {
                lemma_merge_consistent(old(self).summary(), other.summary());
            }
        }
        merge_times_into(&mut self.response_times, &other.response_times);
        self.min_response_time = update_min_time(self.min_response_time, other.min_response_time);
        self.max_response_time = update_max_time(self.max_response_time, other.max_response_time);
        self.total_response_time = self.total_response_time.saturating_add(
            other.total_response_time,
        );
        self.response_time_counter = self.response_time_counter.saturating_add(
            other.response_time_counter,
        );
        self.success_count = self.success_count.saturating_add(other.success_count);
        self.fail_count = self.fail_count.saturating_add(other.fail_count);
        if status_codes {
            merge_codes_into(&mut self.status_code_counts, &other.status_code_counts);
        }
    }
}

} // verus!
