//! Taking in what the users report: each sample of a request or a task
//! goes into the summary that it belongs to.

use crate::config::GooseConfiguration;
use crate::goose::{GooseMethod, GooseRawRequest, GooseRequest, GooseTaskSet};
use crate::metrics::{GooseMetric, GooseMetrics, GooseRawTask, GooseTaskMetric};
use crate::summary::{
    empty_summary, lemma_reclassify_consistent, lemma_record_sample_consistent, reclassify,
    record_sample,
};
use vstd::prelude::*;
use vstd::string::StringExecFns;

verus! {

/// How often a status code is counted after it was seen once more.
pub open spec fn code_counted(counts: Map<u16, usize>, code: u16) -> Map<u16, usize> {
    counts.insert(
        code,
        if counts.contains_key(code) {
            if counts[code] == usize::MAX {
                usize::MAX
            } else {
                (counts[code] + 1) as usize
            }
        } else {
            1
        },
    )
}

/// `after` is the summary `before` with the sample `raw` taken in. A
/// sample that updates an earlier one moves that one from the failures to
/// the successes or back, and changes nothing else. Any other sample is
/// recorded with its time and its outcome, and with its status code where
/// status codes are tracked; a summary whose counter is full takes no
/// more.
pub open spec fn request_recorded(
    before: GooseRequest,
    after: GooseRequest,
    raw: GooseRawRequest,
    status_codes: bool,
) -> bool {
    &&& after.path == before.path
    &&& after.method == before.method
    &&& after.load_test_hash == before.load_test_hash
    &&& if raw.update {
        &&& after.summary() == reclassify(before.summary(), raw.success)
        &&& after.status_code_counts@ == before.status_code_counts@
    } else {
        &&& after.summary() == record_sample(
            before.summary(),
            raw.response_time as usize,
            raw.success,
        )
        &&& after.status_code_counts@ == if status_codes && before.response_time_counter
            < usize::MAX {
            code_counted(before.status_code_counts@, raw.status_code)
        } else {
            before.status_code_counts@
        }
    }
}

impl GooseRequest {
    /// Takes in one sample of this request.
    pub fn record(&mut self, raw: &GooseRawRequest, status_codes: bool)
        ensures
            request_recorded(*old(self), *final(self), *raw, status_codes),
            old(self).wf() ==> final(self).wf(),
    {
        proof {
            if old(self).wf() {
                lemma_reclassify_consistent(old(self).summary(), raw.success);
                lemma_record_sample_consistent(
                    old(self).summary(),
                    raw.response_time as usize,
                    raw.success,
                );
            }
        }
        if raw.update {
            if raw.success {
                if self.fail_count > 0 && self.success_count < usize::MAX {
                    self.success_count = self.success_count + 1;
                    self.fail_count = self.fail_count - 1;
                }
            } else {
                if self.success_count > 0 && self.fail_count < usize::MAX {
                    self.success_count = self.success_count - 1;
                    self.fail_count = self.fail_count + 1;
                }
            }
        } else {
            if self.response_time_counter == usize::MAX {
                return ;
            }
            self.set_response_time(raw.response_time);
            if status_codes {
                self.set_status_code(raw.status_code);
            }
            if raw.success {
                self.success_count = self.success_count.saturating_add(1);
            } else {
                self.fail_count = self.fail_count.saturating_add(1);
            }
        }
    }
}

/// The position of the first request, from `from` on, with the given
/// method and name; the number of requests where there is none.
pub open spec fn request_position(
    requests: Seq<GooseRequest>,
    method: GooseMethod,
    name: Seq<char>,
    from: int,
) -> int
    decreases requests.len() - from,
{
    if from < 0 || from >= requests.len() {
        requests.len() as int
    } else if requests[from].method == method && requests[from].path@ == name {
        from
    } else {
        request_position(requests, method, name, from + 1)
    }
}

/// No two summaries are of the same method and name.
pub open spec fn requests_distinct(requests: Seq<GooseRequest>) -> bool {
    forall|i: int, j: int|
        0 <= i < j < requests.len() ==> !(requests[i].method == requests[j].method
            && requests[i].path@ == requests[j].path@)
}

/// The request metrics `after` are `before` with the sample `raw` taken
/// in: the sample goes into the summary of its method and name, which is
/// added at the end where it is the first of its kind; an update of a
/// request that has no summary is dropped. The other summaries stay as
/// they are.
pub open spec fn requests_recorded(
    before: Seq<GooseRequest>,
    after: Seq<GooseRequest>,
    raw: GooseRawRequest,
    status_codes: bool,
) -> bool {
    let i = request_position(before, raw.method, raw.name@, 0);
    if i < before.len() {
        &&& after.len() == before.len()
        &&& request_recorded(before[i], after[i], raw, status_codes)
        &&& forall|k: int| 0 <= k < before.len() && k != i ==> after[k] == before[k]
    } else if raw.update {
        after == before
    } else {
        &&& after.len() == before.len() + 1
        &&& forall|k: int| 0 <= k < before.len() ==> after[k] == before[k]
        &&& after[i].path@ == raw.name@
        &&& after[i].method == raw.method
        &&& after[i].load_test_hash == 0
        &&& after[i].summary() == record_sample(
            empty_summary(),
            raw.response_time as usize,
            raw.success,
        )
        &&& after[i].status_code_counts@ == if status_codes {
            code_counted(Map::empty(), raw.status_code)
        } else {
            Map::<u16, usize>::empty()
        }
    }
}

/// The position of the first request with the given method and name.
pub fn find_by_name(requests: &Vec<GooseRequest>, method: GooseMethod, name: &str) -> (r: usize)
    ensures
        r == request_position(requests@, method, name@, 0),
        r <= requests@.len(),
        r < requests@.len() ==> requests@[r as int].method == method && requests@[r as int].path@
            == name@,
        forall|k: int|
            0 <= k < r ==> !(requests@[k].method == method && requests@[k].path@ == name@),
{
    let mut i: usize = 0;
    while i < requests.len()
        invariant
            i <= requests.len(),
            request_position(requests@, method, name@, 0) == request_position(
                requests@,
                method,
                name@,
                i as int,
            ),
            forall|k: int|
                0 <= k < i ==> !(requests@[k].method == method && requests@[k].path@ == name@),
        decreases requests.len() - i,
    {
        if requests[i].method == method && requests[i].path == String::from_str(name) {
            return i;
        }
        i = i + 1;
    }
    i
}

/// Takes in one sample of a request.
pub fn record_into(requests: &mut Vec<GooseRequest>, raw: &GooseRawRequest, status_codes: bool)
    ensures
        requests_recorded(old(requests)@, final(requests)@, *raw, status_codes),
        requests_distinct(old(requests)@) ==> requests_distinct(final(requests)@),
        (forall|k: int| 0 <= k < old(requests)@.len() ==> (#[trigger] old(requests)@[k]).wf())
            ==> (forall|k: int|
            0 <= k < final(requests)@.len() ==> (#[trigger] final(requests)@[k]).wf()),
{
    let position = find_by_name(requests, raw.method, raw.name.as_str());
    if position < requests.len() {
        let request = &mut requests[position];
        request.record(raw, status_codes);
    } else if !raw.update {
        let mut request = GooseRequest::new(raw.name.as_str(), raw.method, 0);
        request.record(raw, status_codes);
        requests.push(request);
    }
}

/// `after` is `before` with the run `raw` taken in: the run goes into the
/// summary of its task; a run of a task that has no summary is dropped.
pub open spec fn tasks_recorded(
    before: Seq<Vec<GooseTaskMetric>>,
    after: Seq<Vec<GooseTaskMetric>>,
    raw: GooseRawTask,
) -> bool {
    if raw.taskset_index < before.len() && raw.task_index
        < before[raw.taskset_index as int]@.len() {
        let old_set = before[raw.taskset_index as int]@;
        let new_set = after[raw.taskset_index as int]@;
        let old_task = old_set[raw.task_index as int];
        let new_task = new_set[raw.task_index as int];
        &&& after.len() == before.len()
        &&& forall|k: int|
            0 <= k < before.len() && k != raw.taskset_index ==> after[k] == before[k]
        &&& new_set.len() == old_set.len()
        &&& forall|k: int| 0 <= k < old_set.len() && k != raw.task_index ==> new_set[k] == old_set[k]
        &&& new_task.summary() == record_sample(
            old_task.summary(),
            raw.run_time as usize,
            raw.success,
        )
        &&& new_task.taskset_index == old_task.taskset_index
        &&& new_task.taskset_name == old_task.taskset_name
        &&& new_task.task_index == old_task.task_index
        &&& new_task.task_name == old_task.task_name
    } else {
        after == before
    }
}

/// Every summary of a task is consistent.
pub open spec fn tasks_consistent(tasks: Seq<Vec<GooseTaskMetric>>) -> bool {
    forall|i: int, j: int|
        0 <= i < tasks.len() && 0 <= j < tasks[i]@.len() ==> (#[trigger] tasks[i]@[j]).wf()
}

/// Takes in one run of a task.
pub fn record_task_into(tasks: &mut Vec<Vec<GooseTaskMetric>>, raw: &GooseRawTask)
    ensures
        tasks_recorded(old(tasks)@, final(tasks)@, *raw),
        tasks_consistent(old(tasks)@) ==> tasks_consistent(final(tasks)@),
{
    if raw.taskset_index < tasks.len() {
        if raw.task_index < tasks[raw.taskset_index].len() {
            let set = &mut tasks[raw.taskset_index];
            let task = &mut set[raw.task_index];
            task.set_time(raw.run_time, raw.success);
        }
    }
}

impl GooseMetrics {
    /// No two summaries of requests are of the same method and name, and
    /// every summary of a request or a task is consistent: its successes
    /// and failures add up to its counter, and its histogram holds as many
    /// samples as were counted.
    pub open spec fn wf(&self) -> bool {
        &&& requests_distinct(self.requests@)
        &&& forall|k: int| 0 <= k < self.requests@.len() ==> (#[trigger] self.requests@[k]).wf()
        &&& tasks_consistent(self.tasks@)
    }

    /// Takes in one sample of a request: it goes into the summary of its
    /// method and name.
    pub fn record_request(&mut self, raw: &GooseRawRequest, status_codes: bool)
        ensures
            requests_recorded(old(self).requests@, final(self).requests@, *raw, status_codes),
            *final(self) == (GooseMetrics { requests: final(self).requests, ..*old(self) }),
            old(self).wf() ==> final(self).wf(),
    {
        record_into(&mut self.requests, raw, status_codes);
    }

    /// Takes in one run of a task: it goes into the summary of its task.
    pub fn record_task(&mut self, raw: &GooseRawTask)
        ensures
            tasks_recorded(old(self).tasks@, final(self).tasks@, *raw),
            *final(self) == (GooseMetrics { tasks: final(self).tasks, ..*old(self) }),
            old(self).wf() ==> final(self).wf(),
    {
        record_task_into(&mut self.tasks, raw);
    }

    /// Takes in what a user reports.
    pub fn record(&mut self, metric: &GooseMetric, status_codes: bool)
        ensures
            match *metric {
                GooseMetric::Request(raw) => requests_recorded(
                    old(self).requests@,
                    final(self).requests@,
                    raw,
                    status_codes,
                ) && *final(self) == (GooseMetrics { requests: final(self).requests, ..*old(self) }),
                GooseMetric::Task(raw) => tasks_recorded(old(self).tasks@, final(self).tasks@, raw)
                    && *final(self) == (GooseMetrics { tasks: final(self).tasks, ..*old(self) }),
            },
            old(self).wf() ==> final(self).wf(),
    {
        match metric {
            GooseMetric::Request(raw) => {
                self.record_request(raw, status_codes);
            },
            GooseMetric::Task(raw) => {
                self.record_task(raw);
            },
        }
    }
}

/// The summary of a task before its first run.
pub open spec fn task_metric_fresh(
    metric: GooseTaskMetric,
    task_set: GooseTaskSet,
    task_index: int,
) -> bool {
    &&& metric.taskset_index == task_set.task_sets_index
    &&& metric.taskset_name@ == task_set.name@
    &&& metric.task_index == task_set.tasks@[task_index].tasks_index
    &&& metric.task_name@ == task_set.tasks@[task_index].name@
    &&& metric.summary() == empty_summary()
    &&& metric.wf()
}

/// The task metrics before the first run: an empty summary for each task
/// of each task set, and nothing at all where metrics or task metrics are
/// switched off.
pub open spec fn task_metrics_fresh(
    tasks: Seq<Vec<GooseTaskMetric>>,
    task_sets: Seq<GooseTaskSet>,
    config: GooseConfiguration,
) -> bool {
    if config.no_metrics || config.no_task_metrics {
        tasks.len() == 0
    } else {
        &&& tasks.len() == task_sets.len()
        &&& forall|i: int|
            0 <= i < task_sets.len() ==> (#[trigger] tasks[i])@.len() == task_sets[i].tasks@.len()
        &&& forall|i: int, j: int|
            0 <= i < task_sets.len() && 0 <= j < task_sets[i].tasks@.len() ==> task_metric_fresh(
                #[trigger] tasks[i]@[j],
                task_sets[i],
                j,
            )
    }
}

/// The empty summaries of the tasks of one task set.
pub fn fresh_task_metrics(task_set: &GooseTaskSet) -> (r: Vec<GooseTaskMetric>)
    ensures
        r@.len() == task_set.tasks@.len(),
        forall|j: int|
            0 <= j < task_set.tasks@.len() ==> task_metric_fresh(#[trigger] r@[j], *task_set, j),
{
    let mut task_vector: Vec<GooseTaskMetric> = Vec::new();
    let mut j: usize = 0;
    while j < task_set.tasks.len()
        invariant
            j <= task_set.tasks.len(),
            task_vector@.len() == j,
            forall|k: int| 0 <= k < j ==> task_metric_fresh(#[trigger] task_vector@[k], *task_set, k),
        decreases task_set.tasks.len() - j,
    {
        let task = &task_set.tasks[j];
        task_vector.push(
            GooseTaskMetric::new(
                task_set.task_sets_index,
                task_set.name.as_str(),
                task.tasks_index,
                task.name.as_str(),
            ),
        );
        j = j + 1;
    }
    task_vector
}

impl GooseMetrics {
    /// Starts the task metrics anew: an empty summary for each task of
    /// each task set, unless metrics or task metrics are switched off.
    pub fn initialize_task_metrics(
        &mut self,
        task_sets: &[GooseTaskSet],
        config: &GooseConfiguration,
    )
        ensures
            task_metrics_fresh(final(self).tasks@, task_sets@, *config),
            *final(self) == (GooseMetrics { tasks: final(self).tasks, ..*old(self) }),
            tasks_consistent(final(self).tasks@),
    {
        let mut tasks: Vec<Vec<GooseTaskMetric>> = Vec::new();
        if !config.no_metrics && !config.no_task_metrics {
            let mut i: usize = 0;
            while i < task_sets.len()
                invariant
                    i <= task_sets.len(),
                    tasks@.len() == i,
                    forall|k: int|
                        0 <= k < i ==> (#[trigger] tasks@[k])@.len() == task_sets@[k].tasks@.len(),
                    forall|k: int, j: int|
                        0 <= k < i && 0 <= j < task_sets@[k].tasks@.len() ==> task_metric_fresh(
                            #[trigger] tasks@[k]@[j],
                            task_sets@[k],
                            j,
                        ),
                decreases task_sets.len() - i,
            {
                let task_vector = fresh_task_metrics(&task_sets[i]);
                tasks.push(task_vector);
                i = i + 1;
            }
        }
        self.tasks = tasks;
    }

    /// Forgets the requests that were summed up so far.
    pub fn reset_requests(&mut self)
        ensures
            final(self).requests@.len() == 0,
            *final(self) == (GooseMetrics { requests: final(self).requests, ..*old(self) }),
    {
        self.requests = Vec::new();
    }
}

} // verus!
