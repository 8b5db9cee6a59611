//! What a load test is made of: tasks, task sets, the state of a user, and
//! the request samples a user reports.

use crate::error::{ErrorView, GooseError};
use crate::histogram::lemma_count_below_empty;
use crate::metrics::round_time;
use crate::summary::{
    empty_summary, lemma_record_time_consistent, record_time, summary_consistent,
    times_consistent, Summary,
};
use std::collections::BTreeMap;
use vstd::prelude::*;
use vstd::string::StringExecFns;

verus! {

/// The method of a request.
#[derive(Clone, Copy, Debug, PartialEq, Eq, Structural, Hash)]
pub enum GooseMethod {
    DELETE,
    GET,
    HEAD,
    PATCH,
    POST,
    PUT,
}

/// The name of a method, in capitals.
pub open spec fn method_text(method: GooseMethod) -> Seq<char> {
    match method {
        GooseMethod::DELETE => "DELETE"@,
        GooseMethod::GET => "GET"@,
        GooseMethod::HEAD => "HEAD"@,
        GooseMethod::PATCH => "PATCH"@,
        GooseMethod::POST => "POST"@,
        GooseMethod::PUT => "PUT"@,
    }
}

/// The name of a method, in capitals.
pub fn method_name(method: GooseMethod) -> (r: &'static str)
    ensures
        r@ == method_text(method),
{
    match method {
        GooseMethod::DELETE => "DELETE",
        GooseMethod::GET => "GET",
        GooseMethod::HEAD => "HEAD",
        GooseMethod::PATCH => "PATCH",
        GooseMethod::POST => "POST",
        GooseMethod::PUT => "PUT",
    }
}

/// The key under which the requests of one method and one name are
/// summed up: the method, a space, and the name.
pub open spec fn spec_request_key(method: GooseMethod, name: Seq<char>) -> Seq<char> {
    method_text(method) + seq![' '] + name
}

/// No name of a method holds a space, and no two methods have names of
/// which one starts the other.
pub proof fn lemma_method_texts(a: GooseMethod, b: GooseMethod)
    ensures
        method_text(a).len() >= 3,
        forall|i: int| 0 <= i < method_text(a).len() ==> method_text(a)[i] != ' ',
        a != b ==> method_text(a)[0] != method_text(b)[0] || method_text(a).len() != method_text(
            b,
        ).len(),
{
    reveal_strlit("DELETE");
    reveal_strlit("GET");
    reveal_strlit("HEAD");
    reveal_strlit("PATCH");
    reveal_strlit("POST");
    reveal_strlit("PUT");
}

/// Requests of different methods or names are summed up under different
/// keys.
pub proof fn lemma_request_key_injective(
    a: GooseMethod,
    a_name: Seq<char>,
    b: GooseMethod,
    b_name: Seq<char>,
)
    requires
        spec_request_key(a, a_name) == spec_request_key(b, b_name),
    ensures
        a == b,
        a_name == b_name,
{
    lemma_method_texts(a, b);
    lemma_method_texts(b, a);
    let ka = spec_request_key(a, a_name);
    let kb = spec_request_key(b, b_name);
    let la = method_text(a).len() as int;
    let lb = method_text(b).len() as int;
    assert(ka[0] == method_text(a)[0]);
    assert(kb[0] == method_text(b)[0]);
    assert(ka[la] == ' ');
    assert(kb[lb] == ' ');
    if la < lb {
        assert(kb[la] == method_text(b)[la]);
    }
    if lb < la {
        assert(ka[lb] == method_text(a)[lb]);
    }
    assert(la == lb);
    assert(a == b);
    assert(ka.len() == la + 1 + a_name.len());
    assert(kb.len() == lb + 1 + b_name.len());
    assert forall|i: int| 0 <= i < a_name.len() implies a_name[i] == b_name[i] by {
        assert(ka[la + 1 + i] == a_name[i]);
        assert(kb[lb + 1 + i] == b_name[i]);
    }
    assert(a_name =~= b_name);
}

/// The key under which the requests of one method and one name are
/// summed up.
pub fn request_key(method: GooseMethod, name: &str) -> (r: String)
    ensures
        r@ == spec_request_key(method, name@),
{
    let mut r = String::from_str(method_name(method));
    proof {
        reveal_strlit(" ");
    }
    r.append(" ");
    r.append(name);
    assert(r@ =~= spec_request_key(method, name@));
    r
}

/// A sample of one request, as a user reports it.
#[derive(Debug, Clone)]
pub struct GooseRawRequest {
    /// How many milliseconds the load test has been running.
    pub elapsed: u64,
    /// The method being used (ie, GET, POST, etc).
    pub method: GooseMethod,
    /// The optional name of the request.
    pub name: String,
    /// The full URL that was requested.
    pub url: String,
    /// The final full URL that was requested, after redirects.
    pub final_url: String,
    /// Whether or not the request was redirected.
    pub redirected: bool,
    /// How many milliseconds the request took.
    pub response_time: u64,
    /// The HTTP response code (optional).
    pub status_code: u16,
    /// Whether or not the request was successful.
    pub success: bool,
    /// Whether or not we're updating a previous request, modifies how the
    /// parent process records it.
    pub update: bool,
    /// Which user made the request.
    pub user: usize,
}

impl GooseRawRequest {
    /// A sample for a request that starts now; the time is cut to 64 bits.
    pub fn new(method: GooseMethod, name: &str, url: &str, elapsed: u128, user: usize) -> (r: Self)
        ensures
            r.elapsed == elapsed as u64,
            r.method == method,
            r.name@ == name@,
            r.url@ == url@,
            r.final_url@ == Seq::<char>::empty(),
            !r.redirected,
            r.response_time == 0,
            r.status_code == 0,
            r.success,
            !r.update,
            r.user == user,
    {
        GooseRawRequest {
            elapsed: #[verifier::truncate]
            (elapsed as u64),
            method,
            name: String::from_str(name),
            url: String::from_str(url),
            final_url: String::new(),
            redirected: false,
            response_time: 0,
            status_code: 0,
            success: true,
            update: false,
            user,
        }
    }

    /// Stores the URL that answered; a request that ended on another URL
    /// than it asked for was redirected.
    pub fn set_final_url(&mut self, final_url: &str)
        ensures
            final(self).final_url@ == final_url@,
            final(self).redirected == (old(self).redirected || final_url@ != old(self).url@),
            final(self).elapsed == old(self).elapsed,
            final(self).method == old(self).method,
            final(self).name == old(self).name,
            final(self).url == old(self).url,
            final(self).response_time == old(self).response_time,
            final(self).status_code == old(self).status_code,
            final(self).success == old(self).success,
            final(self).update == old(self).update,
            final(self).user == old(self).user,
    {
        self.final_url = String::from_str(final_url);
        if self.final_url != self.url {
            self.redirected = true;
        }
    }

    /// Stores how long the request took, cut to 64 bits.
    pub fn set_response_time(&mut self, response_time: u128)
        ensures
            final(self).response_time == response_time as u64,
            final(self).elapsed == old(self).elapsed,
            final(self).method == old(self).method,
            final(self).name == old(self).name,
            final(self).url == old(self).url,
            final(self).final_url == old(self).final_url,
            final(self).redirected == old(self).redirected,
            final(self).status_code == old(self).status_code,
            final(self).success == old(self).success,
            final(self).update == old(self).update,
            final(self).user == old(self).user,
    {
        self.response_time = #[verifier::truncate]
        (response_time as u64);
    }

    /// Stores the status code of the response, zero where there was none,
    /// and counts the request as a success exactly for a code from 200 to
    /// 299.
    pub fn set_status_code(&mut self, status_code: Option<u16>)
        ensures
            final(self).status_code == match status_code {
                Some(code) => code,
                None => 0,
            },
            final(self).success == (200 <= final(self).status_code < 300),
            final(self).elapsed == old(self).elapsed,
            final(self).method == old(self).method,
            final(self).name == old(self).name,
            final(self).url == old(self).url,
            final(self).final_url == old(self).final_url,
            final(self).redirected == old(self).redirected,
            final(self).response_time == old(self).response_time,
            final(self).update == old(self).update,
            final(self).user == old(self).user,
    {
        self.status_code = match status_code {
            Some(code) => code,
            None => 0,
        };
        self.success = 200 <= self.status_code && self.status_code < 300;
    }
}

/// The summary of all requests of one method and one name.
#[derive(Debug, Clone)]
pub struct GooseRequest {
    /// The path for which metrics are being collected.
    pub path: String,
    /// The method for which metrics are being collected.
    pub method: GooseMethod,
    /// Per-response-time counters, tracking how often pages are returned
    /// with this response time.
    pub response_times: BTreeMap<usize, usize>,
    /// The shortest response time seen so far.
    pub min_response_time: usize,
    /// The longest response time seen so far.
    pub max_response_time: usize,
    /// Total combined response times seen so far.
    pub total_response_time: usize,
    /// Total number of response times seen so far.
    pub response_time_counter: usize,
    /// Per-status-code counters, tracking how often each response code was
    /// returned for this request.
    pub status_code_counts: BTreeMap<u16, usize>,
    /// Total number of times this path-method request resulted in a
    /// successful status code.
    pub success_count: usize,
    /// Total number of times this path-method request resulted in a
    /// non-successful status code.
    pub fail_count: usize,
    /// Load test hash.
    pub load_test_hash: u64,
}

impl GooseRequest {
    /// The numbers kept for the request.
    pub open spec fn summary(&self) -> Summary {
        Summary {
            times: self.response_times@,
            min_time: self.min_response_time,
            max_time: self.max_response_time,
            total_time: self.total_response_time,
            counter: self.response_time_counter,
            success_count: self.success_count,
            fail_count: self.fail_count,
        }
    }

    /// The key under which the request is summed up.
    pub open spec fn key(&self) -> Seq<char> {
        spec_request_key(self.method, self.path@)
    }

    /// Every request is in the histogram, and is either a success or a
    /// failure.
    pub open spec fn wf(&self) -> bool {
        summary_consistent(self.summary())
    }

    /// The empty summary of a request.
    pub fn new(path: &str, method: GooseMethod, load_test_hash: u64) -> (r: Self)
        ensures
            r.path@ == path@,
            r.method == method,
            r.load_test_hash == load_test_hash,
            r.summary() == empty_summary(),
            r.status_code_counts@ == Map::<u16, usize>::empty(),
            r.wf(),
    {
        let r = GooseRequest {
            path: String::from_str(path),
            method,
            response_times: BTreeMap::new(),
            min_response_time: 0,
            max_response_time: 0,
            total_response_time: 0,
            response_time_counter: 0,
            status_code_counts: BTreeMap::new(),
            success_count: 0,
            fail_count: 0,
            load_test_hash,
        };
        proof {
            lemma_count_below_empty(r.response_times@, usize::MAX as int + 1);
        }
        r
    }

    /// Tracks the response time of one more request: the time, cut to a
    /// machine word, goes into the shortest, longest and total time and
    /// into its bucket of the histogram.
    pub fn set_response_time(&mut self, response_time: u64)
        ensures
            final(self).summary() == record_time(old(self).summary(), response_time as usize),
            final(self).path == old(self).path,
            final(self).method == old(self).method,
            final(self).status_code_counts == old(self).status_code_counts,
            final(self).load_test_hash == old(self).load_test_hash,
            times_consistent(old(self).summary()) ==> times_consistent(final(self).summary()),
    {
        let time: usize = #[verifier::truncate]
        (response_time as usize);
        proof {
            if times_consistent(old(self).summary()) {
                lemma_record_time_consistent(old(self).summary(), time);
            }
        }
        if self.response_time_counter == usize::MAX {
            return ;
        }
        if self.min_response_time == 0 || time < self.min_response_time {
            self.min_response_time = time;
        }
        if time > self.max_response_time {
            self.max_response_time = time;
        }
        self.total_response_time = self.total_response_time.saturating_add(time);
        self.response_time_counter = self.response_time_counter + 1;
        let rounded = round_time(time);
        let counter: usize = match self.response_times.get(&rounded) {
            Some(c) => c.saturating_add(1),
            None => 1,
        };
        self.response_times.insert(rounded, counter);
    }

    /// Counts one more response with the given status code.
    pub fn set_status_code(&mut self, status_code: u16)
        ensures
            final(self).status_code_counts@ == old(self).status_code_counts@.insert(
                status_code,
                if old(self).status_code_counts@.contains_key(status_code) {
                    if old(self).status_code_counts@[status_code] == usize::MAX {
                        usize::MAX
                    } else {
                        (old(self).status_code_counts@[status_code] + 1) as usize
                    }
                } else {
                    1
                },
            ),
            final(self).summary() == old(self).summary(),
            final(self).path == old(self).path,
            final(self).method == old(self).method,
            final(self).load_test_hash == old(self).load_test_hash,
    {
        let counter: usize = match self.status_code_counts.get(&status_code) {
            Some(c) => c.saturating_add(1),
            None => 1,
        };
        self.status_code_counts.insert(status_code, counter);
    }
}

/// An individual task within a task set.
#[derive(Debug, Clone)]
pub struct GooseTask {
    /// The position of the task in its task set.
    pub tasks_index: usize,
    /// An optional name for the task, used when displaying metrics.
    pub name: String,
    /// How often the task runs, relative to the other tasks of its task
    /// set; at least 1.
    pub weight: usize,
    /// The place of the task in the order of its task set; tasks with a
    /// sequence of zero run after the others.
    pub sequence: usize,
    /// Whether the task runs when a user starts.
    pub on_start: bool,
    /// Whether the task runs when a user stops.
    pub on_stop: bool,
}

/// An individual task set: the tasks of one kind of user.
#[derive(Debug, Clone)]
pub struct GooseTaskSet {
    /// The name of the task set.
    pub name: String,
    /// The position of the task set among the task sets of the load test.
    pub task_sets_index: usize,
    /// How many users run the task set, relative to the other task sets;
    /// at least 1.
    pub weight: usize,
    /// The least number of milliseconds a user waits after a task.
    pub min_wait: usize,
    /// The largest number of milliseconds a user waits after a task.
    pub max_wait: usize,
    /// The tasks of the task set, in the order of their definition.
    pub tasks: Vec<GooseTask>,
    /// The tasks that run while a user is active, by weight and sequence.
    pub weighted_tasks: Vec<Vec<usize>>,
    /// The tasks that run when a user starts, by weight and sequence.
    pub weighted_on_start_tasks: Vec<Vec<usize>>,
    /// The tasks that run when a user stops, by weight and sequence.
    pub weighted_on_stop_tasks: Vec<Vec<usize>>,
    /// An optional host for the task set.
    pub host: Option<String>,
}

/// The state of one simulated user.
#[derive(Debug, Clone)]
pub struct GooseUser {
    /// The task set the user runs.
    pub task_sets_index: usize,
    /// The base URL that the paths of the user's requests are joined to.
    pub base_url: String,
    /// The least number of milliseconds the user waits after a task.
    pub min_wait: usize,
    /// The largest number of milliseconds the user waits after a task.
    pub max_wait: usize,
    /// The position of the user among the users of the load test.
    pub weighted_users_index: usize,
    /// The fingerprint of the load test the user was made for.
    pub load_test_hash: u64,
    /// The tasks that run when the user starts, by weight and sequence.
    pub weighted_on_start_tasks: Vec<Vec<usize>>,
    /// The tasks that run while the user is active, by weight and sequence.
    pub weighted_tasks: Vec<Vec<usize>>,
    /// The tasks that run when the user stops, by weight and sequence.
    pub weighted_on_stop_tasks: Vec<Vec<usize>>,
}

impl GooseTask {
    /// A task without a name, with a weight of 1 and without a sequence,
    /// which runs neither when a user starts nor when it stops.
    pub fn new() -> (r: GooseTask)
        ensures
            r.tasks_index == usize::MAX,
            r.name@ == Seq::<char>::empty(),
            r.weight == 1,
            r.sequence == 0,
            !r.on_start,
            !r.on_stop,
    {
        GooseTask {
            tasks_index: usize::MAX,
            name: String::new(),
            weight: 1,
            sequence: 0,
            on_start: false,
            on_stop: false,
        }
    }

    /// Sets a name for the task, used when displaying metrics.
    pub fn set_name(self, name: &str) -> (r: GooseTask)
        ensures
            r.name@ == name@,
            r == (GooseTask { name: r.name, ..self }),
    {
        let mut task = self;
        task.name = String::from_str(name);
        task
    }

    /// Sets the task to run when a user starts.
    pub fn set_on_start(self) -> (r: GooseTask)
        ensures
            r == (GooseTask { on_start: true, ..self }),
    {
        let mut task = self;
        task.on_start = true;
        task
    }

    /// Sets the task to run when a user stops.
    pub fn set_on_stop(self) -> (r: GooseTask)
        ensures
            r == (GooseTask { on_stop: true, ..self }),
    {
        let mut task = self;
        task.on_stop = true;
        task
    }

    /// Sets the weight of the task, which has to be at least 1.
    pub fn set_weight(self, weight: usize) -> (r: Result<GooseTask, GooseError>)
        ensures
            match r {
                Ok(task) => weight >= 1 && task == (GooseTask { weight, ..self }),
                Err(e) => weight < 1 && e@ == crate::prepare::invalid_weight(weight),
            },
    {
        if weight < 1 {
            return Err(
                GooseError::InvalidWeight {
                    weight,
                    detail: String::from_str(crate::prepare::WEIGHT_TOO_LOW),
                },
            );
        }
        let mut task = self;
        task.weight = weight;
        Ok(task)
    }

    /// Sets the place of the task in the order of its task set.
    pub fn set_sequence(self, sequence: usize) -> (r: GooseTask)
        ensures
            r == (GooseTask { sequence, ..self }),
    {
        let mut task = self;
        task.sequence = sequence;
        task
    }
}

impl GooseTaskSet {
    /// A task set of the given name, with a weight of 1, without waits,
    /// tasks and host.
    pub fn new(name: &str) -> (r: GooseTaskSet)
        ensures
            r.name@ == name@,
            r.task_sets_index == usize::MAX,
            r.weight == 1,
            r.min_wait == 0,
            r.max_wait == 0,
            r.tasks@.len() == 0,
            r.weighted_tasks@.len() == 0,
            r.weighted_on_start_tasks@.len() == 0,
            r.weighted_on_stop_tasks@.len() == 0,
            r.host is None,
    {
        GooseTaskSet {
            name: String::from_str(name),
            task_sets_index: usize::MAX,
            weight: 1,
            min_wait: 0,
            max_wait: 0,
            tasks: Vec::new(),
            weighted_tasks: Vec::new(),
            weighted_on_start_tasks: Vec::new(),
            weighted_on_stop_tasks: Vec::new(),
            host: None,
        }
    }

    /// Registers a task with the task set, which gives it its position.
    pub fn register_task(self, task: GooseTask) -> (r: GooseTaskSet)
        ensures
            r.tasks@ == self.tasks@.push(
                GooseTask { tasks_index: self.tasks@.len() as usize, ..task },
            ),
            r == (GooseTaskSet { tasks: r.tasks, ..self }),
    {
        let mut task_set = self;
        let mut task = task;
        task.tasks_index = task_set.tasks.len();
        task_set.tasks.push(task);
        task_set
    }

    /// Sets the weight of the task set, which has to be at least 1.
    pub fn set_weight(self, weight: usize) -> (r: Result<GooseTaskSet, GooseError>)
        ensures
            match r {
                Ok(task_set) => weight >= 1 && task_set == (GooseTaskSet { weight, ..self }),
                Err(e) => weight < 1 && e@ == crate::prepare::invalid_weight(weight),
            },
    {
        if weight < 1 {
            return Err(
                GooseError::InvalidWeight {
                    weight,
                    detail: String::from_str(crate::prepare::WEIGHT_TOO_LOW),
                },
            );
        }
        let mut task_set = self;
        task_set.weight = weight;
        Ok(task_set)
    }

    /// Sets a host for the task set.
    pub fn set_host(self, host: &str) -> (r: GooseTaskSet)
        ensures
            r.host matches Some(h) && h@ == host@,
            r == (GooseTaskSet { host: r.host, ..self }),
    {
        let mut task_set = self;
        task_set.host = Some(String::from_str(host));
        task_set
    }

    /// Sets how long a user waits after a task, in milliseconds: at least
    /// `min_wait` and at most `max_wait`, which must not be the smaller.
    pub fn set_wait_time(self, min_wait: usize, max_wait: usize) -> (r: Result<
        GooseTaskSet,
        GooseError,
    >)
        ensures
            match r {
                Ok(task_set) => min_wait <= max_wait && task_set == (GooseTaskSet {
                    min_wait,
                    max_wait,
                    ..self
                }),
                Err(e) => min_wait > max_wait && e@ == (ErrorView::InvalidWaitTime {
                    min_wait,
                    max_wait,
                    detail: crate::prepare::WAIT_TIME_REVERSED@,
                }),
            },
    {
        if min_wait > max_wait {
            return Err(
                GooseError::InvalidWaitTime {
                    min_wait,
                    max_wait,
                    detail: String::from_str(crate::prepare::WAIT_TIME_REVERSED),
                },
            );
        }
        let mut task_set = self;
        task_set.min_wait = min_wait;
        task_set.max_wait = max_wait;
        Ok(task_set)
    }
}

} // verus!
