//! From options and task sets to a load test that is ready to run: the
//! options are resolved in a fixed order, the task sets are checked and
//! weighted, the fingerprint is taken and the users are allocated.

use crate::attack::GooseAttack;
use crate::options::{
    attack_mode_outcome, debug_format_outcome, expect_workers_outcome, gaggle_outcome,
    hatch_rate_outcome, metrics_format_outcome, resolve_debug_format, resolve_expect_workers,
    resolve_gaggle, resolve_hatch_rate, resolve_metrics_format, resolve_mode, resolve_run_time,
    resolve_throttle, resolve_users, run_time_outcome, throttle_outcome, users_outcome,
    GaggleAddresses,
};
use crate::config::{GooseConfiguration, GooseDefaults, GooseMode};
use crate::error::{ErrorView, GooseError};
use crate::fingerprint::{fingerprint, spec_fingerprint};
use crate::goose::{GooseTask, GooseTaskSet, GooseUser};
use crate::hosts::{base_url_outcome, get_base_url, no_host_defined, no_host_error, option_text};
use crate::planner::{
    buckets, lemma_weighted_sets_entries, lemma_weights_gcd_divides, spec_plan, task_set_weights,
    task_sets_gcd, task_weights, weight_task_sets, weight_tasks, weighted_sets, weights_gcd,
    weights_valid, StepClass,
};
use vstd::prelude::*;
use vstd::string::StringExecFns;

verus! {

pub const NO_TASK_SETS: &'static str = "No task sets are defined.";

pub const NO_TASKS: &'static str = "No tasks are defined for a task set.";

pub const WEIGHT_TOO_LOW: &'static str = "Weight must be set to at least 1.";

pub const WAIT_TIME_REVERSED: &'static str =
    "The min_wait option can not be set to a larger value than the max_wait option.";

/// What the options of a load test come to.
pub struct Resolved {
    /// The mode of the load test.
    pub mode: GooseMode,
    /// How many users to launch.
    pub users: usize,
    /// How many Workers a Manager waits for.
    pub expect_workers: u16,
    /// Where the processes of a distributed load test meet.
    pub addresses: GaggleAddresses,
    /// How long the load test runs, in seconds; zero to run until it is
    /// interrupted.
    pub run_time: usize,
    /// How many users are launched each second.
    pub hatch_rate: usize,
    /// The format of the metrics file.
    pub metrics_format: Seq<char>,
    /// The format of the debug file.
    pub debug_format: Seq<char>,
    /// The largest number of requests per second; zero for no limit.
    pub throttle_requests: usize,
}

/// What the options of a load test come to, or the first option that
/// stands against them. The rules are gone through in this order: the
/// mode, the users, the Workers to expect, the addresses, the run time, the
/// hatch rate, the format of the metrics file, the format of the debug
/// file, and the throttle.
pub open spec fn options_outcome(
    cfg: GooseConfiguration,
    defaults: GooseDefaults,
    current_mode: GooseMode,
    number_of_cpus: usize,
    current_users: usize,
    current_hatch_rate: usize,
) -> Result<Resolved, ErrorView> {
    match attack_mode_outcome(cfg, defaults, current_mode) {
        Err(e) => Err(e),
        Ok(mode) => match users_outcome(cfg, defaults, mode, number_of_cpus, current_users) {
            Err(e) => Err(e),
            Ok(users) => match expect_workers_outcome(cfg, defaults, mode, users) {
                Err(e) => Err(e),
                Ok(expect_workers) => match gaggle_outcome(cfg, defaults, mode) {
                    Err(e) => Err(e),
                    Ok(addresses) => match run_time_outcome(cfg, defaults, mode) {
                        Err(e) => Err(e),
                        Ok(run_time) => match hatch_rate_outcome(
                            cfg,
                            defaults,
                            mode,
                            current_hatch_rate,
                        ) {
                            Err(e) => Err(e),
                            Ok(hatch_rate) => match metrics_format_outcome(cfg, defaults) {
                                Err(e) => Err(e),
                                Ok(metrics_format) => match debug_format_outcome(cfg, defaults) {
                                    Err(e) => Err(e),
                                    Ok(debug_format) => match throttle_outcome(
                                        cfg,
                                        defaults,
                                        mode,
                                    ) {
                                        Err(e) => Err(e),
                                        Ok(throttle_requests) => Ok(
                                            Resolved {
                                                mode,
                                                users,
                                                expect_workers,
                                                addresses,
                                                run_time,
                                                hatch_rate,
                                                metrics_format,
                                                debug_format,
                                                throttle_requests,
                                            },
                                        ),
                                    },
                                },
                            },
                        },
                    },
                },
            },
        },
    }
}

/// What the rules for the options come to, mode by mode. Options that
/// were resolved without an error have a mode, and:
/// a Worker was given no host, no users, no hatch rate, no run time, no
/// Workers to expect, no metrics file and no format for it, and was not
/// told to skip the check of the fingerprint;
/// a Manager was given no throttle and no debug file, and expects at
/// least one Worker and no more than it has users;
/// a load test that stands alone expects no Workers and was not told to
/// skip the check of the fingerprint;
/// off a Worker there is at least one user, and at least one is launched
/// each second;
/// and a throttle allows at most 1,000,000 requests each second.
pub proof fn lemma_options_by_mode(
    cfg: GooseConfiguration,
    defaults: GooseDefaults,
    number_of_cpus: usize,
    resolved: Resolved,
)
    requires
        options_outcome(cfg, defaults, GooseMode::Undefined, number_of_cpus, 0, 0) == Ok::<
            Resolved,
            ErrorView,
        >(resolved),
    ensures
        resolved.mode != GooseMode::Undefined,
        resolved.mode == GooseMode::Worker ==> {
            &&& cfg.host@.len() == 0
            &&& cfg.users is None
            &&& cfg.hatch_rate == 0
            &&& cfg.run_time@.len() == 0
            &&& cfg.expect_workers == 0
            &&& !cfg.no_hash_check
            &&& cfg.metrics_file@.len() == 0
            &&& cfg.metrics_format@.len() == 0
            &&& !cfg.manager
            &&& resolved.expect_workers == 0
        },
        resolved.mode == GooseMode::Manager ==> {
            &&& cfg.throttle_requests is None
            &&& resolved.throttle_requests == 0
            &&& cfg.debug_file@.len() == 0
            &&& !cfg.worker
            &&& 1 <= resolved.expect_workers <= resolved.users
        },
        resolved.mode == GooseMode::StandAlone ==> {
            &&& resolved.expect_workers == 0
            &&& !cfg.no_hash_check
            &&& !cfg.manager
            &&& !cfg.worker
        },
        resolved.mode != GooseMode::Worker ==> resolved.users >= 1 && resolved.hatch_rate >= 1,
        resolved.throttle_requests <= crate::options::MAX_THROTTLE_REQUESTS,
        cfg.throttle_requests matches Some(throttle) ==> 1 <= throttle
            <= crate::options::MAX_THROTTLE_REQUESTS && resolved.throttle_requests == throttle,
{
}

/// The options of a load test as its state holds them.
pub open spec fn resolved_of(attack: GooseAttack) -> Resolved {
    Resolved {
        mode: attack.attack_mode,
        users: attack.users,
        expect_workers: attack.configuration.expect_workers,
        addresses: attack.addresses(),
        run_time: attack.run_time,
        hatch_rate: attack.hatch_rate,
        metrics_format: attack.configuration.metrics_format@,
        debug_format: attack.configuration.debug_format@,
        throttle_requests: attack.throttle_requests,
    }
}

/// The options and defaults of `after` are those of `before`, but for the
/// options that resolving fills in.
pub open spec fn options_kept(before: GooseAttack, after: GooseAttack) -> bool {
    &&& after.defaults == before.defaults
    &&& after.task_sets == before.task_sets
    &&& after.weighted_users == before.weighted_users
    &&& after.test_start_task == before.test_start_task
    &&& after.test_stop_task == before.test_stop_task
    &&& after.number_of_cpus == before.number_of_cpus
    &&& after.metrics == before.metrics
    &&& after.configuration == (GooseConfiguration {
        expect_workers: after.configuration.expect_workers,
        manager_bind_host: after.configuration.manager_bind_host,
        manager_bind_port: after.configuration.manager_bind_port,
        manager_host: after.configuration.manager_host,
        manager_port: after.configuration.manager_port,
        metrics_format: after.configuration.metrics_format,
        debug_format: after.configuration.debug_format,
        ..before.configuration
    })
}

/// The error for a load test without task sets.
pub open spec fn no_task_sets() -> ErrorView {
    ErrorView::NoTaskSets { detail: NO_TASK_SETS@ }
}

/// The first task set, from `from` on, that has no host while neither an
/// option nor a default gives one.
pub open spec fn first_missing_host(
    task_sets: Seq<GooseTaskSet>,
    default_host: Option<String>,
    from: int,
) -> Option<ErrorView>
    decreases task_sets.len() - from,
{
    if from < 0 || from >= task_sets.len() {
        None
    } else if task_sets[from].host is None && default_host is None {
        Some(no_host_defined(task_sets[from].name@))
    } else {
        first_missing_host(task_sets, default_host, from + 1)
    }
}

/// Whether every task set has a host to go to: a host given as an option
/// serves all task sets, and a Worker is given its hosts later.
pub open spec fn hosts_outcome(
    cfg: GooseConfiguration,
    defaults: GooseDefaults,
    mode: GooseMode,
    task_sets: Seq<GooseTaskSet>,
) -> Option<ErrorView> {
    if cfg.host@.len() > 0 || mode == GooseMode::Worker {
        None
    } else {
        first_missing_host(task_sets, defaults.host, 0)
    }
}

/// The error for a weight below 1.
pub open spec fn invalid_weight(weight: usize) -> ErrorView {
    ErrorView::InvalidWeight { weight, detail: WEIGHT_TOO_LOW@ }
}

/// The first task, from `from` on, whose weight is below 1.
pub open spec fn first_task_error(tasks: Seq<GooseTask>, from: int) -> Option<ErrorView>
    decreases tasks.len() - from,
{
    if from < 0 || from >= tasks.len() {
        None
    } else if tasks[from].weight < 1 {
        Some(invalid_weight(tasks[from].weight))
    } else {
        first_task_error(tasks, from + 1)
    }
}

/// What is wrong with a task set, if anything: a weight below 1, a
/// shortest wait that is longer than the longest, no task, or a task with
/// a weight below 1.
pub open spec fn task_set_error(task_set: GooseTaskSet) -> Option<ErrorView> {
    if task_set.weight < 1 {
        Some(invalid_weight(task_set.weight))
    } else if task_set.min_wait > task_set.max_wait {
        Some(
            ErrorView::InvalidWaitTime {
                min_wait: task_set.min_wait,
                max_wait: task_set.max_wait,
                detail: WAIT_TIME_REVERSED@,
            },
        )
    } else if task_set.tasks@.len() == 0 {
        Some(ErrorView::NoTaskSets { detail: NO_TASKS@ })
    } else {
        first_task_error(task_set.tasks@, 0)
    }
}

/// What is wrong with the first task set, from `from` on, that is not in
/// order.
pub open spec fn first_task_set_error(task_sets: Seq<GooseTaskSet>, from: int) -> Option<ErrorView>
    decreases task_sets.len() - from,
{
    if from < 0 || from >= task_sets.len() {
        None
    } else {
        match task_set_error(task_sets[from]) {
            Some(e) => Some(e),
            None => first_task_set_error(task_sets, from + 1),
        }
    }
}

/// A task set is in order: its weight and the weights of its tasks are at
/// least 1, its waits are in order, and it has a task.
pub open spec fn task_set_valid(task_set: GooseTaskSet) -> bool {
    &&& task_set.weight >= 1
    &&& task_set.min_wait <= task_set.max_wait
    &&& task_set.tasks@.len() > 0
    &&& weights_valid(task_weights(task_set.tasks@))
}

/// All task sets are in order, and there is at least one.
pub open spec fn task_sets_valid(task_sets: Seq<GooseTaskSet>) -> bool {
    &&& task_sets.len() > 0
    &&& forall|i: int| 0 <= i < task_sets.len() ==> task_set_valid(#[trigger] task_sets[i])
}

/// A list of tasks without an error from `from` on has weights of at
/// least 1 from there on.
pub proof fn lemma_no_task_error(tasks: Seq<GooseTask>, from: int)
    requires
        0 <= from,
        first_task_error(tasks, from) is None,
    ensures
        forall|i: int| from <= i < tasks.len() ==> tasks[i].weight >= 1,
    decreases tasks.len() - from,
{
    if from < tasks.len() {
        lemma_no_task_error(tasks, from + 1);
    }
}

/// Task sets without an error from `from` on are in order from there on.
pub proof fn lemma_no_task_set_error(task_sets: Seq<GooseTaskSet>, from: int)
    requires
        0 <= from,
        first_task_set_error(task_sets, from) is None,
    ensures
        forall|i: int| from <= i < task_sets.len() ==> task_set_valid(#[trigger] task_sets[i]),
    decreases task_sets.len() - from,
{
    if from < task_sets.len() {
        lemma_no_task_set_error(task_sets, from + 1);
        lemma_no_task_error(task_sets[from].tasks@, 0);
    }
}

/// The task set of the user at position `i`: the users go through the
/// list of weighted task sets again and again.
pub open spec fn user_task_set(weighted: Seq<usize>, i: int) -> int {
    weighted[i % (weighted.len() as int)] as int
}

/// The host given as an option, if one is given.
pub open spec fn config_host(cfg: GooseConfiguration) -> Option<Seq<char>> {
    if cfg.host@.len() > 0 {
        Some(cfg.host@)
    } else {
        None
    }
}

/// The base URL of the users of a task set, or why they have none.
pub open spec fn task_set_base_url(
    task_set: GooseTaskSet,
    cfg: GooseConfiguration,
    defaults: GooseDefaults,
) -> Result<Seq<char>, ErrorView> {
    base_url_outcome(
        task_set.name@,
        option_text(task_set.host),
        config_host(cfg),
        option_text(defaults.host),
    )
}

/// Why the first user, from position `from` on, that cannot be given a
/// base URL has none.
pub open spec fn first_user_error(
    task_sets: Seq<GooseTaskSet>,
    weighted: Seq<usize>,
    cfg: GooseConfiguration,
    defaults: GooseDefaults,
    users: int,
    from: int,
) -> Option<ErrorView>
    decreases users - from,
{
    if from < 0 || from >= users {
        None
    } else {
        match task_set_base_url(task_sets[user_task_set(weighted, from)], cfg, defaults) {
            Err(e) => Some(e),
            Ok(_) => first_user_error(task_sets, weighted, cfg, defaults, users, from + 1),
        }
    }
}

/// The list of weighted task sets of a load test.
pub open spec fn weighted_task_sets(task_sets: Seq<GooseTaskSet>) -> Seq<usize> {
    weighted_sets(task_set_weights(task_sets), weights_gcd(task_set_weights(task_sets)))
}

/// The user at position `i` is the one that the allocation makes for its
/// task set: it has the index and the waits of the task set, the base URL
/// of the task set, the fingerprint of the load test, and no plans yet.
pub open spec fn user_allocated(
    user: GooseUser,
    task_set: GooseTaskSet,
    cfg: GooseConfiguration,
    defaults: GooseDefaults,
    hash: u64,
) -> bool {
    &&& user.task_sets_index == task_set.task_sets_index
    &&& task_set_base_url(task_set, cfg, defaults) == Ok::<Seq<char>, ErrorView>(user.base_url@)
    &&& user.min_wait == task_set.min_wait
    &&& user.max_wait == task_set.max_wait
    &&& user.weighted_users_index == usize::MAX
    &&& user.load_test_hash == hash
    &&& user.weighted_on_start_tasks@.len() == 0
    &&& user.weighted_tasks@.len() == 0
    &&& user.weighted_on_stop_tasks@.len() == 0
}

impl GooseAttack {
    /// Resolves the options of the load test, in a fixed order: the mode,
    /// the users, the Workers to expect, the addresses, the run time, the
    /// hatch rate, the formats of the metrics and the debug file, and the
    /// throttle. The first option that breaks a rule is the error.
    pub fn resolve_options(self) -> (r: Result<GooseAttack, GooseError>)
        ensures
            match r {
                Ok(attack) => options_outcome(
                    self.configuration,
                    self.defaults,
                    self.attack_mode,
                    self.number_of_cpus,
                    self.users,
                    self.hatch_rate,
                ) == Ok::<Resolved, ErrorView>(resolved_of(attack)) && options_kept(self, attack),
                Err(e) => options_outcome(
                    self.configuration,
                    self.defaults,
                    self.attack_mode,
                    self.number_of_cpus,
                    self.users,
                    self.hatch_rate,
                ) == Err::<Resolved, ErrorView>(e@),
            },
    {
        let mode = match resolve_mode(&self.configuration, &self.defaults, self.attack_mode) {
            Ok(found) => found,
            Err(e) => {
                return Err(e);
            },
        };
        let users = match resolve_users(
            &self.configuration,
            &self.defaults,
            mode,
            self.number_of_cpus,
            self.users,
        ) {
            Ok(found) => found,
            Err(e) => {
                return Err(e);
            },
        };
        let expect_workers = match resolve_expect_workers(
            &self.configuration,
            &self.defaults,
            mode,
            users,
        ) {
            Ok(found) => found,
            Err(e) => {
                return Err(e);
            },
        };
        let addresses = match resolve_gaggle(&self.configuration, &self.defaults, mode) {
            Ok(found) => found,
            Err(e) => {
                return Err(e);
            },
        };
        let run_time = match resolve_run_time(&self.configuration, &self.defaults, mode) {
            Ok(found) => found,
            Err(e) => {
                return Err(e);
            },
        };
        let hatch_rate = match resolve_hatch_rate(
            &self.configuration,
            &self.defaults,
            mode,
            self.hatch_rate,
        ) {
            Ok(found) => found,
            Err(e) => {
                return Err(e);
            },
        };
        let metrics_format = match resolve_metrics_format(&self.configuration, &self.defaults) {
            Ok(found) => found,
            Err(e) => {
                return Err(e);
            },
        };
        let debug_format = match resolve_debug_format(&self.configuration, &self.defaults) {
            Ok(found) => found,
            Err(e) => {
                return Err(e);
            },
        };
        let throttle_requests = match resolve_throttle(&self.configuration, &self.defaults, mode) {
            Ok(found) => found,
            Err(e) => {
                return Err(e);
            },
        };
        let mut attack = self;
        attack.attack_mode = mode;
        attack.users = users;
        attack.configuration.expect_workers = expect_workers;
        attack.configuration.manager_bind_host = addresses.0;
        attack.configuration.manager_bind_port = addresses.1;
        attack.configuration.manager_host = addresses.2;
        attack.configuration.manager_port = addresses.3;
        attack.run_time = run_time;
        attack.hatch_rate = hatch_rate;
        attack.configuration.metrics_format = metrics_format;
        attack.configuration.debug_format = debug_format;
        attack.throttle_requests = throttle_requests;
        Ok(attack)
    }
}

/// Looks for a task set that has no host while neither an option nor a
/// default gives one.
pub fn check_hosts(
    cfg: &GooseConfiguration,
    defaults: &GooseDefaults,
    mode: GooseMode,
    task_sets: &Vec<GooseTaskSet>,
) -> (r: Result<(), GooseError>)
    ensures
        match r {
            Ok(()) => hosts_outcome(*cfg, *defaults, mode, task_sets@) is None,
            Err(e) => hosts_outcome(*cfg, *defaults, mode, task_sets@) == Some(e@),
        },
{
    if !cfg.host.as_str().is_empty() || mode == GooseMode::Worker {
        return Ok(());
    }
    if defaults.host.is_some() {
        proof {
            lemma_hosts_with_default(task_sets@, defaults.host, 0);
        }
        return Ok(());
    }
    let mut i: usize = 0;
    while i < task_sets.len()
        invariant
            i <= task_sets.len(),
            defaults.host is None,
            cfg.host@.len() == 0,
            mode != GooseMode::Worker,
            first_missing_host(task_sets@, defaults.host, 0) == first_missing_host(
                task_sets@,
                defaults.host,
                i as int,
            ),
        decreases task_sets.len() - i,
    {
        if task_sets[i].host.is_none() {
            return Err(no_host_error(task_sets[i].name.as_str()));
        }
        i = i + 1;
    }
    Ok(())
}

/// With a default host no task set is without a host.
pub proof fn lemma_hosts_with_default(
    task_sets: Seq<GooseTaskSet>,
    default_host: Option<String>,
    from: int,
)
    requires
        default_host is Some,
    ensures
        first_missing_host(task_sets, default_host, from) is None,
    decreases task_sets.len() - from,
{
    if 0 <= from < task_sets.len() {
        lemma_hosts_with_default(task_sets, default_host, from + 1);
    }
}

/// Looks for what is wrong with a task set, if anything.
pub fn check_task_set(task_set: &GooseTaskSet) -> (r: Result<(), GooseError>)
    ensures
        match r {
            Ok(()) => task_set_error(*task_set) is None,
            Err(e) => task_set_error(*task_set) == Some(e@),
        },
{
    if task_set.weight < 1 {
        return Err(
            GooseError::InvalidWeight {
                weight: task_set.weight,
                detail: String::from_str(WEIGHT_TOO_LOW),
            },
        );
    }
    if task_set.min_wait > task_set.max_wait {
        return Err(
            GooseError::InvalidWaitTime {
                min_wait: task_set.min_wait,
                max_wait: task_set.max_wait,
                detail: String::from_str(WAIT_TIME_REVERSED),
            },
        );
    }
    if task_set.tasks.len() == 0 {
        return Err(GooseError::NoTaskSets { detail: String::from_str(NO_TASKS) });
    }
    let mut i: usize = 0;
    while i < task_set.tasks.len()
        invariant
            i <= task_set.tasks.len(),
            task_set.weight >= 1,
            task_set.min_wait <= task_set.max_wait,
            task_set.tasks@.len() > 0,
            first_task_error(task_set.tasks@, 0) == first_task_error(task_set.tasks@, i as int),
        decreases task_set.tasks.len() - i,
    {
        if task_set.tasks[i].weight < 1 {
            return Err(
                GooseError::InvalidWeight {
                    weight: task_set.tasks[i].weight,
                    detail: String::from_str(WEIGHT_TOO_LOW),
                },
            );
        }
        i = i + 1;
    }
    Ok(())
}

/// Looks for the first task set that is not in order.
pub fn check_task_sets(task_sets: &Vec<GooseTaskSet>) -> (r: Result<(), GooseError>)
    ensures
        match r {
            Ok(()) => first_task_set_error(task_sets@, 0) is None,
            Err(e) => first_task_set_error(task_sets@, 0) == Some(e@),
        },
{
    let mut i: usize = 0;
    while i < task_sets.len()
        invariant
            i <= task_sets.len(),
            first_task_set_error(task_sets@, 0) == first_task_set_error(task_sets@, i as int),
        decreases task_sets.len() - i,
    {
        match check_task_set(&task_sets[i]) {
            Ok(()) => {},
            Err(e) => {
                return Err(e);
            },
        }
        i = i + 1;
    }
    Ok(())
}

/// A task set differs from another in its plans alone.
pub open spec fn same_but_plans(before: GooseTaskSet, after: GooseTaskSet) -> bool {
    after == (GooseTaskSet {
        weighted_tasks: after.weighted_tasks,
        weighted_on_start_tasks: after.weighted_on_start_tasks,
        weighted_on_stop_tasks: after.weighted_on_stop_tasks,
        ..before
    })
}

/// The plans of a task set are those that its tasks and their weights ask
/// for.
pub open spec fn plans_made(task_set: GooseTaskSet) -> bool {
    &&& buckets(task_set.weighted_on_start_tasks) == spec_plan(
        task_set.tasks@,
        weights_gcd(task_weights(task_set.tasks@)),
        StepClass::OnStart,
    )
    &&& buckets(task_set.weighted_tasks) == spec_plan(
        task_set.tasks@,
        weights_gcd(task_weights(task_set.tasks@)),
        StepClass::Main,
    )
    &&& buckets(task_set.weighted_on_stop_tasks) == spec_plan(
        task_set.tasks@,
        weights_gcd(task_weights(task_set.tasks@)),
        StepClass::OnStop,
    )
}

/// Applies weights to the tasks of each task set: every task set gets its
/// three plans.
pub fn weight_all_tasks(task_sets: &mut Vec<GooseTaskSet>)
    requires
        forall|i: int|
            0 <= i < old(task_sets)@.len() ==> weights_valid(
                task_weights((#[trigger] old(task_sets)@[i]).tasks@),
            ),
    ensures
        final(task_sets)@.len() == old(task_sets)@.len(),
        forall|i: int|
            0 <= i < old(task_sets)@.len() ==> same_but_plans(
                old(task_sets)@[i],
                #[trigger] final(task_sets)@[i],
            ) && plans_made(final(task_sets)@[i]),
{
    let mut i: usize = 0;
    while i < task_sets.len()
        invariant
            i <= task_sets.len(),
            task_sets@.len() == old(task_sets)@.len(),
            forall|k: int|
                0 <= k < i ==> same_but_plans(old(task_sets)@[k], #[trigger] task_sets@[k])
                    && plans_made(task_sets@[k]),
            forall|k: int| i <= k < task_sets@.len() ==> task_sets@[k] == old(task_sets)@[k],
            forall|k: int|
                0 <= k < old(task_sets)@.len() ==> weights_valid(
                    task_weights((#[trigger] old(task_sets)@[k]).tasks@),
                ),
        decreases task_sets.len() - i,
    {
        assert(weights_valid(task_weights(old(task_sets)@[i as int].tasks@)));
        let (on_start, main, on_stop) = weight_tasks(&task_sets[i]);
        let ghost before = task_sets@;
        let task_set = &mut task_sets[i];
        task_set.weighted_on_start_tasks = on_start;
        task_set.weighted_tasks = main;
        task_set.weighted_on_stop_tasks = on_stop;
        i = i + 1;
    }
}

/// The users of a load test are the ones that the allocation makes: user
/// `i` runs the task set that stands at position `i` of the list of
/// weighted task sets, gone through again and again.
pub open spec fn users_allocated(
    users: Seq<GooseUser>,
    task_sets: Seq<GooseTaskSet>,
    cfg: GooseConfiguration,
    defaults: GooseDefaults,
    count: usize,
    hash: u64,
) -> bool {
    &&& users.len() == count
    &&& forall|i: int|
        0 <= i < users.len() ==> user_allocated(
            #[trigger] users[i],
            task_sets[user_task_set(weighted_task_sets(task_sets), i)],
            cfg,
            defaults,
            hash,
        )
}

/// With task sets in order the list of weighted task sets is not empty,
/// each of its entries is the position of a task set, and the divisor of
/// the weights is not zero.
pub proof fn lemma_weighted_task_sets(task_sets: Seq<GooseTaskSet>)
    requires
        task_sets_valid(task_sets),
        task_sets.len() <= usize::MAX,
    ensures
        weights_gcd(task_set_weights(task_sets)) > 0,
        weighted_task_sets(task_sets).len() > 0,
        forall|k: int|
            0 <= k < weighted_task_sets(task_sets).len() ==> (#[trigger] weighted_task_sets(
                task_sets,
            )[k]) < task_sets.len(),
{
    let weights = task_set_weights(task_sets);
    let g = weights_gcd(weights);
    assert forall|i: int| 0 <= i < weights.len() implies weights[i] >= 1 by {
        assert(task_set_valid(task_sets[i]));
    }
    lemma_weights_gcd_divides(weights, weights.len() - 1);
    if weights.last() < g {
        vstd::arithmetic::div_mod::lemma_small_mod(weights.last() as nat, g);
    }
    lemma_weighted_sets_entries(weights, g);
}

/// Allocates the users of a load test: as many as asked for, each with
/// the task set that its position in the list of weighted task sets gives
/// it, and with the base URL of that task set. The first user that cannot
/// be given a base URL is the error.
pub fn allocate_users(
    task_sets: &Vec<GooseTaskSet>,
    cfg: &GooseConfiguration,
    defaults: &GooseDefaults,
    count: usize,
    hash: u64,
) -> (r: Result<Vec<GooseUser>, GooseError>)
    requires
        task_sets_valid(task_sets@),
    ensures
        match r {
            Ok(users) => first_user_error(
                task_sets@,
                weighted_task_sets(task_sets@),
                *cfg,
                *defaults,
                count as int,
                0,
            ) is None && users_allocated(users@, task_sets@, *cfg, *defaults, count, hash),
            Err(e) => first_user_error(
                task_sets@,
                weighted_task_sets(task_sets@),
                *cfg,
                *defaults,
                count as int,
                0,
            ) == Some(e@),
        },
{
    proof {
        assert(task_sets@.len() == task_sets.len());
        lemma_weighted_task_sets(task_sets@);
    }
    let g = task_sets_gcd(task_sets);
    let weighted = weight_task_sets(task_sets, g);
    let host_option: Option<String> = if cfg.host.as_str().is_empty() {
        None
    } else {
        Some(cfg.host.clone())
    };
    let mut users: Vec<GooseUser> = Vec::new();
    let mut i: usize = 0;
    while i < count
        invariant
            i <= count,
            weighted@ == weighted_task_sets(task_sets@),
            weighted@.len() > 0,
            forall|k: int| 0 <= k < weighted@.len() ==> (#[trigger] weighted@[k]) < task_sets@.len(),
            option_text(host_option) == config_host(*cfg),
            users@.len() == i,
            forall|k: int|
                0 <= k < i ==> user_allocated(
                    #[trigger] users@[k],
                    task_sets@[user_task_set(weighted@, k)],
                    *cfg,
                    *defaults,
                    hash,
                ),
            first_user_error(task_sets@, weighted@, *cfg, *defaults, count as int, 0)
                == first_user_error(task_sets@, weighted@, *cfg, *defaults, count as int, i as int),
        decreases count - i,
    {
        let position: usize = i % weighted.len();
        let task_set = &task_sets[weighted[position]];
        match get_base_url(task_set.name.as_str(), &task_set.host, &host_option, &defaults.host) {
            Err(e) => {
                return Err(e);
            },
            Ok(base_url) => {
                users.push(
                    GooseUser {
                        task_sets_index: task_set.task_sets_index,
                        base_url,
                        min_wait: task_set.min_wait,
                        max_wait: task_set.max_wait,
                        weighted_users_index: usize::MAX,
                        load_test_hash: hash,
                        weighted_on_start_tasks: Vec::new(),
                        weighted_tasks: Vec::new(),
                        weighted_on_stop_tasks: Vec::new(),
                    },
                );
            },
        }
        i = i + 1;
    }
    Ok(users)
}

/// Why a load test cannot be made ready, if it cannot: it has no task
/// set; or an option breaks a rule; or a task set has no host; or a task
/// set is not in order; or, off a Worker, a user cannot be given a base
/// URL. The first of these that holds is the error.
pub open spec fn prepare_error(attack: GooseAttack) -> Option<ErrorView> {
    if attack.task_sets@.len() == 0 {
        Some(no_task_sets())
    } else {
        match options_outcome(
            attack.configuration,
            attack.defaults,
            attack.attack_mode,
            attack.number_of_cpus,
            attack.users,
            attack.hatch_rate,
        ) {
            Err(e) => Some(e),
            Ok(resolved) => match hosts_outcome(
                attack.configuration,
                attack.defaults,
                resolved.mode,
                attack.task_sets@,
            ) {
                Some(e) => Some(e),
                None => match first_task_set_error(attack.task_sets@, 0) {
                    Some(e) => Some(e),
                    None => if resolved.mode != GooseMode::Worker {
                        first_user_error(
                            attack.task_sets@,
                            weighted_task_sets(attack.task_sets@),
                            attack.configuration,
                            attack.defaults,
                            resolved.users as int,
                            0,
                        )
                    } else {
                        None
                    },
                },
            },
        }
    }
}

/// `after` is `before` made ready: its options are resolved, each task
/// set has its plans, the metrics carry the fingerprint of the task sets,
/// and off a Worker the users are allocated and the metrics are displayed
/// unless they are switched off.
pub open spec fn prepared(before: GooseAttack, after: GooseAttack) -> bool {
    &&& options_outcome(
        before.configuration,
        before.defaults,
        before.attack_mode,
        before.number_of_cpus,
        before.users,
        before.hatch_rate,
    ) == Ok::<Resolved, ErrorView>(resolved_of(after))
    &&& after.defaults == before.defaults
    &&& after.test_start_task == before.test_start_task
    &&& after.test_stop_task == before.test_stop_task
    &&& after.number_of_cpus == before.number_of_cpus
    &&& after.configuration == (GooseConfiguration {
        expect_workers: after.configuration.expect_workers,
        manager_bind_host: after.configuration.manager_bind_host,
        manager_bind_port: after.configuration.manager_bind_port,
        manager_host: after.configuration.manager_host,
        manager_port: after.configuration.manager_port,
        metrics_format: after.configuration.metrics_format,
        debug_format: after.configuration.debug_format,
        ..before.configuration
    })
    &&& after.task_sets@.len() == before.task_sets@.len()
    &&& forall|i: int|
        0 <= i < before.task_sets@.len() ==> same_but_plans(
            before.task_sets@[i],
            #[trigger] after.task_sets@[i],
        ) && plans_made(after.task_sets@[i])
    &&& after.metrics == (crate::metrics::GooseMetrics {
        hash: spec_fingerprint(before.task_sets@),
        display_metrics: if after.attack_mode != GooseMode::Worker
            && !before.configuration.no_metrics {
            true
        } else {
            before.metrics.display_metrics
        },
        ..before.metrics
    })
    &&& if after.attack_mode != GooseMode::Worker {
        users_allocated(
            after.weighted_users@,
            before.task_sets@,
            before.configuration,
            before.defaults,
            after.users,
            spec_fingerprint(before.task_sets@),
        )
    } else {
        after.weighted_users == before.weighted_users
    }
}

impl GooseAttack {
    /// Allocates the users of the load test, in the order in which they
    /// will be launched.
    pub fn weight_task_set_users(&self) -> (r: Result<Vec<GooseUser>, GooseError>)
        requires
            task_sets_valid(self.task_sets@),
        ensures
            match r {
                Ok(users) => first_user_error(
                    self.task_sets@,
                    weighted_task_sets(self.task_sets@),
                    self.configuration,
                    self.defaults,
                    self.users as int,
                    0,
                ) is None && users_allocated(
                    users@,
                    self.task_sets@,
                    self.configuration,
                    self.defaults,
                    self.users,
                    self.metrics.hash,
                ),
                Err(e) => first_user_error(
                    self.task_sets@,
                    weighted_task_sets(self.task_sets@),
                    self.configuration,
                    self.defaults,
                    self.users as int,
                    0,
                ) == Some(e@),
            },
    {
        allocate_users(
            &self.task_sets,
            &self.configuration,
            &self.defaults,
            self.users,
            self.metrics.hash,
        )
    }

    /// Makes the load test ready to run: there has to be a task set; the
    /// options are resolved; every task set needs a host and has to be in
    /// order; the fingerprint is taken; off a Worker the users are
    /// allocated; and every task set gets its plans. Nothing is launched
    /// where any of this fails.
    pub fn prepare(self) -> (r: Result<GooseAttack, GooseError>)
        ensures
            match r {
                Ok(attack) => prepare_error(self) is None && prepared(self, attack),
                Err(e) => prepare_error(self) == Some(e@),
            },
    {
        if self.task_sets.len() == 0 {
            return Err(GooseError::NoTaskSets { detail: String::from_str(NO_TASK_SETS) });
        }
        let ghost before = self;
        let mut attack = match self.resolve_options() {
            Ok(resolved) => resolved,
            Err(e) => {
                return Err(e);
            },
        };
        match check_hosts(
            &attack.configuration,
            &attack.defaults,
            attack.attack_mode,
            &attack.task_sets,
        ) {
            Ok(()) => {},
            Err(e) => {
                return Err(e);
            },
        }
        match check_task_sets(&attack.task_sets) {
            Ok(()) => {},
            Err(e) => {
                return Err(e);
            },
        }
        proof {
            lemma_no_task_set_error(attack.task_sets@, 0);
            lemma_users_of_options(
                attack.task_sets@,
                weighted_task_sets(attack.task_sets@),
                before.configuration,
                attack.configuration,
                attack.defaults,
                attack.users as int,
                0,
            );
        }
        attack.metrics.hash = fingerprint(&attack.task_sets);
        if attack.attack_mode != GooseMode::Worker {
            match allocate_users(
                &attack.task_sets,
                &attack.configuration,
                &attack.defaults,
                attack.users,
                attack.metrics.hash,
            ) {
                Ok(users) => {
                    attack.weighted_users = users;
                },
                Err(e) => {
                    return Err(e);
                },
            }
            if !attack.configuration.no_metrics {
                attack.metrics.display_metrics = true;
            }
        }
        weight_all_tasks(&mut attack.task_sets);
        Ok(attack)
    }
}

/// The base URLs of the users depend on the host that the options give
/// and on nothing else of the options.
pub proof fn lemma_users_of_options(
    task_sets: Seq<GooseTaskSet>,
    weighted: Seq<usize>,
    a: GooseConfiguration,
    b: GooseConfiguration,
    defaults: GooseDefaults,
    users: int,
    from: int,
)
    requires
        a.host == b.host,
    ensures
        first_user_error(task_sets, weighted, a, defaults, users, from) == first_user_error(
            task_sets,
            weighted,
            b,
            defaults,
            users,
            from,
        ),
        forall|user: GooseUser, task_set: GooseTaskSet, hash: u64|
            #[trigger] user_allocated(user, task_set, a, defaults, hash) == user_allocated(
                user,
                task_set,
                b,
                defaults,
                hash,
            ),
    decreases users - from,
{
    if 0 <= from < users {
        lemma_users_of_options(task_sets, weighted, a, b, defaults, users, from + 1);
    }
}

} // verus!
