//! The course of a load test: users are launched one by one, the load
//! test runs until its time is up or it is interrupted, the users are
//! told to stop, and the metrics are reported. Each step takes the
//! readings of the clock as numbers and says what is to be done next.

use crate::attack::GooseAttack;
use crate::config::GooseMode;
use crate::display::full_report;
use crate::error::{ErrorView, GooseError};
use crate::goose::{GooseTaskSet, GooseUser};
use crate::hosts::{base_url_outcome, get_base_url, option_text};
use crate::metrics::{GooseMetric, GooseMetrics};
use crate::options::{
    debug_file_path, metrics_file_path, resolve_debug_file, resolve_metrics_file,
    spec_no_reset_metrics,
};
use crate::planner::buckets;
use crate::prepare::config_host;
use crate::record::{requests_recorded, task_metrics_fresh, tasks_consistent, tasks_recorded};
use crate::text::{decimal_digits, decimal_string};
use crate::util::{spec_timer_expired, timer_expired};
use vstd::prelude::*;
use vstd::string::StringExecFns;

verus! {

/// How often the metrics are displayed while the load test is running, in
/// seconds.
pub const RUNNING_METRICS_EVERY: usize = 15;

pub const NANOS_PER_SECOND: u64 = 1_000_000_000;

pub const ALL_START: &'static str = "All ";

pub const OF: &'static str = " of ";

pub const HATCHED_RESET: &'static str =
    " users hatched, resetting metrics (disable with --no-reset-metrics).\n\n";

pub const HATCHED_EXPIRED_RESET: &'static str =
    " users hatched, timer expired, resetting metrics (disable with --no-reset-metrics).\n\n";

pub const HATCHED: &'static str = " users hatched.\n\n";

pub const HATCHED_EXPIRED: &'static str = " users hatched, timer expired.\n\n";

pub const NEW_LINE: &'static str = "\n";

pub const NO_NAME: &'static str = "";

/// Where a load test stands.
#[derive(Clone, Copy, Debug, PartialEq, Eq, Structural)]
pub enum AttackPhase {
    /// The load test is ready, and nothing was started.
    Validated,
    /// Users are being launched.
    Hatching,
    /// Launching is over and the users are at work.
    Steady,
    /// The users were told to stop.
    Draining,
    /// All users have stopped and the metrics are complete.
    Reporting,
}

/// A load test on its way.
pub struct AttackRun {
    /// The load test.
    pub attack: GooseAttack,
    /// Where it stands.
    pub phase: AttackPhase,
    /// Whether the end of launching was announced.
    pub users_launched: bool,
}

/// What is to be set up before the first user is launched.
pub struct StartPlan {
    /// The base URL of the user that runs the task before the load test,
    /// where there is such a task.
    pub test_start_base_url: Option<String>,
    /// The name of the debug file, where debug records are written.
    pub debug_file: Option<String>,
    /// The size of the throttle, where requests are throttled.
    pub throttle: Option<ThrottlePlan>,
}

/// The throttle at its start.
#[derive(Clone, Copy, Debug, PartialEq, Eq, Structural)]
pub struct ThrottlePlan {
    /// How many tokens the bucket holds.
    pub capacity: usize,
    /// How many tokens are in the bucket at the start.
    pub prefill: usize,
}

/// The throttle for a limit of requests each second: none for a limit of
/// zero; else a bucket that holds as many tokens as requests are allowed
/// each second, filled but for one token.
pub open spec fn spec_throttle_plan(throttle_requests: usize) -> Option<ThrottlePlan> {
    if throttle_requests == 0 {
        None
    } else {
        Some(
            ThrottlePlan {
                capacity: throttle_requests,
                prefill: (throttle_requests - 1) as usize,
            },
        )
    }
}

/// The throttle for a limit of requests each second.
pub fn throttle_plan(throttle_requests: usize) -> (r: Option<ThrottlePlan>)
    ensures
        r == spec_throttle_plan(throttle_requests),
{
    if throttle_requests == 0 {
        None
    } else {
        Some(ThrottlePlan { capacity: throttle_requests, prefill: throttle_requests - 1 })
    }
}

/// The pause between two launches, in nanoseconds: the part of a second
/// that falls on each of the users launched in a second; a Worker does not
/// pause.
pub open spec fn spec_hatch_interval(hatch_rate: usize, mode: GooseMode) -> u64 {
    if mode == GooseMode::Worker || hatch_rate == 0 {
        0
    } else {
        (NANOS_PER_SECOND as int / hatch_rate as int) as u64
    }
}

/// The pause between two launches, in nanoseconds.
pub fn hatch_interval(hatch_rate: usize, mode: GooseMode) -> (r: u64)
    ensures
        r == spec_hatch_interval(hatch_rate, mode),
{
    if mode == GooseMode::Worker || hatch_rate == 0 {
        0
    } else {
        NANOS_PER_SECOND / (hatch_rate as u64)
    }
}

/// How long to sleep so that a pause of `duration` is over, when `drift`
/// of it has already passed with other work; nothing where more has
/// passed than the pause is long.
pub open spec fn spec_sleep_minus_drift(duration: u64, drift: u64) -> u64 {
    if drift < duration {
        (duration - drift) as u64
    } else {
        0
    }
}

/// How long to sleep so that a pause of `duration` is over, when `drift`
/// of it has already passed.
pub fn sleep_minus_drift(duration: u64, drift: u64) -> (r: u64)
    ensures
        r == spec_sleep_minus_drift(duration, drift),
{
    if drift < duration {
        duration - drift
    } else {
        0
    }
}

pub const FEATURE_GAGGLE: &'static str = "gaggle";

pub const MANAGER_NOT_ENABLED: &'static str =
    "Load test must be recompiled with `--features gaggle` to start in manager mode.";

pub const WORKER_NOT_ENABLED: &'static str =
    "Load test must be recompiled with `--features gaggle` to start in worker mode.";

/// Why a mode cannot be run, if it cannot: a Manager and a Worker need
/// the support for distributed load tests.
pub open spec fn mode_outcome(mode: GooseMode, gaggle: bool) -> Option<ErrorView> {
    if gaggle {
        None
    } else if mode == GooseMode::Manager {
        Some(
            ErrorView::FeatureNotEnabled { feature: FEATURE_GAGGLE@, detail: MANAGER_NOT_ENABLED@ },
        )
    } else if mode == GooseMode::Worker {
        Some(ErrorView::FeatureNotEnabled { feature: FEATURE_GAGGLE@, detail: WORKER_NOT_ENABLED@ })
    } else {
        None
    }
}

/// Checks that a mode can be run by a program that has, or has not, the
/// support for distributed load tests.
pub fn mode_supported(mode: GooseMode, gaggle: bool) -> (r: Result<(), GooseError>)
    ensures
        match r {
            Ok(()) => mode_outcome(mode, gaggle) is None,
            Err(e) => mode_outcome(mode, gaggle) == Some(e@),
        },
{
    if gaggle {
        Ok(())
    } else if mode == GooseMode::Manager {
        Err(
            GooseError::FeatureNotEnabled {
                feature: String::from_str(FEATURE_GAGGLE),
                detail: String::from_str(MANAGER_NOT_ENABLED),
            },
        )
    } else if mode == GooseMode::Worker {
        Err(
            GooseError::FeatureNotEnabled {
                feature: String::from_str(FEATURE_GAGGLE),
                detail: String::from_str(WORKER_NOT_ENABLED),
            },
        )
    } else {
        Ok(())
    }
}

/// A copy of a plan.
pub fn copy_plan(plan: &Vec<Vec<usize>>) -> (r: Vec<Vec<usize>>)
    ensures
        buckets(r) == buckets(*plan),
{
    let mut out: Vec<Vec<usize>> = Vec::new();
    let mut i: usize = 0;
    while i < plan.len()
        invariant
            i <= plan.len(),
            out@.len() == i,
            forall|k: int| 0 <= k < i ==> (#[trigger] out@[k])@ == plan@[k]@,
        decreases plan.len() - i,
    {
        let mut bucket: Vec<usize> = Vec::new();
        let mut j: usize = 0;
        while j < plan[i].len()
            invariant
                i < plan.len(),
                j <= plan@[i as int]@.len(),
                bucket@ == plan@[i as int]@.take(j as int),
            decreases plan@[i as int]@.len() - j,
        {
            bucket.push(plan[i][j]);
            j = j + 1;
            assert(bucket@ =~= plan@[i as int]@.take(j as int));
        }
        assert(plan@[i as int]@.take(plan@[i as int]@.len() as int) =~= plan@[i as int]@);
        out.push(bucket);
        i = i + 1;
    }
    assert(buckets(out) =~= buckets(*plan));
    out
}

/// The user as it is launched: the allocated user with its position among
/// the users and with the plans of its task set; a user whose task set is
/// not there has no plans.
pub open spec fn user_launched(
    allocated: GooseUser,
    task_sets: Seq<GooseTaskSet>,
    position: usize,
    launched: GooseUser,
) -> bool {
    &&& launched.task_sets_index == allocated.task_sets_index
    &&& launched.base_url@ == allocated.base_url@
    &&& launched.min_wait == allocated.min_wait
    &&& launched.max_wait == allocated.max_wait
    &&& launched.load_test_hash == allocated.load_test_hash
    &&& launched.weighted_users_index == position
    &&& if allocated.task_sets_index < task_sets.len() {
        let task_set = task_sets[allocated.task_sets_index as int];
        &&& buckets(launched.weighted_on_start_tasks) == buckets(task_set.weighted_on_start_tasks)
        &&& buckets(launched.weighted_tasks) == buckets(task_set.weighted_tasks)
        &&& buckets(launched.weighted_on_stop_tasks) == buckets(task_set.weighted_on_stop_tasks)
    } else {
        &&& launched.weighted_on_start_tasks@.len() == 0
        &&& launched.weighted_tasks@.len() == 0
        &&& launched.weighted_on_stop_tasks@.len() == 0
    }
}

/// Makes the user that is launched at `position` from the allocated user.
pub fn launch_user(allocated: &GooseUser, task_sets: &Vec<GooseTaskSet>, position: usize) -> (r:
    GooseUser)
    ensures
        user_launched(*allocated, task_sets@, position, r),
{
    if allocated.task_sets_index < task_sets.len() {
        let task_set = &task_sets[allocated.task_sets_index];
        GooseUser {
            task_sets_index: allocated.task_sets_index,
            base_url: allocated.base_url.clone(),
            min_wait: allocated.min_wait,
            max_wait: allocated.max_wait,
            weighted_users_index: position,
            load_test_hash: allocated.load_test_hash,
            weighted_on_start_tasks: copy_plan(&task_set.weighted_on_start_tasks),
            weighted_tasks: copy_plan(&task_set.weighted_tasks),
            weighted_on_stop_tasks: copy_plan(&task_set.weighted_on_stop_tasks),
        }
    } else {
        GooseUser {
            task_sets_index: allocated.task_sets_index,
            base_url: allocated.base_url.clone(),
            min_wait: allocated.min_wait,
            max_wait: allocated.max_wait,
            weighted_users_index: position,
            load_test_hash: allocated.load_test_hash,
            weighted_on_start_tasks: Vec::new(),
            weighted_tasks: Vec::new(),
            weighted_on_stop_tasks: Vec::new(),
        }
    }
}

/// The readings of the clock at a tick of a running load test.
#[derive(Clone, Copy, Debug, PartialEq, Eq, Structural)]
pub struct TickClock {
    /// The seconds since the load test started, or since its clock was
    /// last started anew.
    pub elapsed: u64,
    /// The seconds since the running metrics were last displayed.
    pub since_running_metrics: u64,
    /// Whether the load test was interrupted.
    pub canceled: bool,
}

/// What is to be done at a tick of a running load test.
pub struct TickOutcome {
    /// The timer of the running metrics is to be started anew.
    pub restart_metrics_timer: bool,
    /// The clock of the load test is to be started anew.
    pub restart_clock: bool,
    /// What is to be printed, if anything.
    pub printed: String,
    /// The users are to be told to stop, and the load test ends when they
    /// have.
    pub drain: bool,
}

/// What is left to do when all users have stopped.
#[derive(Clone, Copy, Debug, PartialEq, Eq, Structural)]
pub struct FinishPlan {
    /// The task after the load test is to be run.
    pub run_test_stop: bool,
    /// The metrics file is to be flushed.
    pub flush_metrics_file: bool,
    /// The debug file is to be flushed.
    pub flush_debug_file: bool,
}

/// Whether the running metrics are due: metrics are on, more than the
/// summary is shown, the process is no Worker, and the time since they
/// were last displayed is up.
pub open spec fn running_metrics_due(attack: GooseAttack, clock: TickClock) -> bool {
    !attack.configuration.no_metrics && !attack.configuration.only_summary && attack.attack_mode
        != GooseMode::Worker && spec_timer_expired(
        clock.since_running_metrics,
        RUNNING_METRICS_EVERY,
    )
}

/// Whether the metrics are started anew at the first tick: metrics are
/// on, and starting anew is not switched off.
pub open spec fn resets_metrics(run: AttackRun) -> bool {
    !run.attack.configuration.no_metrics && !run.users_launched && !spec_no_reset_metrics(
        run.attack.configuration,
        run.attack.defaults,
        run.attack.attack_mode,
    )
}

/// Whether the users are told to stop at a tick: the load test was
/// interrupted, or its run time is up. A clock that was started anew at
/// this tick stands at zero. A run time of zero is never up.
pub open spec fn drains(run: AttackRun, clock: TickClock) -> bool {
    clock.canceled || spec_timer_expired(
        if resets_metrics(run) {
            0
        } else {
            clock.elapsed
        },
        run.attack.run_time,
    )
}

/// What is said about the end of launching.
pub open spec fn hatched_text(launched: usize, users: usize, reset: bool) -> Seq<char> {
    if launched < users {
        decimal_digits(launched as nat) + OF@ + decimal_digits(users as nat) + if reset {
            HATCHED_EXPIRED_RESET@
        } else {
            HATCHED_EXPIRED@
        }
    } else {
        ALL_START@ + decimal_digits(launched as nat) + if reset {
            HATCHED_RESET@
        } else {
            HATCHED@
        }
    }
}

/// Builds what is said about the end of launching.
pub fn hatched_message(launched: usize, users: usize, reset: bool) -> (r: String)
    ensures
        r@ == hatched_text(launched, users, reset),
{
    let count = decimal_string(launched);
    if launched < users {
        let mut out = count;
        out.append(OF);
        let all = decimal_string(users);
        out.append(all.as_str());
        if reset {
            out.append(HATCHED_EXPIRED_RESET);
        } else {
            out.append(HATCHED_EXPIRED);
        }
        out
    } else {
        let mut out = String::from_str(ALL_START);
        out.append(count.as_str());
        if reset {
            out.append(HATCHED_RESET);
        } else {
            out.append(HATCHED);
        }
        out
    }
}

/// The metrics as they are displayed while the load test is running: the
/// report after `duration` seconds and an empty line, or nothing where
/// metrics are not displayed.
pub open spec fn running_report(metrics: GooseMetrics, duration: usize) -> Seq<char> {
    if metrics.display_metrics {
        full_report(GooseMetrics { duration, ..metrics }) + NEW_LINE@
    } else {
        Seq::empty()
    }
}

/// Seconds as a machine word; more than fits is the most that fits.
pub open spec fn spec_seconds(elapsed: u64) -> usize {
    if elapsed > usize::MAX {
        usize::MAX
    } else {
        elapsed as usize
    }
}

/// Seconds as a machine word.
pub fn seconds(elapsed: u64) -> (r: usize)
    ensures
        r == spec_seconds(elapsed),
{
    if elapsed > usize::MAX as u64 {
        usize::MAX
    } else {
        elapsed as usize
    }
}

impl GooseMetrics {
    /// Sets the duration and builds the metrics as they are displayed
    /// while the load test is running; nothing where metrics are not
    /// displayed.
    pub fn print_running_text(&mut self, duration: usize) -> (r: String)
        ensures
            *final(self) == (GooseMetrics { duration, ..*old(self) }),
            r@ == running_report(*old(self), duration),
    {
        self.duration = duration;
        if self.display_metrics {
            let mut out = self.render();
            out.append(NEW_LINE);
            out
        } else {
            String::new()
        }
    }
}

/// The load test has the metrics `metrics`, and is `attack` otherwise.
pub open spec fn with_metrics(attack: GooseAttack, metrics: GooseMetrics) -> GooseAttack {
    GooseAttack { metrics, ..attack }
}

/// What the start of a load test comes to: the base URL of the user that
/// runs the task before the load test, which needs a host; the debug file,
/// if debug records are written; and the throttle, if requests are
/// throttled.
pub open spec fn start_base_url(attack: GooseAttack) -> Option<Result<Seq<char>, ErrorView>> {
    if attack.attack_mode != GooseMode::Worker && attack.test_start_task is Some {
        Some(
            base_url_outcome(
                NO_NAME@,
                None,
                config_host(attack.configuration),
                option_text(attack.defaults.host),
            ),
        )
    } else {
        None
    }
}

/// The base URL of the user that runs the task after the load test, where
/// there is such a task.
pub open spec fn stop_base_url(attack: GooseAttack) -> Option<Result<Seq<char>, ErrorView>> {
    if attack.attack_mode != GooseMode::Worker && attack.test_stop_task is Some {
        Some(
            base_url_outcome(
                NO_NAME@,
                None,
                config_host(attack.configuration),
                option_text(attack.defaults.host),
            ),
        )
    } else {
        None
    }
}

/// The base URL of a user that runs a single task for the whole load
/// test.
pub fn single_base_url(attack: &GooseAttack) -> (r: Result<String, GooseError>)
    ensures
        match r {
            Ok(url) => base_url_outcome(
                NO_NAME@,
                None,
                config_host(attack.configuration),
                option_text(attack.defaults.host),
            ) == Ok::<Seq<char>, ErrorView>(url@),
            Err(e) => base_url_outcome(
                NO_NAME@,
                None,
                config_host(attack.configuration),
                option_text(attack.defaults.host),
            ) == Err::<Seq<char>, ErrorView>(e@),
        },
{
    let host_option = attack.get_configuration_host();
    let none: Option<String> = None;
    get_base_url(NO_NAME, &none, &host_option, &attack.defaults.host)
}

impl AttackRun {
    /// A load test that is ready, before anything is started.
    pub fn new(attack: GooseAttack) -> (r: AttackRun)
        ensures
            r.attack == attack,
            r.phase == AttackPhase::Validated,
            !r.users_launched,
    {
        AttackRun { attack, phase: AttackPhase::Validated, users_launched: false }
    }

    /// Starts the load test: says what is to be set up before the first
    /// user is launched, and goes on to launching. Where a task is to run
    /// before the load test and no host is there for it, nothing is
    /// started. A load test that was started before is left as it is.
    pub fn start(&mut self) -> (r: Result<StartPlan, GooseError>)
        ensures
            old(self).phase != AttackPhase::Validated ==> *final(self) == *old(self) && (r matches Ok(
                plan,
            ) && plan.test_start_base_url is None && plan.debug_file is None && plan.throttle
                is None),
            old(self).phase == AttackPhase::Validated ==> match r {
                Err(e) => start_base_url(old(self).attack) == Some(Err::<Seq<char>, ErrorView>(e@))
                    && *final(self) == *old(self),
                Ok(plan) => {
                    &&& match plan.test_start_base_url {
                        Some(url) => start_base_url(old(self).attack) == Some(
                            Ok::<Seq<char>, ErrorView>(url@),
                        ),
                        None => start_base_url(old(self).attack) is None,
                    }
                    &&& option_text(plan.debug_file) == debug_file_path(
                        old(self).attack.configuration,
                        old(self).attack.defaults,
                        old(self).attack.attack_mode,
                    )
                    &&& plan.throttle == spec_throttle_plan(old(self).attack.throttle_requests)
                    &&& final(self).phase == AttackPhase::Hatching
                    &&& final(self).users_launched == old(self).users_launched
                    &&& final(self).attack == (GooseAttack {
                        configuration: crate::config::GooseConfiguration {
                            debug_file: final(self).attack.configuration.debug_file,
                            ..old(self).attack.configuration
                        },
                        ..old(self).attack
                    })
                    &&& final(self).attack.configuration.debug_file@ == match plan.debug_file {
                        Some(file) => file@,
                        None => Seq::<char>::empty(),
                    }
                },
            },
    {
        if self.phase != AttackPhase::Validated {
            return Ok(StartPlan { test_start_base_url: None, debug_file: None, throttle: None });
        }
        let test_start_base_url: Option<String> = if self.attack.attack_mode != GooseMode::Worker
            && self.attack.test_start_task.is_some() {
            match single_base_url(&self.attack) {
                Ok(url) => Some(url),
                Err(e) => {
                    return Err(e);
                },
            }
        } else {
            None
        };
        let debug_file: Option<String> = match resolve_debug_file(
            &self.attack.configuration,
            &self.attack.defaults,
            self.attack.attack_mode,
        ) {
            Some(path) => Some(String::from_str(path)),
            None => None,
        };
        let throttle = throttle_plan(self.attack.throttle_requests);
        self.attack.configuration.debug_file = match &debug_file {
            Some(file) => file.clone(),
            None => String::new(),
        };
        self.phase = AttackPhase::Hatching;
        Ok(StartPlan { test_start_base_url, debug_file, throttle })
    }

    /// Whether another user is launched after `elapsed` seconds: the load
    /// test is launching, not all users are launched, and the run time is
    /// not up.
    pub open spec fn launches(&self, elapsed: u64) -> bool {
        self.phase == AttackPhase::Hatching && self.attack.metrics.users
            < self.attack.weighted_users@.len() && !spec_timer_expired(
            elapsed,
            self.attack.run_time,
        )
    }

    /// Launches the next user, `elapsed` seconds after the start: hands
    /// out the user with its plans and counts it. When all users are
    /// launched, or the run time is up, launching is over: the task
    /// metrics are started and status codes are displayed if they are
    /// tracked. In any other phase nothing happens.
    pub fn hatch(&mut self, elapsed: u64) -> (r: Option<GooseUser>)
        ensures
            final(self).users_launched == old(self).users_launched,
            match r {
                Some(user) => {
                    &&& old(self).launches(elapsed)
                    &&& user_launched(
                        old(self).attack.weighted_users@[old(self).attack.metrics.users as int],
                        old(self).attack.task_sets@,
                        old(self).attack.metrics.users,
                        user,
                    )
                    &&& final(self).phase == AttackPhase::Hatching
                    &&& final(self).attack == with_metrics(
                        old(self).attack,
                        GooseMetrics {
                            users: (old(self).attack.metrics.users + 1) as usize,
                            ..old(self).attack.metrics
                        },
                    )
                },
                None => {
                    &&& !old(self).launches(elapsed)
                    &&& if old(self).phase == AttackPhase::Hatching {
                        &&& final(self).phase == AttackPhase::Steady
                        &&& final(self).attack == with_metrics(
                            old(self).attack,
                            GooseMetrics {
                                display_status_codes: old(self).attack.configuration.status_codes,
                                tasks: final(self).attack.metrics.tasks,
                                ..old(self).attack.metrics
                            },
                        )
                        &&& task_metrics_fresh(
                            final(self).attack.metrics.tasks@,
                            old(self).attack.task_sets@,
                            old(self).attack.configuration,
                        )
                    } else {
                        *final(self) == *old(self)
                    }
                },
            },
    {
        if self.phase != AttackPhase::Hatching {
            return None;
        }
        let position = self.attack.metrics.users;
        if position < self.attack.weighted_users.len() && !timer_expired(
            elapsed,
            self.attack.run_time,
        ) {
            let user = launch_user(
                &self.attack.weighted_users[position],
                &self.attack.task_sets,
                position,
            );
            self.attack.metrics.users = position + 1;
            Some(user)
        } else {
            self.attack.metrics.display_status_codes = self.attack.configuration.status_codes;
            self.attack.metrics.initialize_task_metrics(
                self.attack.task_sets.as_slice(),
                &self.attack.configuration,
            );
            self.phase = AttackPhase::Steady;
            None
        }
    }

    /// Takes in what a user reports, unless metrics are switched off.
    pub fn receive(&mut self, metric: &GooseMetric)
        ensures
            final(self).phase == old(self).phase,
            final(self).users_launched == old(self).users_launched,
            final(self).attack == with_metrics(old(self).attack, final(self).attack.metrics),
            old(self).attack.configuration.no_metrics ==> final(self).attack.metrics == old(
                self,
            ).attack.metrics,
            !old(self).attack.configuration.no_metrics ==> match *metric {
                GooseMetric::Request(raw) => requests_recorded(
                    old(self).attack.metrics.requests@,
                    final(self).attack.metrics.requests@,
                    raw,
                    old(self).attack.configuration.status_codes,
                ) && final(self).attack.metrics == (GooseMetrics {
                    requests: final(self).attack.metrics.requests,
                    ..old(self).attack.metrics
                }),
                GooseMetric::Task(raw) => tasks_recorded(
                    old(self).attack.metrics.tasks@,
                    final(self).attack.metrics.tasks@,
                    raw,
                ) && final(self).attack.metrics == (GooseMetrics {
                    tasks: final(self).attack.metrics.tasks,
                    ..old(self).attack.metrics
                }),
            },
            old(self).attack.metrics.wf() ==> final(self).attack.metrics.wf(),
    {
        if !self.attack.configuration.no_metrics {
            self.attack.metrics.record(metric, self.attack.configuration.status_codes);
        }
    }
}

/// What is printed when the end of launching is announced: where the
/// metrics are started anew, that they are, if metrics are displayed;
/// else that the users are launched. What was measured while the users
/// were launched is not displayed.
pub open spec fn announced_text(run: AttackRun) -> Seq<char> {
    if run.attack.configuration.no_metrics || run.users_launched {
        Seq::empty()
    } else if resets_metrics(run) {
        if run.attack.metrics.display_metrics {
            hatched_text(run.attack.metrics.users, run.attack.users, true)
        } else {
            Seq::empty()
        }
    } else {
        hatched_text(run.attack.metrics.users, run.attack.users, false)
    }
}

/// The metrics after the end of launching was announced: where the
/// metrics are started anew, the requests are forgotten and the task
/// metrics are fresh; all else is as it was.
pub open spec fn announced_metrics(run: AttackRun, after: GooseMetrics) -> bool {
    if resets_metrics(run) {
        &&& after == (GooseMetrics {
            requests: after.requests,
            tasks: after.tasks,
            ..run.attack.metrics
        })
        &&& after.requests@.len() == 0
        &&& task_metrics_fresh(after.tasks@, run.attack.task_sets@, run.attack.configuration)
        &&& tasks_consistent(after.tasks@)
    } else {
        after == run.attack.metrics
    }
}

/// What is printed for the running metrics at the end of a tick: the
/// metrics as they are after the end of launching was announced, where
/// they are due and the users are not told to stop.
pub open spec fn running_text(run: AttackRun, clock: TickClock, after: GooseMetrics) -> Seq<char> {
    if !drains(run, clock) && running_metrics_due(run.attack, clock) {
        running_report(
            after,
            if resets_metrics(run) {
                0
            } else {
                spec_seconds(clock.elapsed)
            },
        )
    } else {
        Seq::empty()
    }
}

impl AttackRun {
    /// Announces the end of launching at the first tick after it, and
    /// starts the metrics anew unless that is switched off.
    pub fn announce(&mut self) -> (r: String)
        ensures
            final(self).phase == old(self).phase,
            final(self).users_launched == (old(self).users_launched
                || !old(self).attack.configuration.no_metrics),
            final(self).attack == with_metrics(old(self).attack, final(self).attack.metrics),
            announced_metrics(*old(self), final(self).attack.metrics),
            r@ == announced_text(*old(self)),
    {
        if self.attack.configuration.no_metrics || self.users_launched {
            return String::new();
        }
        self.users_launched = true;
        let no_reset = match self.attack.no_reset_metrics() {
            Ok(value) => value,
            Err(_) => true,
        };
        if !no_reset {
            let out = if self.attack.metrics.display_metrics {
                hatched_message(self.attack.metrics.users, self.attack.users, true)
            } else {
                String::new()
            };
            self.attack.metrics.reset_requests();
            self.attack.metrics.initialize_task_metrics(
                self.attack.task_sets.as_slice(),
                &self.attack.configuration,
            );
            out
        } else {
            hatched_message(self.attack.metrics.users, self.attack.users, false)
        }
    }

    /// A tick of a running load test, after what the users reported was
    /// taken in. At the first tick the end of launching is announced, and
    /// the metrics and the clock are started anew unless that is switched
    /// off; what was measured until then is forgotten and not displayed.
    /// The users are told to stop when the load test was interrupted
    /// or its run time is up; a load test without a run time runs until it
    /// is interrupted. Otherwise the running metrics are displayed when
    /// they are due. In any other phase nothing happens.
    pub fn tick(&mut self, clock: TickClock) -> (r: TickOutcome)
        ensures
            old(self).phase != AttackPhase::Steady ==> *final(self) == *old(self)
                && !r.restart_metrics_timer && !r.restart_clock && !r.drain && r.printed@
                == Seq::<char>::empty(),
            old(self).phase == AttackPhase::Steady ==> {
                &&& r.restart_metrics_timer == running_metrics_due(old(self).attack, clock)
                &&& r.restart_clock == resets_metrics(*old(self))
                &&& r.drain == drains(*old(self), clock)
                &&& final(self).phase == if r.drain {
                    AttackPhase::Draining
                } else {
                    AttackPhase::Steady
                }
                &&& final(self).users_launched == (old(self).users_launched
                    || !old(self).attack.configuration.no_metrics)
                &&& final(self).attack == with_metrics(old(self).attack, final(self).attack.metrics)
                &&& exists|middle: GooseMetrics|
                    {
                        &&& announced_metrics(*old(self), middle)
                        &&& final(self).attack.metrics == if !r.drain && r.restart_metrics_timer {
                            GooseMetrics {
                                duration: if r.restart_clock {
                                    0
                                } else {
                                    spec_seconds(clock.elapsed)
                                },
                                ..middle
                            }
                        } else {
                            middle
                        }
                        &&& r.printed@ == announced_text(*old(self)) + running_text(
                            *old(self),
                            clock,
                            middle,
                        )
                    }
            },
    {
        if self.phase != AttackPhase::Steady {
            return TickOutcome {
                restart_metrics_timer: false,
                restart_clock: false,
                printed: String::new(),
                drain: false,
            };
        }
        let due = !self.attack.configuration.no_metrics && !self.attack.configuration.only_summary
            && self.attack.attack_mode != GooseMode::Worker && timer_expired(
            clock.since_running_metrics,
            RUNNING_METRICS_EVERY,
        );
        let no_reset = match self.attack.no_reset_metrics() {
            Ok(value) => value,
            Err(_) => true,
        };
        let restart_clock = !self.attack.configuration.no_metrics && !self.users_launched
            && !no_reset;
        let mut printed = self.announce();
        let ghost first = printed@;
        let ghost middle = self.attack.metrics;
        let elapsed: u64 = if restart_clock {
            0
        } else {
            clock.elapsed
        };
        let drain = clock.canceled || timer_expired(elapsed, self.attack.run_time);
        if drain {
            self.phase = AttackPhase::Draining;
        } else if due {
            let report = self.attack.metrics.print_running_text(seconds(elapsed));
            printed.append(report.as_str());
        }
        proof {
            assert(announced_metrics(*old(self), middle));
            assert(printed@ =~= first + running_text(*old(self), clock, middle));
        }
        TickOutcome { restart_metrics_timer: due, restart_clock, printed, drain }
    }

    /// Ends the load test when all users have stopped, `elapsed` seconds
    /// after its clock was started: the duration is set, percentiles are
    /// displayed from now on, and what is left to do is said. Where a task
    /// is to run after the load test and no host is there for it, the load
    /// test stays as it is. In any other phase nothing happens.
    pub fn finish(&mut self, elapsed: u64) -> (r: Result<Option<FinishPlan>, GooseError>)
        ensures
            old(self).phase != AttackPhase::Draining ==> *final(self) == *old(self) && r
                == Ok::<Option<FinishPlan>, GooseError>(None),
            old(self).phase == AttackPhase::Draining ==> match r {
                Err(e) => stop_base_url(old(self).attack) == Some(Err::<Seq<char>, ErrorView>(e@))
                    && *final(self) == *old(self),
                Ok(plan) => {
                    &&& !(stop_base_url(old(self).attack) matches Some(Err(_)))
                    &&& plan == Some(
                        FinishPlan {
                            run_test_stop: stop_base_url(old(self).attack) is Some,
                            flush_metrics_file: metrics_file_path(
                                old(self).attack.configuration,
                                old(self).attack.defaults,
                                old(self).attack.attack_mode,
                            ) is Some,
                            flush_debug_file: debug_file_path(
                                old(self).attack.configuration,
                                old(self).attack.defaults,
                                old(self).attack.attack_mode,
                            ) is Some,
                        },
                    )
                    &&& final(self).phase == AttackPhase::Reporting
                    &&& final(self).users_launched == old(self).users_launched
                    &&& final(self).attack == with_metrics(
                        old(self).attack,
                        GooseMetrics {
                            duration: spec_seconds(elapsed),
                            display_percentile: true,
                            ..old(self).attack.metrics
                        },
                    )
                },
            },
    {
        if self.phase != AttackPhase::Draining {
            return Ok(None);
        }
        let run_test_stop = self.attack.attack_mode != GooseMode::Worker
            && self.attack.test_stop_task.is_some();
        if run_test_stop {
            match single_base_url(&self.attack) {
                Ok(_) => {},
                Err(e) => {
                    return Err(e);
                },
            }
        }
        let flush_metrics_file = resolve_metrics_file(
            &self.attack.configuration,
            &self.attack.defaults,
            self.attack.attack_mode,
        ).is_some();
        let flush_debug_file = resolve_debug_file(
            &self.attack.configuration,
            &self.attack.defaults,
            self.attack.attack_mode,
        ).is_some();
        self.attack.metrics.duration = seconds(elapsed);
        self.attack.metrics.display_percentile = true;
        self.phase = AttackPhase::Reporting;
        Ok(Some(FinishPlan { run_test_stop, flush_metrics_file, flush_debug_file }))
    }
}

/// A load test without a run time runs until it is interrupted: at no
/// tick are its users told to stop unless it was interrupted, however
/// long it has been running.
pub proof fn lemma_runs_until_interrupted(run: AttackRun, clock: TickClock)
    requires
        run.attack.run_time == 0,
    ensures
        drains(run, clock) == clock.canceled,
{
}

/// No running metrics are displayed before they are due: at a tick less
/// than fifteen seconds after they were last displayed, or after the load
/// test began, nothing is printed but what is said about the end of
/// launching, and nothing at all once that was said. A load test that is
/// shorter than that displays no running metrics, whatever they hold.
pub proof fn lemma_quiet_until_metrics_are_due(run: AttackRun, clock: TickClock, after: GooseMetrics)
    requires
        clock.since_running_metrics < RUNNING_METRICS_EVERY,
    ensures
        !running_metrics_due(run.attack, clock),
        announced_text(run) + running_text(run, clock, after) == announced_text(run),
        run.users_launched ==> announced_text(run) + running_text(run, clock, after) == Seq::<
            char,
        >::empty(),
{
    assert(announced_text(run) + Seq::<char>::empty() =~= announced_text(run));
}

/// A load test with a run time is stopped at the first tick at which the
/// run time is up, unless its clock is started anew at that tick.
pub proof fn lemma_stops_when_time_is_up(run: AttackRun, clock: TickClock)
    requires
        run.attack.run_time > 0,
        clock.elapsed >= run.attack.run_time,
        !resets_metrics(run),
    ensures
        drains(run, clock),
{
}

} // verus!
