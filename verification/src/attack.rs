//! The state of a load test.

use crate::config::{GooseConfiguration, GooseDefaults, GooseMode};
use crate::error::{ErrorView, GooseError};
use crate::goose::{GooseTask, GooseTaskSet, GooseUser};
use crate::metrics::GooseMetrics;
use crate::options::{
    attack_mode_outcome, debug_file_path, debug_format_outcome, expect_workers_outcome,
    gaggle_outcome, hatch_rate_outcome, metrics_file_path, metrics_format_outcome,
    resolve_debug_file, resolve_debug_format, resolve_expect_workers, resolve_gaggle,
    resolve_hatch_rate, resolve_metrics_file, resolve_metrics_format, resolve_mode,
    resolve_run_time, resolve_throttle, resolve_users, run_time_outcome, setup_outcome,
    spec_no_hash_check, spec_no_reset_metrics, throttle_outcome, users_outcome, GaggleAddresses,
    NO_METRICS_WITH_METRICS_FILE, NO_METRICS_WITH_ONLY_SUMMARY, NO_METRICS_WITH_STATUS_CODES,
    OPTION_NO_METRICS, TRUE_TEXT,
};
use vstd::prelude::*;

verus! {

/// The state of a load test.
#[derive(Clone, Debug)]
pub struct GooseAttack {
    /// An optional task to run one time before starting users and running
    /// task sets.
    pub test_start_task: Option<GooseTask>,
    /// An optional task to run one time after users have finished running
    /// task sets.
    pub test_stop_task: Option<GooseTask>,
    /// One copy of each task set that will run during this load test.
    pub task_sets: Vec<GooseTaskSet>,
    /// The state of each user that will run during this load test, in the
    /// order in which they are launched.
    pub weighted_users: Vec<GooseUser>,
    /// Optional defaults for the options that the command line leaves out.
    pub defaults: GooseDefaults,
    /// The options as given on the command line.
    pub configuration: GooseConfiguration,
    /// By default launch 1 user per number of CPUs.
    pub number_of_cpus: usize,
    /// How long the load test should run, in seconds; zero to run until it
    /// is interrupted.
    pub run_time: usize,
    /// Total number of users to run for this load test.
    pub users: usize,
    /// How many users to launch each second.
    pub hatch_rate: usize,
    /// Maximum requests per second; zero for no limit.
    pub throttle_requests: usize,
    /// Which mode this load test is operating in.
    pub attack_mode: GooseMode,
    /// All metrics merged together.
    pub metrics: GooseMetrics,
}

/// `num_cpus::get`: the number of logical CPUs that the process can use.
/// It is a matter of the machine, so nothing is said of it.
#[verifier::external_body]
fn cpu_count() -> (r: usize) {
    num_cpus::get()
}

/// How much is written to a log.
#[derive(Clone, Copy, Debug, PartialEq, Eq, Structural)]
pub enum LogLevel {
    /// Warnings and errors.
    Warn,
    /// What goes on, in outline.
    Info,
    /// What goes on, in detail.
    Debug,
    /// Everything.
    Trace,
}

/// The level that a number of `-v` or `-g` flags asks for.
pub open spec fn spec_log_level(count: u8) -> LogLevel {
    if count == 0 {
        LogLevel::Warn
    } else if count == 1 {
        LogLevel::Info
    } else if count == 2 {
        LogLevel::Debug
    } else {
        LogLevel::Trace
    }
}

/// The level that a number of `-v` or `-g` flags asks for.
pub fn log_level(count: u8) -> (r: LogLevel)
    ensures
        r == spec_log_level(count),
{
    if count == 0 {
        LogLevel::Warn
    } else if count == 1 {
        LogLevel::Info
    } else if count == 2 {
        LogLevel::Debug
    } else {
        LogLevel::Trace
    }
}

/// What the logger is set up with.
pub struct LoggerPlan {
    /// The level of what is written to the terminal.
    pub debug_level: LogLevel,
    /// The level of what is written to the log file.
    pub log_level: LogLevel,
    /// The name of the log file, where there is one.
    pub log_file: Option<String>,
}

/// The number of `-g` flags, or the default where none was given.
pub open spec fn log_level_count(cfg: GooseConfiguration, defaults: GooseDefaults) -> u8 {
    if cfg.log_level > 0 {
        cfg.log_level
    } else {
        match defaults.log_level {
            Some(value) => value,
            None => 0,
        }
    }
}

/// The name of the log file: the `--log-file` option, else the default,
/// else none.
pub open spec fn log_file_path(cfg: GooseConfiguration, defaults: GooseDefaults) -> Option<
    Seq<char>,
> {
    if cfg.log_file@.len() > 0 {
        Some(cfg.log_file@)
    } else {
        match defaults.log_file {
            Some(file) => Some(file@),
            None => None,
        }
    }
}

/// A load test before anything is set: it has the given options, no task
/// sets, no users, no defaults, no mode, empty metrics, and every number
/// at zero.
pub open spec fn is_fresh(attack: GooseAttack, config: GooseConfiguration) -> bool {
    &&& attack.configuration == config
    &&& attack.test_start_task is None
    &&& attack.test_stop_task is None
    &&& attack.task_sets@.len() == 0
    &&& attack.weighted_users@.len() == 0
    &&& attack.run_time == 0
    &&& attack.users == 0
    &&& attack.hatch_rate == 0
    &&& attack.throttle_requests == 0
    &&& attack.attack_mode == GooseMode::Undefined
    &&& attack.metrics.requests@.len() == 0
    &&& attack.metrics.tasks@.len() == 0
    &&& attack.metrics.hash == 0
    &&& attack.metrics.duration == 0
    &&& attack.metrics.users == 0
    &&& !attack.metrics.display_percentile
    &&& !attack.metrics.display_status_codes
    &&& !attack.metrics.display_metrics
    &&& attack.defaults == no_defaults()
}

impl GooseAttack {
    /// A load test with the given options, on a machine with the given
    /// number of CPUs, before anything else is set.
    pub fn with_cpus(config: GooseConfiguration, number_of_cpus: usize) -> (r: GooseAttack)
        ensures
            is_fresh(r, config),
            r.number_of_cpus == number_of_cpus,
    {
        GooseAttack {
            test_start_task: None,
            test_stop_task: None,
            task_sets: Vec::new(),
            weighted_users: Vec::new(),
            defaults: GooseDefaults {
                host: None,
                users: None,
                hatch_rate: None,
                run_time: None,
                log_level: None,
                log_file: None,
                verbose: None,
                only_summary: None,
                no_reset_metrics: None,
                no_metrics: None,
                no_task_metrics: None,
                metrics_file: None,
                metrics_format: None,
                debug_file: None,
                debug_format: None,
                status_codes: None,
                throttle_requests: None,
                sticky_follow: None,
                manager: None,
                expect_workers: None,
                no_hash_check: None,
                manager_bind_host: None,
                manager_bind_port: None,
                worker: None,
                manager_host: None,
                manager_port: None,
            },
            configuration: config,
            number_of_cpus,
            run_time: 0,
            users: 0,
            hatch_rate: 0,
            throttle_requests: 0,
            attack_mode: GooseMode::Undefined,
            metrics: GooseMetrics {
                hash: 0,
                duration: 0,
                users: 0,
                requests: Vec::new(),
                tasks: Vec::new(),
                display_percentile: false,
                display_status_codes: false,
                display_metrics: false,
            },
        }
    }

    /// Initialize a load test with an already loaded configuration, for
    /// as many CPUs as this machine has.
    pub fn initialize_with_config(config: GooseConfiguration) -> (r: GooseAttack)
        ensures
            is_fresh(r, config),
    {
        let number_of_cpus = cpu_count();
        GooseAttack::with_cpus(config, number_of_cpus)
    }

    /// What the logger is set up with: the level for the terminal by the
    /// `-v` flags, the level for the log file by the `-g` flags or the
    /// default, and the log file by the `--log-file` option or the
    /// default.
    pub fn logger_plan(&self) -> (r: LoggerPlan)
        ensures
            r.debug_level == spec_log_level(self.configuration.verbose),
            r.log_level == spec_log_level(log_level_count(self.configuration, self.defaults)),
            crate::hosts::option_text(r.log_file) == log_file_path(
                self.configuration,
                self.defaults,
            ),
    {
        let debug_level = log_level(self.configuration.verbose);
        let count: u8 = if self.configuration.log_level > 0 {
            self.configuration.log_level
        } else {
            match self.defaults.log_level {
                Some(value) => value,
                None => 0,
            }
        };
        let log_file: Option<String> = if !self.configuration.log_file.as_str().is_empty() {
            Some(self.configuration.log_file.clone())
        } else {
            match &self.defaults.log_file {
                Some(file) => Some(file.clone()),
                None => None,
            }
        };
        LoggerPlan { debug_level, log_level: log_level(count), log_file }
    }

    /// Checks the `--no-metrics` flag against the options that need
    /// metrics, and hands the load test back if they agree.
    pub fn setup(self) -> (r: Result<GooseAttack, GooseError>)
        ensures
            match r {
                Ok(attack) => setup_outcome(self.configuration) is None && attack == self,
                Err(e) => setup_outcome(self.configuration) == Some(e@),
            },
    {
        if self.configuration.no_metrics {
            if self.configuration.status_codes {
                return Err(
                    GooseError::option_error(
                        OPTION_NO_METRICS,
                        TRUE_TEXT,
                        NO_METRICS_WITH_STATUS_CODES,
                    ),
                );
            }
            if self.configuration.only_summary {
                return Err(
                    GooseError::option_error(
                        OPTION_NO_METRICS,
                        TRUE_TEXT,
                        NO_METRICS_WITH_ONLY_SUMMARY,
                    ),
                );
            }
            if !self.configuration.metrics_file.as_str().is_empty() {
                return Err(
                    GooseError::option_error(
                        OPTION_NO_METRICS,
                        TRUE_TEXT,
                        NO_METRICS_WITH_METRICS_FILE,
                    ),
                );
            }
        }
        Ok(self)
    }

    /// A load test must contain one or more task sets. Each task set is
    /// registered with this method, which gives it its position.
    pub fn register_taskset(self, taskset: GooseTaskSet) -> (r: GooseAttack)
        ensures
            r.task_sets@ == self.task_sets@.push(
                GooseTaskSet { task_sets_index: self.task_sets@.len() as usize, ..taskset },
            ),
            r == (GooseAttack { task_sets: r.task_sets, ..self }),
    {
        let mut attack = self;
        let mut taskset = taskset;
        taskset.task_sets_index = attack.task_sets.len();
        attack.task_sets.push(taskset);
        attack
    }

    /// Optionally define a task to run before users are started and all
    /// task sets start running.
    pub fn test_start(self, task: GooseTask) -> (r: GooseAttack)
        ensures
            r == (GooseAttack { test_start_task: Some(task), ..self }),
    {
        let mut attack = self;
        attack.test_start_task = Some(task);
        attack
    }

    /// Optionally define a task to run after all users have finished
    /// running all defined task sets.
    pub fn test_stop(self, task: GooseTask) -> (r: GooseAttack)
        ensures
            r == (GooseAttack { test_stop_task: Some(task), ..self }),
    {
        let mut attack = self;
        attack.test_stop_task = Some(task);
        attack
    }

    /// Configure which mode this load test will run in.
    pub fn set_attack_mode(&mut self) -> (r: Result<(), GooseError>)
        ensures
            match r {
                Ok(()) => attack_mode_outcome(
                    old(self).configuration,
                    old(self).defaults,
                    old(self).attack_mode,
                ) == Ok::<GooseMode, ErrorView>(final(self).attack_mode) && *final(self) == (
                GooseAttack { attack_mode: final(self).attack_mode, ..*old(self) }),
                Err(e) => attack_mode_outcome(
                    old(self).configuration,
                    old(self).defaults,
                    old(self).attack_mode,
                ) == Err::<GooseMode, ErrorView>(e@) && *final(self) == *old(self),
            },
    {
        match resolve_mode(&self.configuration, &self.defaults, self.attack_mode) {
            Ok(mode) => {
                self.attack_mode = mode;
                Ok(())
            },
            Err(e) => Err(e),
        }
    }

    /// Configure how many users to launch.
    pub fn set_users(&mut self) -> (r: Result<(), GooseError>)
        ensures
            match r {
                Ok(()) => users_outcome(
                    old(self).configuration,
                    old(self).defaults,
                    old(self).attack_mode,
                    old(self).number_of_cpus,
                    old(self).users,
                ) == Ok::<usize, ErrorView>(final(self).users) && *final(self) == (GooseAttack {
                    users: final(self).users,
                    ..*old(self)
                }),
                Err(e) => users_outcome(
                    old(self).configuration,
                    old(self).defaults,
                    old(self).attack_mode,
                    old(self).number_of_cpus,
                    old(self).users,
                ) == Err::<usize, ErrorView>(e@) && *final(self) == *old(self),
            },
    {
        match resolve_users(
            &self.configuration,
            &self.defaults,
            self.attack_mode,
            self.number_of_cpus,
            self.users,
        ) {
            Ok(users) => {
                self.users = users;
                Ok(())
            },
            Err(e) => Err(e),
        }
    }

    /// Determine how many workers to expect.
    pub fn set_expect_workers(&mut self) -> (r: Result<(), GooseError>)
        ensures
            match r {
                Ok(()) => expect_workers_outcome(
                    old(self).configuration,
                    old(self).defaults,
                    old(self).attack_mode,
                    old(self).users,
                ) == Ok::<u16, ErrorView>(final(self).configuration.expect_workers) && *final(self)
                    == (GooseAttack {
                    configuration: GooseConfiguration {
                        expect_workers: final(self).configuration.expect_workers,
                        ..old(self).configuration
                    },
                    ..*old(self)
                }),
                Err(e) => expect_workers_outcome(
                    old(self).configuration,
                    old(self).defaults,
                    old(self).attack_mode,
                    old(self).users,
                ) == Err::<u16, ErrorView>(e@) && *final(self) == *old(self),
            },
    {
        match resolve_expect_workers(
            &self.configuration,
            &self.defaults,
            self.attack_mode,
            self.users,
        ) {
            Ok(expect_workers) => {
                self.configuration.expect_workers = expect_workers;
                Ok(())
            },
            Err(e) => Err(e),
        }
    }

    /// The addresses of the load test, as far as the options give them.
    pub open spec fn addresses(&self) -> GaggleAddresses {
        GaggleAddresses {
            manager_bind_host: self.configuration.manager_bind_host@,
            manager_bind_port: self.configuration.manager_bind_port,
            manager_host: self.configuration.manager_host@,
            manager_port: self.configuration.manager_port,
        }
    }

    /// Configure where the processes of a distributed load test meet.
    pub fn set_gaggle_host_and_port(&mut self) -> (r: Result<(), GooseError>)
        ensures
            match r {
                Ok(()) => gaggle_outcome(
                    old(self).configuration,
                    old(self).defaults,
                    old(self).attack_mode,
                ) == Ok::<GaggleAddresses, ErrorView>(final(self).addresses()) && *final(self) == (
                GooseAttack {
                    configuration: GooseConfiguration {
                        manager_bind_host: final(self).configuration.manager_bind_host,
                        manager_bind_port: final(self).configuration.manager_bind_port,
                        manager_host: final(self).configuration.manager_host,
                        manager_port: final(self).configuration.manager_port,
                        ..old(self).configuration
                    },
                    ..*old(self)
                }),
                Err(e) => gaggle_outcome(
                    old(self).configuration,
                    old(self).defaults,
                    old(self).attack_mode,
                ) == Err::<GaggleAddresses, ErrorView>(e@) && *final(self) == *old(self),
            },
    {
        match resolve_gaggle(&self.configuration, &self.defaults, self.attack_mode) {
            Ok(found) => {
                let (bind_host, bind_port, host, port) = found;
                self.configuration.manager_bind_host = bind_host;
                self.configuration.manager_bind_port = bind_port;
                self.configuration.manager_host = host;
                self.configuration.manager_port = port;
                Ok(())
            },
            Err(e) => Err(e),
        }
    }

    /// Configure maximum run time if specified, otherwise run until
    /// canceled.
    pub fn set_run_time(&mut self) -> (r: Result<(), GooseError>)
        ensures
            match r {
                Ok(()) => run_time_outcome(
                    old(self).configuration,
                    old(self).defaults,
                    old(self).attack_mode,
                ) == Ok::<usize, ErrorView>(final(self).run_time) && *final(self) == (GooseAttack {
                    run_time: final(self).run_time,
                    ..*old(self)
                }),
                Err(e) => run_time_outcome(
                    old(self).configuration,
                    old(self).defaults,
                    old(self).attack_mode,
                ) == Err::<usize, ErrorView>(e@) && *final(self) == *old(self),
            },
    {
        match resolve_run_time(&self.configuration, &self.defaults, self.attack_mode) {
            Ok(run_time) => {
                self.run_time = run_time;
                Ok(())
            },
            Err(e) => Err(e),
        }
    }

    /// Configure how quickly to launch users.
    pub fn set_hatch_rate(&mut self) -> (r: Result<(), GooseError>)
        ensures
            match r {
                Ok(()) => hatch_rate_outcome(
                    old(self).configuration,
                    old(self).defaults,
                    old(self).attack_mode,
                    old(self).hatch_rate,
                ) == Ok::<usize, ErrorView>(final(self).hatch_rate) && *final(self) == (GooseAttack {
                    hatch_rate: final(self).hatch_rate,
                    ..*old(self)
                }),
                Err(e) => hatch_rate_outcome(
                    old(self).configuration,
                    old(self).defaults,
                    old(self).attack_mode,
                    old(self).hatch_rate,
                ) == Err::<usize, ErrorView>(e@) && *final(self) == *old(self),
            },
    {
        match resolve_hatch_rate(
            &self.configuration,
            &self.defaults,
            self.attack_mode,
            self.hatch_rate,
        ) {
            Ok(hatch_rate) => {
                self.hatch_rate = hatch_rate;
                Ok(())
            },
            Err(e) => Err(e),
        }
    }

    /// Configure maximum requests per second if throttle enabled.
    pub fn set_throttle_requests(&mut self) -> (r: Result<(), GooseError>)
        ensures
            match r {
                Ok(()) => throttle_outcome(
                    old(self).configuration,
                    old(self).defaults,
                    old(self).attack_mode,
                ) == Ok::<usize, ErrorView>(final(self).throttle_requests) && *final(self) == (
                GooseAttack { throttle_requests: final(self).throttle_requests, ..*old(self) }),
                Err(e) => throttle_outcome(
                    old(self).configuration,
                    old(self).defaults,
                    old(self).attack_mode,
                ) == Err::<usize, ErrorView>(e@) && *final(self) == *old(self),
            },
    {
        match resolve_throttle(&self.configuration, &self.defaults, self.attack_mode) {
            Ok(throttle_requests) => {
                self.throttle_requests = throttle_requests;
                Ok(())
            },
            Err(e) => Err(e),
        }
    }

    /// Determine if the metrics stay as they are once all users are
    /// launched.
    pub fn no_reset_metrics(&self) -> (r: Result<bool, GooseError>)
        ensures
            r matches Ok(b) && b == spec_no_reset_metrics(
                self.configuration,
                self.defaults,
                self.attack_mode,
            ),
    {
        let no_reset_metrics = if self.configuration.no_reset_metrics {
            true
        } else {
            match self.defaults.no_reset_metrics {
                Some(default) => {
                    if self.attack_mode == GooseMode::Worker {
                        false
                    } else {
                        default
                    }
                },
                None => false,
            }
        };
        Ok(no_reset_metrics)
    }

    /// Determine if a Manager takes Workers that run another load test.
    pub fn no_hash_check(&self) -> (r: bool)
        ensures
            r == spec_no_hash_check(self.configuration, self.defaults, self.attack_mode),
    {
        if self.configuration.no_hash_check {
            true
        } else {
            match self.defaults.no_hash_check {
                Some(default) => {
                    if self.attack_mode == GooseMode::Worker {
                        false
                    } else {
                        default
                    }
                },
                None => false,
            }
        }
    }

    /// If enabled, returns the path of the metrics file, otherwise returns
    /// None.
    pub fn get_metrics_file_path(&self) -> (r: Result<Option<&str>, GooseError>)
        ensures
            r matches Ok(path) && match path {
                Some(p) => metrics_file_path(self.configuration, self.defaults, self.attack_mode)
                    == Some(p@),
                None => metrics_file_path(self.configuration, self.defaults, self.attack_mode)
                    is None,
            },
    {
        Ok(resolve_metrics_file(&self.configuration, &self.defaults, self.attack_mode))
    }

    /// If enabled, returns the path of the debug file, otherwise returns
    /// None.
    pub fn get_debug_file_path(&self) -> (r: Result<Option<&str>, GooseError>)
        ensures
            r matches Ok(path) && match path {
                Some(p) => debug_file_path(self.configuration, self.defaults, self.attack_mode)
                    == Some(p@),
                None => debug_file_path(self.configuration, self.defaults, self.attack_mode)
                    is None,
            },
    {
        Ok(resolve_debug_file(&self.configuration, &self.defaults, self.attack_mode))
    }

    /// Configure metrics log format.
    pub fn set_metrics_format(&mut self) -> (r: Result<(), GooseError>)
        ensures
            match r {
                Ok(()) => metrics_format_outcome(old(self).configuration, old(self).defaults)
                    == Ok::<Seq<char>, ErrorView>(final(self).configuration.metrics_format@)
                    && *final(self) == (GooseAttack {
                    configuration: GooseConfiguration {
                        metrics_format: final(self).configuration.metrics_format,
                        ..old(self).configuration
                    },
                    ..*old(self)
                }),
                Err(e) => metrics_format_outcome(old(self).configuration, old(self).defaults)
                    == Err::<Seq<char>, ErrorView>(e@) && *final(self) == *old(self),
            },
    {
        match resolve_metrics_format(&self.configuration, &self.defaults) {
            Ok(format) => {
                self.configuration.metrics_format = format;
                Ok(())
            },
            Err(e) => Err(e),
        }
    }

    /// Configure debug log format.
    pub fn set_debug_format(&mut self) -> (r: Result<(), GooseError>)
        ensures
            match r {
                Ok(()) => debug_format_outcome(old(self).configuration, old(self).defaults) == Ok::<
                    Seq<char>,
                    ErrorView,
                >(final(self).configuration.debug_format@) && *final(self) == (GooseAttack {
                    configuration: GooseConfiguration {
                        debug_format: final(self).configuration.debug_format,
                        ..old(self).configuration
                    },
                    ..*old(self)
                }),
                Err(e) => debug_format_outcome(old(self).configuration, old(self).defaults) == Err::<
                    Seq<char>,
                    ErrorView,
                >(e@) && *final(self) == *old(self),
            },
    {
        match resolve_debug_format(&self.configuration, &self.defaults) {
            Ok(format) => {
                self.configuration.debug_format = format;
                Ok(())
            },
            Err(e) => Err(e),
        }
    }

    /// Helper to wrap configured host in Option<> if set.
    pub fn get_configuration_host(&self) -> (r: Option<String>)
        ensures
            match r {
                Some(host) => self.configuration.host@.len() > 0 && host@
                    == self.configuration.host@,
                None => self.configuration.host@.len() == 0,
            },
    {
        if self.configuration.host.as_str().is_empty() {
            None
        } else {
            Some(self.configuration.host.clone())
        }
    }
}
/// No default is set.
pub open spec fn no_defaults() -> GooseDefaults {
    GooseDefaults {
        host: None,
        users: None,
        hatch_rate: None,
        run_time: None,
        log_level: None,
        log_file: None,
        verbose: None,
        only_summary: None,
        no_reset_metrics: None,
        no_metrics: None,
        no_task_metrics: None,
        metrics_file: None,
        metrics_format: None,
        debug_file: None,
        debug_format: None,
        status_codes: None,
        throttle_requests: None,
        sticky_follow: None,
        manager: None,
        expect_workers: None,
        no_hash_check: None,
        manager_bind_host: None,
        manager_bind_port: None,
        worker: None,
        manager_host: None,
        manager_port: None,
    }
}

} // verus!
