//! The rules that the options of a load test have to meet before the first
//! user is launched, and what the options come to.

use crate::config::{GooseConfiguration, GooseDefaults, GooseMode};
use crate::error::{invalid_option, ErrorView, GooseError};
use crate::text::{decimal_digits, decimal_string};
use crate::timespan::{parse_timespan, spec_parse_timespan};
use vstd::prelude::*;
use vstd::string::StringExecFns;

verus! {

pub const TRUE_TEXT: &'static str = "true";

pub const OPTION_NO_METRICS: &'static str = "--no-metrics";

pub const OPTION_WORKER: &'static str = "--worker";

pub const OPTION_MANAGER: &'static str = "--manager";

pub const OPTION_HOST: &'static str = "--host";

pub const OPTION_DEBUG_FILE: &'static str = "--debug-file";

pub const OPTION_NO_TASK_METRICS: &'static str = "--no-task-metrics";

pub const OPTION_ONLY_SUMMARY: &'static str = "--only-summary";

pub const OPTION_STATUS_CODES: &'static str = "--status-codes";

pub const OPTION_NO_RESET_METRICS: &'static str = "--no-reset-metrics";

pub const OPTION_NO_HASH_CHECK: &'static str = "--no-hash-check";

pub const OPTION_METRICS_FILE: &'static str = "--metrics-file";

pub const OPTION_METRICS_FORMAT: &'static str = "--metrics-format";

pub const OPTION_DEBUG_FORMAT: &'static str = "--debug-format";

pub const OPTION_EXPECT_WORKERS: &'static str = "--expect-workers";

pub const OPTION_MANAGER_BIND_HOST: &'static str = "--manager-bind-host";

pub const OPTION_MANAGER_BIND_PORT: &'static str = "--manager-bind-port";

pub const OPTION_MANAGER_HOST: &'static str = "--manager-host";

pub const OPTION_MANAGER_PORT: &'static str = "--manager-port";

pub const OPTION_USERS: &'static str = "--users";

pub const OPTION_RUN_TIME: &'static str = "--run-time";

pub const OPTION_HATCH_RATE: &'static str = "--hatch-rate";

pub const OPTION_THROTTLE_REQUESTS: &'static str = "--throttle-requests";

pub const DEFAULT_WORKER: &'static str = "GooseDefault::Worker";

pub const DEFAULT_THROTTLE_REQUESTS: &'static str = "GooseDefault::ThrottleRequests";

pub const NO_METRICS_WITH_STATUS_CODES: &'static str =
    "The --no-metrics flag can not be set together with the --status-codes flag.";

pub const NO_METRICS_WITH_ONLY_SUMMARY: &'static str =
    "The --no-metrics flag can not be set together with the --only-summary flag.";

pub const NO_METRICS_WITH_METRICS_FILE: &'static str =
    "The --no-metrics flag can not be set together with the --metrics-file option.";

pub const NO_METRICS_WITH_METRICS_FORMAT: &'static str =
    "The --no-metrics flag can not be set together with the --metrics-format option.";

pub const WORKER_DEFAULT_WITH_MANAGER_DEFAULT: &'static str =
    "The GooseDefault::Worker default can not be set together with the GooseDefault::Manager default";

pub const WORKER_WITH_MANAGER: &'static str =
    "The --worker flag can not be set together with the --manager flag";

pub const MANAGER_WITH_WORKER: &'static str =
    "The --manager flag can not be set together with the --worker flag.";

pub const DEBUG_FILE_WITH_MANAGER: &'static str =
    "The --debug-file option can not be set together with the --manager flag.";

pub const HOST_WITH_WORKER: &'static str =
    "The --host option can not be set together with the --worker flag.";

pub const NO_METRICS_WITH_WORKER: &'static str =
    "The --no-metrics flag can not be set together with the --worker flag.";

pub const NO_TASK_METRICS_WITH_WORKER: &'static str =
    "The --no-task-metrics flag can not be set together with the --worker flag.";

pub const ONLY_SUMMARY_WITH_WORKER: &'static str =
    "The --only-summary flag can not be set together with the --worker flag.";

pub const STATUS_CODES_WITH_WORKER: &'static str =
    "The --status-codes flag can not be set together with the --worker flag.";

pub const NO_RESET_METRICS_WITH_WORKER: &'static str =
    "The --no-reset-metrics flag can not be set together with the --worker flag.";

pub const NO_HASH_CHECK_WITH_WORKER: &'static str =
    "The --no-hash-check flag can not be set together with the --worker flag.";

pub const METRICS_FILE_WITH_WORKER: &'static str =
    "The --metrics-file option can not be set together with the --worker flag.";

pub const METRICS_FORMAT_WITH_WORKER: &'static str =
    "The --metrics-format option can not be set together with the --worker flag.";

pub const NO_HASH_CHECK_WITHOUT_MANAGER: &'static str =
    "The --no-hash-check flag can not be set without also setting the --manager flag.";

pub const EXPECT_WORKERS_WITHOUT_MANAGER: &'static str =
    "The --expect-workers flag can not be set without also setting the --manager flag.";

pub const EXPECT_WORKERS_TOO_FEW: &'static str =
    "The --expect-workers option must be set to at least 1.";

pub const EXPECT_WORKERS_TOO_MANY: &'static str =
    "The --expect-workers option can not be set to a value larger than --users option.";

pub const MANAGER_BIND_HOST_WITH_WORKER: &'static str =
    "The --manager-bind-host option can not be set together with the --worker flag.";

pub const MANAGER_BIND_PORT_WITH_WORKER: &'static str =
    "The --manager-bind-port option can not be set together with the --worker flag.";

pub const MANAGER_HOST_WITHOUT_WORKER: &'static str =
    "The --manager-host option must be set together with the --worker flag.";

pub const MANAGER_PORT_WITHOUT_WORKER: &'static str =
    "The --manager-port option must be set together with the --worker flag.";

pub const USERS_WITH_WORKER: &'static str =
    "The --users option can not be set together with the --worker flag.";

pub const USERS_TOO_FEW: &'static str = "The --users option must be set to at least 1.";

pub const RUN_TIME_WITH_WORKER: &'static str =
    "The --run-time option can not be set together with the --worker flag.";

pub const HATCH_RATE_WITH_WORKER: &'static str =
    "The --hatch-rate option can not be set together with the --worker flag.";

pub const HATCH_RATE_TOO_LOW: &'static str = "The --hatch-rate option must be set to at least 1.";

pub const THROTTLE_WITH_MANAGER: &'static str =
    "The --throttle-requests option can not be set together with the --manager flag.";

pub const THROTTLE_TOO_LOW: &'static str =
    "The --throttle-requests option must be set to at least 1 request per second.";

pub const THROTTLE_TOO_HIGH: &'static str =
    "The --throttle-requests option can not be set to more than 1,000,000 requests per second.";

pub const DEFAULT_THROTTLE_TOO_LOW: &'static str =
    "The GooseDefault::ThrottleRequests default must be set to at least 1 request per second.";

pub const DEFAULT_THROTTLE_TOO_HIGH: &'static str =
    "The GooseDefault::ThrottleRequests default can not be set to more than 1,000,000 requests per second.";

pub const METRICS_FORMAT_WITHOUT_FILE: &'static str =
    "The --metrics-file option must be set together with the --metrics-format option.";

pub const METRICS_FORMAT_UNKNOWN: &'static str =
    "The --metrics-format option must be set to one of: json, csv, raw.";

pub const DEBUG_FORMAT_WITHOUT_FILE: &'static str =
    "The --debug-file option must be set together with the --debug-format option.";

pub const DEBUG_FORMAT_UNKNOWN: &'static str =
    "The --debug-format option must be set to one of: json, raw.";

pub const FORMAT_JSON: &'static str = "json";

pub const FORMAT_CSV: &'static str = "csv";

pub const FORMAT_RAW: &'static str = "raw";

pub const BIND_HOST_DEFAULT: &'static str = "0.0.0.0";

pub const MANAGER_HOST_DEFAULT: &'static str = "127.0.0.1";

/// The port of a distributed load test, unless another is given.
pub const DEFAULT_PORT: u16 = 5115;

/// The largest number of requests per second that a throttle takes.
pub const MAX_THROTTLE_REQUESTS: usize = 1_000_000;

/// What becomes of the `--no-metrics` flag beside the other options: it
/// goes with neither status codes, nor a summary, nor a metrics file.
pub open spec fn setup_outcome(cfg: GooseConfiguration) -> Option<ErrorView> {
    if cfg.no_metrics && cfg.status_codes {
        Some(invalid_option(OPTION_NO_METRICS@, TRUE_TEXT@, NO_METRICS_WITH_STATUS_CODES@))
    } else if cfg.no_metrics && cfg.only_summary {
        Some(invalid_option(OPTION_NO_METRICS@, TRUE_TEXT@, NO_METRICS_WITH_ONLY_SUMMARY@))
    } else if cfg.no_metrics && cfg.metrics_file@.len() > 0 {
        Some(invalid_option(OPTION_NO_METRICS@, TRUE_TEXT@, NO_METRICS_WITH_METRICS_FILE@))
    } else {
        None
    }
}

/// Whether a default names the Manager mode.
pub open spec fn manager_is_default(defaults: GooseDefaults) -> bool {
    defaults.manager == Some(true)
}

/// Whether a default names the Worker mode.
pub open spec fn worker_is_default(defaults: GooseDefaults) -> bool {
    defaults.worker == Some(true)
}

/// Whether the options ask for the Manager mode: by the flag, or by the
/// default where the Worker flag is not set.
pub open spec fn wants_manager(cfg: GooseConfiguration, defaults: GooseDefaults) -> bool {
    cfg.manager || (!cfg.worker && manager_is_default(defaults))
}

/// Whether the options ask for the Worker mode: by the flag, or by the
/// default where the Manager flag is not set.
pub open spec fn wants_worker(cfg: GooseConfiguration, defaults: GooseDefaults) -> bool {
    cfg.worker || (!cfg.manager && worker_is_default(defaults))
}

/// The option that keeps a Worker from starting, if any, in the order in
/// which the options are looked at.
pub open spec fn worker_conflict(cfg: GooseConfiguration) -> Option<ErrorView> {
    if cfg.manager {
        Some(invalid_option(OPTION_MANAGER@, TRUE_TEXT@, MANAGER_WITH_WORKER@))
    } else if cfg.host@.len() > 0 {
        Some(invalid_option(OPTION_HOST@, cfg.host@, HOST_WITH_WORKER@))
    } else if cfg.no_metrics {
        Some(invalid_option(OPTION_NO_METRICS@, TRUE_TEXT@, NO_METRICS_WITH_WORKER@))
    } else if cfg.no_task_metrics {
        Some(invalid_option(OPTION_NO_TASK_METRICS@, TRUE_TEXT@, NO_TASK_METRICS_WITH_WORKER@))
    } else if cfg.only_summary {
        Some(invalid_option(OPTION_ONLY_SUMMARY@, TRUE_TEXT@, ONLY_SUMMARY_WITH_WORKER@))
    } else if cfg.status_codes {
        Some(invalid_option(OPTION_STATUS_CODES@, TRUE_TEXT@, STATUS_CODES_WITH_WORKER@))
    } else if cfg.no_reset_metrics {
        Some(invalid_option(OPTION_NO_RESET_METRICS@, TRUE_TEXT@, NO_RESET_METRICS_WITH_WORKER@))
    } else if cfg.no_hash_check {
        Some(invalid_option(OPTION_NO_HASH_CHECK@, TRUE_TEXT@, NO_HASH_CHECK_WITH_WORKER@))
    } else if cfg.metrics_file@.len() > 0 {
        Some(invalid_option(OPTION_METRICS_FILE@, cfg.metrics_file@, METRICS_FILE_WITH_WORKER@))
    } else if cfg.metrics_format@.len() > 0 {
        Some(
            invalid_option(OPTION_METRICS_FORMAT@, cfg.metrics_format@, METRICS_FORMAT_WITH_WORKER@),
        )
    } else {
        None
    }
}

/// The mode that the options ask for, or the option that stands against
/// it. A load test is a Manager or a Worker where a flag or a default says
/// so, and stands alone otherwise; a mode that was assigned before stays
/// where the options name none.
pub open spec fn attack_mode_outcome(
    cfg: GooseConfiguration,
    defaults: GooseDefaults,
    current: GooseMode,
) -> Result<GooseMode, ErrorView> {
    if manager_is_default(defaults) && worker_is_default(defaults) {
        Err(invalid_option(DEFAULT_WORKER@, TRUE_TEXT@, WORKER_DEFAULT_WITH_MANAGER_DEFAULT@))
    } else if wants_manager(cfg, defaults) && cfg.worker {
        Err(invalid_option(OPTION_WORKER@, TRUE_TEXT@, WORKER_WITH_MANAGER@))
    } else if wants_manager(cfg, defaults) && cfg.debug_file@.len() > 0 {
        Err(invalid_option(OPTION_DEBUG_FILE@, cfg.debug_file@, DEBUG_FILE_WITH_MANAGER@))
    } else if wants_worker(cfg, defaults) {
        match worker_conflict(cfg) {
            Some(e) => Err(e),
            None => Ok(GooseMode::Worker),
        }
    } else if wants_manager(cfg, defaults) {
        Ok(GooseMode::Manager)
    } else if current == GooseMode::Undefined {
        if cfg.no_hash_check {
            Err(invalid_option(OPTION_NO_HASH_CHECK@, TRUE_TEXT@, NO_HASH_CHECK_WITHOUT_MANAGER@))
        } else {
            Ok(GooseMode::StandAlone)
        }
    } else {
        Ok(current)
    }
}

/// How many users to launch, or the option that stands against it: the
/// `--users` option, which a Worker does not take; else the default, which
/// a Worker ignores; else one user for each CPU. Off a Worker there is at
/// least one user.
pub open spec fn users_outcome(
    cfg: GooseConfiguration,
    defaults: GooseDefaults,
    mode: GooseMode,
    number_of_cpus: usize,
    current: usize,
) -> Result<usize, ErrorView> {
    if cfg.users is Some && mode == GooseMode::Worker {
        Err(invalid_option(OPTION_USERS@, decimal_digits(current as nat), USERS_WITH_WORKER@))
    } else {
        let users = match cfg.users {
            Some(u) => u,
            None => match defaults.users {
                Some(u) => if mode == GooseMode::Worker {
                    0
                } else {
                    u
                },
                None => number_of_cpus,
            },
        };
        if users == 0 && mode != GooseMode::Worker {
            Err(invalid_option(OPTION_USERS@, decimal_digits(0), USERS_TOO_FEW@))
        } else {
            Ok(users)
        }
    }
}

/// How many Workers a Manager waits for: the `--expect-workers` option,
/// else the default on a Manager, else none.
pub open spec fn expected_workers(
    cfg: GooseConfiguration,
    defaults: GooseDefaults,
    mode: GooseMode,
) -> u16 {
    if cfg.expect_workers > 0 {
        cfg.expect_workers
    } else {
        match defaults.expect_workers {
            Some(number) => if mode == GooseMode::Manager {
                number
            } else {
                0
            },
            None => 0,
        }
    }
}

/// How many Workers to expect, or the option that stands against it: only
/// a Manager expects Workers, and it expects at least one and no more than
/// there are users.
pub open spec fn expect_workers_outcome(
    cfg: GooseConfiguration,
    defaults: GooseDefaults,
    mode: GooseMode,
    users: usize,
) -> Result<u16, ErrorView> {
    let expect_workers = expected_workers(cfg, defaults, mode);
    if mode != GooseMode::Manager && expect_workers > 0 {
        Err(
            invalid_option(
                OPTION_EXPECT_WORKERS@,
                decimal_digits(cfg.expect_workers as nat),
                EXPECT_WORKERS_WITHOUT_MANAGER@,
            ),
        )
    } else if mode == GooseMode::Manager && expect_workers < 1 {
        Err(
            invalid_option(
                OPTION_EXPECT_WORKERS@,
                decimal_digits(expect_workers as nat),
                EXPECT_WORKERS_TOO_FEW@,
            ),
        )
    } else if mode == GooseMode::Manager && expect_workers > users {
        Err(
            invalid_option(
                OPTION_EXPECT_WORKERS@,
                decimal_digits(expect_workers as nat),
                EXPECT_WORKERS_TOO_MANY@,
            ),
        )
    } else {
        Ok(expect_workers)
    }
}

/// Where the processes of a distributed load test meet.
pub struct GaggleAddresses {
    /// The host a Manager listens on.
    pub manager_bind_host: Seq<char>,
    /// The port a Manager listens on.
    pub manager_bind_port: u16,
    /// The host a Worker connects to.
    pub manager_host: Seq<char>,
    /// The port a Worker connects to.
    pub manager_port: u16,
}

/// The addresses of a distributed load test, or the option that stands
/// against them: a Manager listens where the options say, else where the
/// defaults say, else on all addresses and the default port, and only a
/// Manager takes these options; a Worker connects where the options say,
/// else where the defaults say, else to this machine and the default port,
/// and only a Worker takes these options.
pub open spec fn gaggle_outcome(
    cfg: GooseConfiguration,
    defaults: GooseDefaults,
    mode: GooseMode,
) -> Result<GaggleAddresses, ErrorView> {
    if mode != GooseMode::Manager && cfg.manager_bind_host@.len() > 0 {
        Err(
            invalid_option(
                OPTION_MANAGER_BIND_HOST@,
                cfg.manager_bind_host@,
                MANAGER_BIND_HOST_WITH_WORKER@,
            ),
        )
    } else if mode != GooseMode::Manager && cfg.manager_bind_port != 0 {
        Err(
            invalid_option(
                OPTION_MANAGER_BIND_PORT@,
                decimal_digits(cfg.manager_bind_port as nat),
                MANAGER_BIND_PORT_WITH_WORKER@,
            ),
        )
    } else if mode != GooseMode::Worker && cfg.manager_host@.len() > 0 {
        Err(invalid_option(OPTION_MANAGER_HOST@, cfg.manager_host@, MANAGER_HOST_WITHOUT_WORKER@))
    } else if mode != GooseMode::Worker && cfg.manager_port != 0 {
        Err(
            invalid_option(
                OPTION_MANAGER_PORT@,
                decimal_digits(cfg.manager_port as nat),
                MANAGER_PORT_WITHOUT_WORKER@,
            ),
        )
    } else {
        Ok(
            GaggleAddresses {
                manager_bind_host: if mode == GooseMode::Manager && cfg.manager_bind_host@.len()
                    == 0 {
                    match defaults.manager_bind_host {
                        Some(host) => host@,
                        None => BIND_HOST_DEFAULT@,
                    }
                } else {
                    cfg.manager_bind_host@
                },
                manager_bind_port: if mode == GooseMode::Manager && cfg.manager_bind_port == 0 {
                    match defaults.manager_bind_port {
                        Some(port) => port,
                        None => DEFAULT_PORT,
                    }
                } else {
                    cfg.manager_bind_port
                },
                manager_host: if mode == GooseMode::Worker && cfg.manager_host@.len() == 0 {
                    match defaults.manager_host {
                        Some(host) => host@,
                        None => MANAGER_HOST_DEFAULT@,
                    }
                } else {
                    cfg.manager_host@
                },
                manager_port: if mode == GooseMode::Worker && cfg.manager_port == 0 {
                    match defaults.manager_port {
                        Some(port) => port,
                        None => DEFAULT_PORT,
                    }
                } else {
                    cfg.manager_port
                },
            },
        )
    }
}

/// How long the load test runs, in seconds, or the option that stands
/// against it: the `--run-time` option, which a Worker does not take; else
/// the default, which a Worker ignores; else zero, which is to run until
/// the load test is interrupted.
pub open spec fn run_time_outcome(
    cfg: GooseConfiguration,
    defaults: GooseDefaults,
    mode: GooseMode,
) -> Result<usize, ErrorView> {
    if cfg.run_time@.len() > 0 {
        if mode == GooseMode::Worker {
            Err(invalid_option(OPTION_RUN_TIME@, TRUE_TEXT@, RUN_TIME_WITH_WORKER@))
        } else {
            Ok(spec_parse_timespan(cfg.run_time@))
        }
    } else {
        match defaults.run_time {
            Some(r) => if mode == GooseMode::Worker {
                Ok(0usize)
            } else {
                Ok(r)
            },
            None => Ok(0usize),
        }
    }
}

/// How many users are launched each second, or the option that stands
/// against it: the `--hatch-rate` option, which a Worker does not take;
/// else the default, which a Worker ignores; else what was set before.
/// Off a Worker the rate is at least 1.
pub open spec fn hatch_rate_outcome(
    cfg: GooseConfiguration,
    defaults: GooseDefaults,
    mode: GooseMode,
    current: usize,
) -> Result<usize, ErrorView> {
    if cfg.hatch_rate > 0 && mode == GooseMode::Worker {
        Err(
            invalid_option(
                OPTION_HATCH_RATE@,
                decimal_digits(cfg.hatch_rate as nat),
                HATCH_RATE_WITH_WORKER@,
            ),
        )
    } else {
        let hatch_rate = if cfg.hatch_rate > 0 {
            cfg.hatch_rate
        } else {
            match defaults.hatch_rate {
                Some(rate) => if mode == GooseMode::Worker {
                    current
                } else {
                    rate
                },
                None => current,
            }
        };
        if hatch_rate == 0 && mode != GooseMode::Worker {
            Err(
                invalid_option(
                    OPTION_HATCH_RATE@,
                    decimal_digits(cfg.hatch_rate as nat),
                    HATCH_RATE_TOO_LOW@,
                ),
            )
        } else {
            Ok(hatch_rate)
        }
    }
}

/// The largest number of requests per second, zero for no limit, or the
/// option that stands against it: the `--throttle-requests` option, which
/// a Manager does not take; else the default, which a Manager ignores. A
/// limit lies between 1 and 1,000,000.
pub open spec fn throttle_outcome(
    cfg: GooseConfiguration,
    defaults: GooseDefaults,
    mode: GooseMode,
) -> Result<usize, ErrorView> {
    match cfg.throttle_requests {
        Some(throttle) => {
            if mode == GooseMode::Manager {
                Err(
                    invalid_option(
                        OPTION_THROTTLE_REQUESTS@,
                        decimal_digits(throttle as nat),
                        THROTTLE_WITH_MANAGER@,
                    ),
                )
            } else if throttle == 0 {
                Err(
                    invalid_option(
                        OPTION_THROTTLE_REQUESTS@,
                        decimal_digits(throttle as nat),
                        THROTTLE_TOO_LOW@,
                    ),
                )
            } else if throttle > MAX_THROTTLE_REQUESTS {
                Err(
                    invalid_option(
                        OPTION_THROTTLE_REQUESTS@,
                        decimal_digits(throttle as nat),
                        THROTTLE_TOO_HIGH@,
                    ),
                )
            } else {
                Ok(throttle)
            }
        },
        None => match defaults.throttle_requests {
            Some(throttle) => {
                if mode == GooseMode::Manager {
                    Ok(0usize)
                } else if throttle == 0 {
                    Err(
                        invalid_option(
                            DEFAULT_THROTTLE_REQUESTS@,
                            decimal_digits(throttle as nat),
                            DEFAULT_THROTTLE_TOO_LOW@,
                        ),
                    )
                } else if throttle > MAX_THROTTLE_REQUESTS {
                    Err(
                        invalid_option(
                            DEFAULT_THROTTLE_REQUESTS@,
                            decimal_digits(throttle as nat),
                            DEFAULT_THROTTLE_TOO_HIGH@,
                        ),
                    )
                } else {
                    Ok(throttle)
                }
            },
            None => Ok(0usize),
        },
    }
}

/// The name of the metrics file, if there is one: none where metrics are
/// off or on a Manager; else the `--metrics-file` option, else the default.
pub open spec fn metrics_file_path(
    cfg: GooseConfiguration,
    defaults: GooseDefaults,
    mode: GooseMode,
) -> Option<Seq<char>> {
    if cfg.no_metrics || mode == GooseMode::Manager {
        None
    } else if cfg.metrics_file@.len() > 0 {
        Some(cfg.metrics_file@)
    } else {
        match defaults.metrics_file {
            Some(file) => Some(file@),
            None => None,
        }
    }
}

/// The name of the debug file, if there is one: none on a Manager; else
/// the `--debug-file` option, else the default.
pub open spec fn debug_file_path(
    cfg: GooseConfiguration,
    defaults: GooseDefaults,
    mode: GooseMode,
) -> Option<Seq<char>> {
    if mode == GooseMode::Manager {
        None
    } else if cfg.debug_file@.len() > 0 {
        Some(cfg.debug_file@)
    } else {
        match defaults.debug_file {
            Some(file) => Some(file@),
            None => None,
        }
    }
}

/// Whether a text names a format of the metrics file.
pub open spec fn is_metrics_format(format: Seq<char>) -> bool {
    format == FORMAT_JSON@ || format == FORMAT_CSV@ || format == FORMAT_RAW@
}

/// Whether a text names a format of the debug file.
pub open spec fn is_debug_format(format: Seq<char>) -> bool {
    format == FORMAT_JSON@ || format == FORMAT_RAW@
}

/// Whether a metrics file is named, by the `--metrics-file` option or by
/// the default.
pub open spec fn metrics_file_given(cfg: GooseConfiguration, defaults: GooseDefaults) -> bool {
    cfg.metrics_file@.len() > 0 || defaults.metrics_file is Some
}

/// The format of the metrics file, or the option that stands against it:
/// the `--metrics-format` option, which needs metrics and a metrics file;
/// else the default; else json. The format is one of json, csv and raw.
pub open spec fn metrics_format_outcome(cfg: GooseConfiguration, defaults: GooseDefaults) -> Result<
    Seq<char>,
    ErrorView,
> {
    if cfg.metrics_format@.len() > 0 && cfg.no_metrics {
        Err(invalid_option(OPTION_NO_METRICS@, TRUE_TEXT@, NO_METRICS_WITH_METRICS_FORMAT@))
    } else if cfg.metrics_format@.len() > 0 && !metrics_file_given(cfg, defaults) {
        Err(
            invalid_option(
                OPTION_METRICS_FORMAT@,
                cfg.metrics_format@,
                METRICS_FORMAT_WITHOUT_FILE@,
            ),
        )
    } else {
        let format = if cfg.metrics_format@.len() > 0 {
            cfg.metrics_format@
        } else {
            match defaults.metrics_format {
                Some(f) => f@,
                None => FORMAT_JSON@,
            }
        };
        if is_metrics_format(format) {
            Ok(format)
        } else {
            Err(invalid_option(OPTION_METRICS_FORMAT@, format, METRICS_FORMAT_UNKNOWN@))
        }
    }
}

/// The format of the debug file, or the option that stands against it: the
/// `--debug-format` option, which needs the `--debug-file` option; else
/// the default; else json. The format is one of json and raw.
pub open spec fn debug_format_outcome(cfg: GooseConfiguration, defaults: GooseDefaults) -> Result<
    Seq<char>,
    ErrorView,
> {
    if cfg.debug_format@.len() > 0 && cfg.debug_file@.len() == 0 {
        Err(invalid_option(OPTION_DEBUG_FORMAT@, cfg.debug_format@, DEBUG_FORMAT_WITHOUT_FILE@))
    } else {
        let format = if cfg.debug_format@.len() > 0 {
            cfg.debug_format@
        } else {
            match defaults.debug_format {
                Some(f) => f@,
                None => FORMAT_JSON@,
            }
        };
        if is_debug_format(format) {
            Ok(format)
        } else {
            Err(invalid_option(OPTION_DEBUG_FORMAT@, format, DEBUG_FORMAT_UNKNOWN@))
        }
    }
}

/// Whether the metrics stay as they are once all users are launched: by
/// the `--no-reset-metrics` flag, else by the default, which a Worker
/// ignores.
pub open spec fn spec_no_reset_metrics(
    cfg: GooseConfiguration,
    defaults: GooseDefaults,
    mode: GooseMode,
) -> bool {
    cfg.no_reset_metrics || (mode != GooseMode::Worker && defaults.no_reset_metrics == Some(true))
}

/// Whether a Manager takes Workers that run another load test: by the
/// `--no-hash-check` flag, else by the default, which a Worker ignores.
pub open spec fn spec_no_hash_check(
    cfg: GooseConfiguration,
    defaults: GooseDefaults,
    mode: GooseMode,
) -> bool {
    cfg.no_hash_check || (mode != GooseMode::Worker && defaults.no_hash_check == Some(true))
}

/// Whether two texts are the same.
pub fn same_text(a: &str, b: &str) -> (r: bool)
    ensures
        r == (a@ == b@),
{
    String::from_str(a) == String::from_str(b)
}

/// The addresses of a distributed load test, as the options, the defaults
/// and the mode give them.
pub fn resolve_gaggle(cfg: &GooseConfiguration, defaults: &GooseDefaults, mode: GooseMode) -> (r:
    Result<(String, u16, String, u16), GooseError>)
    ensures
        match r {
            Ok(found) => gaggle_outcome(*cfg, *defaults, mode) == Ok::<GaggleAddresses, ErrorView>(
                GaggleAddresses {
                    manager_bind_host: found.0@,
                    manager_bind_port: found.1,
                    manager_host: found.2@,
                    manager_port: found.3,
                },
            ),
            Err(e) => gaggle_outcome(*cfg, *defaults, mode) == Err::<GaggleAddresses, ErrorView>(
                e@,
            ),
        },
{
    let is_manager = mode == GooseMode::Manager;
    let is_worker = mode == GooseMode::Worker;
    if !is_manager {
        if !cfg.manager_bind_host.as_str().is_empty() {
            return Err(
                GooseError::option_error(
                    OPTION_MANAGER_BIND_HOST,
                    cfg.manager_bind_host.as_str(),
                    MANAGER_BIND_HOST_WITH_WORKER,
                ),
            );
        }
        if cfg.manager_bind_port != 0 {
            let value = decimal_string(cfg.manager_bind_port as usize);
            return Err(
                GooseError::option_error(
                    OPTION_MANAGER_BIND_PORT,
                    value.as_str(),
                    MANAGER_BIND_PORT_WITH_WORKER,
                ),
            );
        }
    }
    if !is_worker {
        if !cfg.manager_host.as_str().is_empty() {
            return Err(
                GooseError::option_error(
                    OPTION_MANAGER_HOST,
                    cfg.manager_host.as_str(),
                    MANAGER_HOST_WITHOUT_WORKER,
                ),
            );
        }
        if cfg.manager_port != 0 {
            let value = decimal_string(cfg.manager_port as usize);
            return Err(
                GooseError::option_error(
                    OPTION_MANAGER_PORT,
                    value.as_str(),
                    MANAGER_PORT_WITHOUT_WORKER,
                ),
            );
        }
    }
    let bind_host: String = if is_manager && cfg.manager_bind_host.as_str().is_empty() {
        match &defaults.manager_bind_host {
            Some(host) => host.clone(),
            None => String::from_str(BIND_HOST_DEFAULT),
        }
    } else {
        cfg.manager_bind_host.clone()
    };
    let bind_port: u16 = if is_manager && cfg.manager_bind_port == 0 {
        match defaults.manager_bind_port {
            Some(port) => port,
            None => DEFAULT_PORT,
        }
    } else {
        cfg.manager_bind_port
    };
    let host: String = if is_worker && cfg.manager_host.as_str().is_empty() {
        match &defaults.manager_host {
            Some(host) => host.clone(),
            None => String::from_str(MANAGER_HOST_DEFAULT),
        }
    } else {
        cfg.manager_host.clone()
    };
    let port: u16 = if is_worker && cfg.manager_port == 0 {
        match defaults.manager_port {
            Some(port) => port,
            None => DEFAULT_PORT,
        }
    } else {
        cfg.manager_port
    };
    Ok((bind_host, bind_port, host, port))
}

/// The name of the metrics file, if the options, the defaults and the mode
/// give one.
pub fn resolve_metrics_file<'a>(
    cfg: &'a GooseConfiguration,
    defaults: &'a GooseDefaults,
    mode: GooseMode,
) -> (r: Option<&'a str>)
    ensures
        match r {
            Some(p) => metrics_file_path(*cfg, *defaults, mode) == Some(p@),
            None => metrics_file_path(*cfg, *defaults, mode) is None,
        },
{
    if cfg.no_metrics || mode == GooseMode::Manager {
        return None;
    }
    if !cfg.metrics_file.as_str().is_empty() {
        return Some(cfg.metrics_file.as_str());
    }
    match &defaults.metrics_file {
        Some(default_metrics_file) => Some(default_metrics_file.as_str()),
        None => None,
    }
}

/// The format of the metrics file, as the options and the defaults give
/// it.
pub fn resolve_metrics_format(cfg: &GooseConfiguration, defaults: &GooseDefaults) -> (r: Result<
    String,
    GooseError,
>)
    ensures
        match r {
            Ok(format) => metrics_format_outcome(*cfg, *defaults) == Ok::<Seq<char>, ErrorView>(
                format@,
            ),
            Err(e) => metrics_format_outcome(*cfg, *defaults) == Err::<Seq<char>, ErrorView>(e@),
        },
{
    let format: String = if cfg.metrics_format.as_str().is_empty() {
        match &defaults.metrics_format {
            Some(metrics_format) => metrics_format.clone(),
            None => String::from_str(FORMAT_JSON),
        }
    } else {
        if cfg.no_metrics {
            return Err(
                GooseError::option_error(
                    OPTION_NO_METRICS,
                    TRUE_TEXT,
                    NO_METRICS_WITH_METRICS_FORMAT,
                ),
            );
        }
        if cfg.metrics_file.as_str().is_empty() && defaults.metrics_file.is_none() {
            return Err(
                GooseError::option_error(
                    OPTION_METRICS_FORMAT,
                    cfg.metrics_format.as_str(),
                    METRICS_FORMAT_WITHOUT_FILE,
                ),
            );
        }
        cfg.metrics_format.clone()
    };
    if !(same_text(format.as_str(), FORMAT_JSON) || same_text(format.as_str(), FORMAT_CSV)
        || same_text(format.as_str(), FORMAT_RAW)) {
        return Err(
            GooseError::option_error(OPTION_METRICS_FORMAT, format.as_str(), METRICS_FORMAT_UNKNOWN),
        );
    }
    Ok(format)
}

/// The format of the debug file, as the options and the defaults give it.
pub fn resolve_debug_format(cfg: &GooseConfiguration, defaults: &GooseDefaults) -> (r: Result<
    String,
    GooseError,
>)
    ensures
        match r {
            Ok(format) => debug_format_outcome(*cfg, *defaults) == Ok::<Seq<char>, ErrorView>(
                format@,
            ),
            Err(e) => debug_format_outcome(*cfg, *defaults) == Err::<Seq<char>, ErrorView>(e@),
        },
{
    let format: String = if cfg.debug_format.as_str().is_empty() {
        match &defaults.debug_format {
            Some(debug_format) => debug_format.clone(),
            None => String::from_str(FORMAT_JSON),
        }
    } else {
        if cfg.debug_file.as_str().is_empty() {
            return Err(
                GooseError::option_error(
                    OPTION_DEBUG_FORMAT,
                    cfg.debug_format.as_str(),
                    DEBUG_FORMAT_WITHOUT_FILE,
                ),
            );
        }
        cfg.debug_format.clone()
    };
    if !(same_text(format.as_str(), FORMAT_JSON) || same_text(format.as_str(), FORMAT_RAW)) {
        return Err(
            GooseError::option_error(OPTION_DEBUG_FORMAT, format.as_str(), DEBUG_FORMAT_UNKNOWN),
        );
    }
    Ok(format)
}

/// Looks through the options of a Worker for one that a Worker does not
/// take.
pub fn check_worker_options(cfg: &GooseConfiguration) -> (r: Result<(), GooseError>)
    ensures
        match r {
            Ok(()) => worker_conflict(*cfg) is None,
            Err(e) => worker_conflict(*cfg) == Some(e@),
        },
{
        if cfg.manager {
        Err(GooseError::option_error(OPTION_MANAGER, TRUE_TEXT, MANAGER_WITH_WORKER))
    } else if !cfg.host.as_str().is_empty() {
        Err(GooseError::option_error(OPTION_HOST, cfg.host.as_str(), HOST_WITH_WORKER))
    } else if cfg.no_metrics {
        Err(GooseError::option_error(OPTION_NO_METRICS, TRUE_TEXT, NO_METRICS_WITH_WORKER))
    } else if cfg.no_task_metrics {
        Err(
            GooseError::option_error(
                OPTION_NO_TASK_METRICS,
                TRUE_TEXT,
                NO_TASK_METRICS_WITH_WORKER,
            ),
        )
    } else if cfg.only_summary {
        Err(GooseError::option_error(OPTION_ONLY_SUMMARY, TRUE_TEXT, ONLY_SUMMARY_WITH_WORKER))
    } else if cfg.status_codes {
        Err(GooseError::option_error(OPTION_STATUS_CODES, TRUE_TEXT, STATUS_CODES_WITH_WORKER))
    } else if cfg.no_reset_metrics {
        Err(
            GooseError::option_error(
                OPTION_NO_RESET_METRICS,
                TRUE_TEXT,
                NO_RESET_METRICS_WITH_WORKER,
            ),
        )
    } else if cfg.no_hash_check {
        Err(
            GooseError::option_error(OPTION_NO_HASH_CHECK, TRUE_TEXT, NO_HASH_CHECK_WITH_WORKER),
        )
    } else if !cfg.metrics_file.as_str().is_empty() {
        Err(
            GooseError::option_error(
                OPTION_METRICS_FILE,
                cfg.metrics_file.as_str(),
                METRICS_FILE_WITH_WORKER,
            ),
        )
    } else if !cfg.metrics_format.as_str().is_empty() {
        Err(
            GooseError::option_error(
                OPTION_METRICS_FORMAT,
                cfg.metrics_format.as_str(),
                METRICS_FORMAT_WITH_WORKER,
            ),
        )
    } else {
        Ok(())
    }
}

/// The mode that the options and the defaults ask for.
pub fn resolve_mode(cfg: &GooseConfiguration, defaults: &GooseDefaults, mode: GooseMode) -> (r:
    Result<GooseMode, GooseError>)
    ensures
        match r {
            Ok(found) => attack_mode_outcome(*cfg, *defaults, mode) == Ok::<GooseMode, ErrorView>(
                found,
            ),
            Err(e) => attack_mode_outcome(*cfg, *defaults, mode) == Err::<GooseMode, ErrorView>(
                e@,
            ),
        },
{
    let manager_is_default = match defaults.manager {
        Some(value) => value,
        None => false,
    };
    let worker_is_default = match defaults.worker {
        Some(value) => value,
        None => false,
    };
    if manager_is_default && worker_is_default {
        return Err(
            GooseError::option_error(
                DEFAULT_WORKER,
                TRUE_TEXT,
                WORKER_DEFAULT_WITH_MANAGER_DEFAULT,
            ),
        );
    }
    let manager = cfg.manager || (!cfg.worker
        && manager_is_default);
    let worker = cfg.worker || (!cfg.manager
        && worker_is_default);
    if manager {
        if cfg.worker {
            return Err(
                GooseError::option_error(OPTION_WORKER, TRUE_TEXT, WORKER_WITH_MANAGER),
            );
        }
        if !cfg.debug_file.as_str().is_empty() {
            return Err(
                GooseError::option_error(
                    OPTION_DEBUG_FILE,
                    cfg.debug_file.as_str(),
                    DEBUG_FILE_WITH_MANAGER,
                ),
            );
        }
    }
    if worker {
        match check_worker_options(cfg) {
            Ok(()) => {
                return Ok(GooseMode::Worker);
            },
            Err(e) => {
                return Err(e);
            },
        }
    }
    if manager {
        return Ok(GooseMode::Manager);
    }
    if mode == GooseMode::Undefined {
        if cfg.no_hash_check {
            return Err(
                GooseError::option_error(
                    OPTION_NO_HASH_CHECK,
                    TRUE_TEXT,
                    NO_HASH_CHECK_WITHOUT_MANAGER,
                ),
            );
        }
        return Ok(GooseMode::StandAlone);
    }
    Ok(mode)
}

/// How many users the options and the defaults ask for.
pub fn resolve_users(
    cfg: &GooseConfiguration,
    defaults: &GooseDefaults,
    mode: GooseMode,
    number_of_cpus: usize,
    current: usize,
) -> (r: Result<usize, GooseError>)
    ensures
        match r {
            Ok(found) => users_outcome(*cfg, *defaults, mode, number_of_cpus, current) == Ok::<
                usize,
                ErrorView,
            >(found),
            Err(e) => users_outcome(*cfg, *defaults, mode, number_of_cpus, current) == Err::<
                usize,
                ErrorView,
            >(e@),
        },
{
    let users: usize = match cfg.users {
        Some(u) => {
            if mode == GooseMode::Worker {
                let value = decimal_string(current);
                return Err(
                    GooseError::option_error(OPTION_USERS, value.as_str(), USERS_WITH_WORKER),
                );
            }
            u
        },
        None => match defaults.users {
            Some(u) => {
                if mode == GooseMode::Worker {
                    0
                } else {
                    u
                }
            },
            None => number_of_cpus,
        },
    };
    if users == 0 && mode != GooseMode::Worker {
        let value = decimal_string(0);
        return Err(GooseError::option_error(OPTION_USERS, value.as_str(), USERS_TOO_FEW));
    }
    Ok(users)
}

/// How many Workers the options and the defaults ask a Manager to wait
/// for.
pub fn resolve_expect_workers(
    cfg: &GooseConfiguration,
    defaults: &GooseDefaults,
    mode: GooseMode,
    users: usize,
) -> (r: Result<u16, GooseError>)
    ensures
        match r {
            Ok(found) => expect_workers_outcome(*cfg, *defaults, mode, users) == Ok::<
                u16,
                ErrorView,
            >(found),
            Err(e) => expect_workers_outcome(*cfg, *defaults, mode, users) == Err::<
                u16,
                ErrorView,
            >(e@),
        },
{
    let expect_workers: u16 = if cfg.expect_workers > 0 {
        cfg.expect_workers
    } else {
        match defaults.expect_workers {
            Some(number) => {
                if mode == GooseMode::Manager {
                    number
                } else {
                    0
                }
            },
            None => 0,
        }
    };
    if mode != GooseMode::Manager && expect_workers > 0 {
        let value = decimal_string(cfg.expect_workers as usize);
        return Err(
            GooseError::option_error(
                OPTION_EXPECT_WORKERS,
                value.as_str(),
                EXPECT_WORKERS_WITHOUT_MANAGER,
            ),
        );
    }
    if mode == GooseMode::Manager {
        if expect_workers < 1 {
            let value = decimal_string(expect_workers as usize);
            return Err(
                GooseError::option_error(
                    OPTION_EXPECT_WORKERS,
                    value.as_str(),
                    EXPECT_WORKERS_TOO_FEW,
                ),
            );
        }
        if expect_workers as usize > users {
            let value = decimal_string(expect_workers as usize);
            return Err(
                GooseError::option_error(
                    OPTION_EXPECT_WORKERS,
                    value.as_str(),
                    EXPECT_WORKERS_TOO_MANY,
                ),
            );
        }
    }
    Ok(expect_workers)
}

/// How long the options and the defaults ask the load test to run.
pub fn resolve_run_time(cfg: &GooseConfiguration, defaults: &GooseDefaults, mode: GooseMode) -> (r:
    Result<usize, GooseError>)
    ensures
        match r {
            Ok(found) => run_time_outcome(*cfg, *defaults, mode) == Ok::<usize, ErrorView>(found),
            Err(e) => run_time_outcome(*cfg, *defaults, mode) == Err::<usize, ErrorView>(e@),
        },
{
    let run_time: usize = if !cfg.run_time.as_str().is_empty() {
        if mode == GooseMode::Worker {
            return Err(
                GooseError::option_error(OPTION_RUN_TIME, TRUE_TEXT, RUN_TIME_WITH_WORKER),
            );
        }
        parse_timespan(cfg.run_time.as_str())
    } else {
        match defaults.run_time {
            Some(r) => {
                if mode == GooseMode::Worker {
                    0
                } else {
                    r
                }
            },
            None => 0,
        }
    };
    Ok(run_time)
}

/// How many users the options and the defaults ask to launch each second.
pub fn resolve_hatch_rate(
    cfg: &GooseConfiguration,
    defaults: &GooseDefaults,
    mode: GooseMode,
    current: usize,
) -> (r: Result<usize, GooseError>)
    ensures
        match r {
            Ok(found) => hatch_rate_outcome(*cfg, *defaults, mode, current) == Ok::<
                usize,
                ErrorView,
            >(found),
            Err(e) => hatch_rate_outcome(*cfg, *defaults, mode, current) == Err::<
                usize,
                ErrorView,
            >(e@),
        },
{
    let hatch_rate: usize = if cfg.hatch_rate > 0 {
        if mode == GooseMode::Worker {
            let value = decimal_string(cfg.hatch_rate);
            return Err(
                GooseError::option_error(
                    OPTION_HATCH_RATE,
                    value.as_str(),
                    HATCH_RATE_WITH_WORKER,
                ),
            );
        }
        cfg.hatch_rate
    } else {
        match defaults.hatch_rate {
            Some(rate) => {
                if mode == GooseMode::Worker {
                    current
                } else {
                    rate
                }
            },
            None => current,
        }
    };
    if hatch_rate == 0 && mode != GooseMode::Worker {
        let value = decimal_string(cfg.hatch_rate);
        return Err(
            GooseError::option_error(OPTION_HATCH_RATE, value.as_str(), HATCH_RATE_TOO_LOW),
        );
    }
    Ok(hatch_rate)
}

/// The largest number of requests per second that the options and the
/// defaults ask for; zero for no limit.
pub fn resolve_throttle(cfg: &GooseConfiguration, defaults: &GooseDefaults, mode: GooseMode) -> (r:
    Result<usize, GooseError>)
    ensures
        match r {
            Ok(found) => throttle_outcome(*cfg, *defaults, mode) == Ok::<usize, ErrorView>(found),
            Err(e) => throttle_outcome(*cfg, *defaults, mode) == Err::<usize, ErrorView>(e@),
        },
{
    let throttle_requests: usize = match cfg.throttle_requests {
        Some(throttle) => {
            let value = decimal_string(throttle);
            if mode == GooseMode::Manager {
                return Err(
                    GooseError::option_error(
                        OPTION_THROTTLE_REQUESTS,
                        value.as_str(),
                        THROTTLE_WITH_MANAGER,
                    ),
                );
            }
            if throttle == 0 {
                return Err(
                    GooseError::option_error(
                        OPTION_THROTTLE_REQUESTS,
                        value.as_str(),
                        THROTTLE_TOO_LOW,
                    ),
                );
            } else if throttle > MAX_THROTTLE_REQUESTS {
                return Err(
                    GooseError::option_error(
                        OPTION_THROTTLE_REQUESTS,
                        value.as_str(),
                        THROTTLE_TOO_HIGH,
                    ),
                );
            }
            throttle
        },
        None => match defaults.throttle_requests {
            Some(throttle) => {
                if mode == GooseMode::Manager {
                    0
                } else {
                    let value = decimal_string(throttle);
                    if throttle == 0 {
                        return Err(
                            GooseError::option_error(
                                DEFAULT_THROTTLE_REQUESTS,
                                value.as_str(),
                                DEFAULT_THROTTLE_TOO_LOW,
                            ),
                        );
                    } else if throttle > MAX_THROTTLE_REQUESTS {
                        return Err(
                            GooseError::option_error(
                                DEFAULT_THROTTLE_REQUESTS,
                                value.as_str(),
                                DEFAULT_THROTTLE_TOO_HIGH,
                            ),
                        );
                    }
                    throttle
                }
            },
            None => 0,
        },
    };
    Ok(throttle_requests)
}

/// The name of the debug file, if the options, the defaults and the mode
/// give one.
pub fn resolve_debug_file<'a>(
    cfg: &'a GooseConfiguration,
    defaults: &'a GooseDefaults,
    mode: GooseMode,
) -> (r: Option<&'a str>)
    ensures
        match r {
            Some(p) => debug_file_path(*cfg, *defaults, mode) == Some(p@),
            None => debug_file_path(*cfg, *defaults, mode) is None,
        },
{
    if mode == GooseMode::Manager {
        return None;
    }
    if !cfg.debug_file.as_str().is_empty() {
        return Some(cfg.debug_file.as_str());
    }
    match &defaults.debug_file {
        Some(default_debug_file) => Some(default_debug_file.as_str()),
        None => None,
    }
}

} // verus!
