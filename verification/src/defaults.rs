//! Setting the defaults of a load test: the values that stand in for the
//! options that the command line leaves out.

use crate::attack::GooseAttack;
use crate::config::{GooseDefault, GooseDefaults};
use crate::hosts::option_text;
use vstd::prelude::*;
use vstd::string::StringExecFns;

verus! {

/// Whether the default named by `key` is a text.
pub open spec fn takes_text(key: GooseDefault) -> bool {
    key == GooseDefault::Host || key == GooseDefault::LogFile || key == GooseDefault::MetricsFile
        || key == GooseDefault::MetricsFormat || key == GooseDefault::DebugFile || key
        == GooseDefault::DebugFormat || key == GooseDefault::ManagerBindHost || key
        == GooseDefault::ManagerHost
}

/// Whether the default named by `key` is a number.
pub open spec fn takes_number(key: GooseDefault) -> bool {
    key == GooseDefault::Users || key == GooseDefault::HatchRate || key == GooseDefault::RunTime
        || key == GooseDefault::LogLevel || key == GooseDefault::Verbose || key
        == GooseDefault::ThrottleRequests || key == GooseDefault::ExpectWorkers || key
        == GooseDefault::ManagerBindPort || key == GooseDefault::ManagerPort
}

/// Whether the default named by `key` is a flag.
pub open spec fn takes_flag(key: GooseDefault) -> bool {
    !takes_text(key) && !takes_number(key)
}

/// The defaults `after` are `before` with the text `value` set for `key`.
pub open spec fn text_default_set(
    before: GooseDefaults,
    key: GooseDefault,
    value: Seq<char>,
    after: GooseDefaults,
) -> bool {
    match key {
        GooseDefault::Host => after == (GooseDefaults { host: after.host, ..before })
            && option_text(after.host) == Some(value),
        GooseDefault::LogFile => after == (GooseDefaults { log_file: after.log_file, ..before })
            && option_text(after.log_file) == Some(value),
        GooseDefault::MetricsFile => after == (GooseDefaults {
            metrics_file: after.metrics_file,
            ..before
        }) && option_text(after.metrics_file) == Some(value),
        GooseDefault::MetricsFormat => after == (GooseDefaults {
            metrics_format: after.metrics_format,
            ..before
        }) && option_text(after.metrics_format) == Some(value),
        GooseDefault::DebugFile => after == (GooseDefaults { debug_file: after.debug_file, ..before })
            && option_text(after.debug_file) == Some(value),
        GooseDefault::DebugFormat => after == (GooseDefaults {
            debug_format: after.debug_format,
            ..before
        }) && option_text(after.debug_format) == Some(value),
        GooseDefault::ManagerBindHost => after == (GooseDefaults {
            manager_bind_host: after.manager_bind_host,
            ..before
        }) && option_text(after.manager_bind_host) == Some(value),
        GooseDefault::ManagerHost => after == (GooseDefaults {
            manager_host: after.manager_host,
            ..before
        }) && option_text(after.manager_host) == Some(value),
        _ => after == before,
    }
}

/// The defaults with the number `value` set for `key`; a level or a port
/// is cut to its width.
pub open spec fn number_default_set(
    before: GooseDefaults,
    key: GooseDefault,
    value: usize,
) -> GooseDefaults {
    match key {
        GooseDefault::Users => GooseDefaults { users: Some(value), ..before },
        GooseDefault::HatchRate => GooseDefaults { hatch_rate: Some(value), ..before },
        GooseDefault::RunTime => GooseDefaults { run_time: Some(value), ..before },
        GooseDefault::LogLevel => GooseDefaults { log_level: Some(value as u8), ..before },
        GooseDefault::Verbose => GooseDefaults { verbose: Some(value as u8), ..before },
        GooseDefault::ThrottleRequests => GooseDefaults { throttle_requests: Some(value), ..before },
        GooseDefault::ExpectWorkers => GooseDefaults { expect_workers: Some(value as u16), ..before },
        GooseDefault::ManagerBindPort => GooseDefaults {
            manager_bind_port: Some(value as u16),
            ..before
        },
        GooseDefault::ManagerPort => GooseDefaults { manager_port: Some(value as u16), ..before },
        _ => before,
    }
}

/// The defaults with the flag `value` set for `key`.
pub open spec fn flag_default_set(
    before: GooseDefaults,
    key: GooseDefault,
    value: bool,
) -> GooseDefaults {
    match key {
        GooseDefault::OnlySummary => GooseDefaults { only_summary: Some(value), ..before },
        GooseDefault::NoResetMetrics => GooseDefaults { no_reset_metrics: Some(value), ..before },
        GooseDefault::NoMetrics => GooseDefaults { no_metrics: Some(value), ..before },
        GooseDefault::NoTaskMetrics => GooseDefaults { no_task_metrics: Some(value), ..before },
        GooseDefault::StatusCodes => GooseDefaults { status_codes: Some(value), ..before },
        GooseDefault::StickyFollow => GooseDefaults { sticky_follow: Some(value), ..before },
        GooseDefault::Manager => GooseDefaults { manager: Some(value), ..before },
        GooseDefault::NoHashCheck => GooseDefaults { no_hash_check: Some(value), ..before },
        GooseDefault::Worker => GooseDefaults { worker: Some(value), ..before },
        _ => before,
    }
}

/// Sets a default of a load test. A default is a text, a number or a
/// flag, and takes a value of its own type alone.
pub trait GooseDefaultType<T>: Sized {
    /// Whether the default named by `key` takes a value of this type.
    spec fn takes(key: GooseDefault) -> bool;

    /// `after` is `before` with `value` set as the default for `key`.
    spec fn default_set(before: Self, key: GooseDefault, value: T, after: Self) -> bool;

    /// Sets `value` as the default for `key`.
    fn set_default(self, key: GooseDefault, value: T) -> (r: Self)
        requires
            Self::takes(key),
        ensures
            Self::default_set(self, key, value, r),
    ;
}

impl<'a> GooseDefaultType<&'a str> for GooseAttack {
    open spec fn takes(key: GooseDefault) -> bool {
        takes_text(key)
    }

    open spec fn default_set(before: Self, key: GooseDefault, value: &'a str, after: Self) -> bool {
        &&& after == (GooseAttack { defaults: after.defaults, ..before })
        &&& text_default_set(before.defaults, key, value@, after.defaults)
    }

    fn set_default(self, key: GooseDefault, value: &'a str) -> (r: Self) {
        let mut attack = self;
        match key {
            GooseDefault::Host => {
                attack.defaults.host = Some(String::from_str(value));
            },
            GooseDefault::LogFile => {
                attack.defaults.log_file = Some(String::from_str(value));
            },
            GooseDefault::MetricsFile => {
                attack.defaults.metrics_file = Some(String::from_str(value));
            },
            GooseDefault::MetricsFormat => {
                attack.defaults.metrics_format = Some(String::from_str(value));
            },
            GooseDefault::DebugFile => {
                attack.defaults.debug_file = Some(String::from_str(value));
            },
            GooseDefault::DebugFormat => {
                attack.defaults.debug_format = Some(String::from_str(value));
            },
            GooseDefault::ManagerBindHost => {
                attack.defaults.manager_bind_host = Some(String::from_str(value));
            },
            GooseDefault::ManagerHost => {
                attack.defaults.manager_host = Some(String::from_str(value));
            },
            _ => {},
        }
        attack
    }
}

impl GooseDefaultType<usize> for GooseAttack {
    open spec fn takes(key: GooseDefault) -> bool {
        takes_number(key)
    }

    open spec fn default_set(before: Self, key: GooseDefault, value: usize, after: Self) -> bool {
        after == (GooseAttack { defaults: number_default_set(before.defaults, key, value), ..before })
    }

    fn set_default(self, key: GooseDefault, value: usize) -> (r: Self) {
        let mut attack = self;
        match key {
            GooseDefault::Users => {
                attack.defaults.users = Some(value);
            },
            GooseDefault::HatchRate => {
                attack.defaults.hatch_rate = Some(value);
            },
            GooseDefault::RunTime => {
                attack.defaults.run_time = Some(value);
            },
            GooseDefault::LogLevel => {
                attack.defaults.log_level = Some(
                    #[verifier::truncate]
                    (value as u8),
                );
            },
            GooseDefault::Verbose => {
                attack.defaults.verbose = Some(
                    #[verifier::truncate]
                    (value as u8),
                );
            },
            GooseDefault::ThrottleRequests => {
                attack.defaults.throttle_requests = Some(value);
            },
            GooseDefault::ExpectWorkers => {
                attack.defaults.expect_workers = Some(
                    #[verifier::truncate]
                    (value as u16),
                );
            },
            GooseDefault::ManagerBindPort => {
                attack.defaults.manager_bind_port = Some(
                    #[verifier::truncate]
                    (value as u16),
                );
            },
            GooseDefault::ManagerPort => {
                attack.defaults.manager_port = Some(
                    #[verifier::truncate]
                    (value as u16),
                );
            },
            _ => {},
        }
        attack
    }
}

impl GooseDefaultType<bool> for GooseAttack {
    open spec fn takes(key: GooseDefault) -> bool {
        takes_flag(key)
    }

    open spec fn default_set(before: Self, key: GooseDefault, value: bool, after: Self) -> bool {
        after == (GooseAttack { defaults: flag_default_set(before.defaults, key, value), ..before })
    }

    fn set_default(self, key: GooseDefault, value: bool) -> (r: Self) {
        let mut attack = self;
        match key {
            GooseDefault::OnlySummary => {
                attack.defaults.only_summary = Some(value);
            },
            GooseDefault::NoResetMetrics => {
                attack.defaults.no_reset_metrics = Some(value);
            },
            GooseDefault::NoMetrics => {
                attack.defaults.no_metrics = Some(value);
            },
            GooseDefault::NoTaskMetrics => {
                attack.defaults.no_task_metrics = Some(value);
            },
            GooseDefault::StatusCodes => {
                attack.defaults.status_codes = Some(value);
            },
            GooseDefault::StickyFollow => {
                attack.defaults.sticky_follow = Some(value);
            },
            GooseDefault::Manager => {
                attack.defaults.manager = Some(value);
            },
            GooseDefault::NoHashCheck => {
                attack.defaults.no_hash_check = Some(value);
            },
            GooseDefault::Worker => {
                attack.defaults.worker = Some(value);
            },
            _ => {},
        }
        attack
    }
}

} // verus!
