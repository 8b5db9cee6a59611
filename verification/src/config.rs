//! The options of a load test: what the command line gives, and the
//! defaults a load test may set for what it leaves out.

use vstd::prelude::*;

verus! {

/// A load test operates in only one mode.
#[derive(Clone, Copy, Debug, PartialEq, Eq, Structural)]
pub enum GooseMode {
    /// A mode has not yet been assigned.
    Undefined,
    /// A single standalone process performing a load test.
    StandAlone,
    /// The controlling process in a distributed load test.
    Manager,
    /// One of one or more working processes in a distributed load test.
    Worker,
}

/// Optional default values for the run-time options.
#[derive(Clone, Debug, Default)]
pub struct GooseDefaults {
    /// An optional default host to run this load test against.
    pub host: Option<String>,
    /// An optional default number of users to simulate.
    pub users: Option<usize>,
    /// An optional default number of clients to start per second.
    pub hatch_rate: Option<usize>,
    /// An optional default number of seconds for the test to run.
    pub run_time: Option<usize>,
    /// An optional default log level.
    pub log_level: Option<u8>,
    /// An optional default for the log file name.
    pub log_file: Option<String>,
    /// An optional default value for verbosity level.
    pub verbose: Option<u8>,
    /// An optional default for only printing final summary metrics.
    pub only_summary: Option<bool>,
    /// An optional default for not resetting metrics after all users started.
    pub no_reset_metrics: Option<bool>,
    /// An optional default for not tracking metrics.
    pub no_metrics: Option<bool>,
    /// An optional default for not tracking task metrics.
    pub no_task_metrics: Option<bool>,
    /// An optional default for the metrics log file name.
    pub metrics_file: Option<String>,
    /// An optional default for the metrics log file format.
    pub metrics_format: Option<String>,
    /// An optional default for the debug log file name.
    pub debug_file: Option<String>,
    /// An optional default for the debug log format.
    pub debug_format: Option<String>,
    /// An optional default to track additional status code metrics.
    pub status_codes: Option<bool>,
    /// An optional default maximum requests per second.
    pub throttle_requests: Option<usize>,
    /// An optional default to follow a redirect of the base url with
    /// subsequent requests.
    pub sticky_follow: Option<bool>,
    /// An optional default to enable Manager mode.
    pub manager: Option<bool>,
    /// An optional default for number of Workers to expect.
    pub expect_workers: Option<u16>,
    /// An optional default for Manager to ignore load test checksum.
    pub no_hash_check: Option<bool>,
    /// An optional default for host Manager listens on.
    pub manager_bind_host: Option<String>,
    /// An optional default for port Manager listens on.
    pub manager_bind_port: Option<u16>,
    /// An optional default to enable Worker mode.
    pub worker: Option<bool>,
    /// An optional default for host Worker connects to.
    pub manager_host: Option<String>,
    /// An optional default for port Worker connects to.
    pub manager_port: Option<u16>,
}

/// The names of the defaults that a load test can set.
#[derive(Clone, Copy, Debug, PartialEq, Eq, Structural)]
pub enum GooseDefault {
    /// An optional default host to run this load test against.
    Host,
    /// An optional default number of users to simulate.
    Users,
    /// An optional default number of clients to start per second.
    HatchRate,
    /// An optional default number of seconds for the test to run.
    RunTime,
    /// An optional default log level.
    LogLevel,
    /// An optional default for the log file name.
    LogFile,
    /// An optional default value for verbosity level.
    Verbose,
    /// An optional default for only printing final summary metrics.
    OnlySummary,
    /// An optional default for not resetting metrics after all users started.
    NoResetMetrics,
    /// An optional default for not tracking metrics.
    NoMetrics,
    /// An optional default for not tracking task metrics.
    NoTaskMetrics,
    /// An optional default for the metrics log file name.
    MetricsFile,
    /// An optional default for the metrics log file format.
    MetricsFormat,
    /// An optional default for the debug log file name.
    DebugFile,
    /// An optional default for the debug log format.
    DebugFormat,
    /// An optional default to track additional status code metrics.
    StatusCodes,
    /// An optional default maximum requests per second.
    ThrottleRequests,
    /// An optional default to follow a redirect of the base url with
    /// subsequent requests.
    StickyFollow,
    /// An optional default to enable Manager mode.
    Manager,
    /// An optional default for number of Workers to expect.
    ExpectWorkers,
    /// An optional default for Manager to ignore load test checksum.
    NoHashCheck,
    /// An optional default for host Manager listens on.
    ManagerBindHost,
    /// An optional default for port Manager listens on.
    ManagerBindPort,
    /// An optional default to enable Worker mode.
    Worker,
    /// An optional default for host Worker connects to.
    ManagerHost,
    /// An optional default for port Worker connects to.
    ManagerPort,
}

/// Options available when launching a load test. A text option that was
/// not given is empty, a number that was not given is zero.
#[derive(Debug, Default, Clone)]
pub struct GooseConfiguration {
    /// Displays the help.
    pub help: bool,
    /// Prints version information.
    pub version: bool,
    /// Lists all tasks and exits.
    pub list: bool,
    /// Defines host to load test (ie http://10.21.32.33).
    pub host: String,
    /// Sets concurrent users (default: number of CPUs).
    pub users: Option<usize>,
    /// Sets per-second user hatch rate.
    pub hatch_rate: usize,
    /// Stops after (30s, 20m, 3h, 1h30m, etc).
    pub run_time: String,
    /// Sets log level.
    pub log_level: u8,
    /// Enables log file and sets name.
    pub log_file: String,
    /// Sets debug level.
    pub verbose: u8,
    /// Only prints final summary metrics.
    pub only_summary: bool,
    /// Doesn't reset metrics after all users have started.
    pub no_reset_metrics: bool,
    /// Doesn't track metrics.
    pub no_metrics: bool,
    /// Doesn't track task metrics.
    pub no_task_metrics: bool,
    /// Sets metrics log file name.
    pub metrics_file: String,
    /// Sets metrics log format (csv, json, raw).
    pub metrics_format: String,
    /// Sets debug log file name.
    pub debug_file: String,
    /// Sets debug log format (json, raw).
    pub debug_format: String,
    /// Tracks additional status code metrics.
    pub status_codes: bool,
    /// Sets maximum requests per second.
    pub throttle_requests: Option<usize>,
    /// Follows base_url redirect with subsequent requests.
    pub sticky_follow: bool,
    /// Enables distributed load test Manager mode.
    pub manager: bool,
    /// Sets number of Workers to expect.
    pub expect_workers: u16,
    /// Tells Manager to ignore load test checksum.
    pub no_hash_check: bool,
    /// Sets host Manager listens on (default: 0.0.0.0).
    pub manager_bind_host: String,
    /// Sets port Manager listens on (default: 5115).
    pub manager_bind_port: u16,
    /// Enables distributed load test Worker mode.
    pub worker: bool,
    /// Sets host Worker connects to (default: 127.0.0.1).
    pub manager_host: String,
    /// Sets port Worker connects to (default: 5115).
    pub manager_port: u16,
}

} // verus!
