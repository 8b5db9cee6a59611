use goose::attack::{GooseAttack, LogLevel};
use goose::config::{GooseConfiguration, GooseDefault, GooseMode};
use goose::defaults::GooseDefaultType;
use goose::error::GooseError;
use goose::goose::{GooseTask, GooseTaskSet};
use goose::hosts::{get_base_url, is_valid_host};

fn attack() -> GooseAttack {
    GooseAttack::initialize_with_config(GooseConfiguration::default())
}

fn task_set(name: &str) -> GooseTaskSet {
    GooseTaskSet::new(name).register_task(GooseTask::new().set_name("index"))
}

fn option_error(result: Result<(), GooseError>) -> (String, String, String) {
    match result {
        Err(GooseError::InvalidOption {
            option,
            value,
            detail,
        }) => (option, value, detail),
        other => panic!("expected an invalid option, got {:?}", other),
    }
}

#[test]
fn valid_host() {
    assert_eq!(is_valid_host("http://example.com").is_ok(), true);
    assert_eq!(is_valid_host("example.com").is_ok(), false);
    assert_eq!(is_valid_host("http://example.com/").is_ok(), true);
    assert_eq!(is_valid_host("example.com/").is_ok(), false);
    assert_eq!(
        is_valid_host("https://www.example.com/and/with/path").is_ok(),
        true
    );
    assert_eq!(
        is_valid_host("www.example.com/and/with/path").is_ok(),
        false
    );
    assert_eq!(is_valid_host("foo://example.com").is_ok(), true);
    assert_eq!(is_valid_host("file:///path/to/file").is_ok(), true);
    assert_eq!(is_valid_host("/path/to/file").is_ok(), false);
    assert_eq!(is_valid_host("http://").is_ok(), false);
    assert_eq!(is_valid_host("http://foo").is_ok(), true);
    assert_eq!(is_valid_host("http:///example.com").is_ok(), true);
    assert_eq!(is_valid_host("http:// example.com").is_ok(), false);
}

#[test]
fn valid_host_is_true_and_invalid_host_names_the_host() {
    assert_eq!(is_valid_host("http://example.com").unwrap(), true);
    match is_valid_host("example.com") {
        Err(GooseError::InvalidHost {
            host,
            detail,
            parse_error,
        }) => {
            assert_eq!(host, "example.com");
            assert_eq!(detail, "Invalid host.");
            assert_eq!(parse_error, url::ParseError::RelativeUrlWithoutBase);
        }
        other => panic!("expected an invalid host, got {:?}", other),
    }
}

#[test]
fn set_defaults() {
    let host = "http://example.com/".to_string();
    let users: usize = 10;
    let run_time: usize = 10;
    let hatch_rate: usize = 2;
    let log_level: usize = 1;
    let log_file = "custom-goose.log".to_string();
    let verbose: usize = 0;
    let metrics_file = "custom-goose-metrics.log".to_string();
    let metrics_format = "raw".to_string();
    let debug_file = "custom-goose-debug.log".to_string();
    let debug_format = "raw".to_string();
    let throttle_requests: usize = 25;
    let expect_workers: usize = 5;
    let manager_bind_host = "127.0.0.1".to_string();
    let manager_bind_port: usize = 1221;
    let manager_host = "127.0.0.1".to_string();
    let manager_port: usize = 1221;

    let goose_attack = attack()
        .set_default(GooseDefault::Host, host.as_str())
        .set_default(GooseDefault::Users, users)
        .set_default(GooseDefault::RunTime, run_time)
        .set_default(GooseDefault::HatchRate, hatch_rate)
        .set_default(GooseDefault::LogLevel, log_level)
        .set_default(GooseDefault::LogFile, log_file.as_str())
        .set_default(GooseDefault::Verbose, verbose)
        .set_default(GooseDefault::OnlySummary, true)
        .set_default(GooseDefault::NoResetMetrics, true)
        .set_default(GooseDefault::NoMetrics, true)
        .set_default(GooseDefault::NoTaskMetrics, true)
        .set_default(GooseDefault::MetricsFile, metrics_file.as_str())
        .set_default(GooseDefault::MetricsFormat, metrics_format.as_str())
        .set_default(GooseDefault::DebugFile, debug_file.as_str())
        .set_default(GooseDefault::DebugFormat, debug_format.as_str())
        .set_default(GooseDefault::StatusCodes, true)
        .set_default(GooseDefault::ThrottleRequests, throttle_requests)
        .set_default(GooseDefault::StickyFollow, true)
        .set_default(GooseDefault::Manager, true)
        .set_default(GooseDefault::ExpectWorkers, expect_workers)
        .set_default(GooseDefault::NoHashCheck, true)
        .set_default(GooseDefault::ManagerBindHost, manager_bind_host.as_str())
        .set_default(GooseDefault::ManagerBindPort, manager_bind_port)
        .set_default(GooseDefault::Worker, true)
        .set_default(GooseDefault::ManagerHost, manager_host.as_str())
        .set_default(GooseDefault::ManagerPort, manager_port);

    assert!(goose_attack.defaults.host == Some(host));
    assert!(goose_attack.defaults.users == Some(users));
    assert!(goose_attack.defaults.run_time == Some(run_time));
    assert!(goose_attack.defaults.hatch_rate == Some(hatch_rate));
    assert!(goose_attack.defaults.log_level == Some(log_level as u8));
    assert!(goose_attack.defaults.log_file == Some(log_file));
    assert!(goose_attack.defaults.verbose == Some(verbose as u8));
    assert!(goose_attack.defaults.only_summary == Some(true));
    assert!(goose_attack.defaults.no_reset_metrics == Some(true));
    assert!(goose_attack.defaults.no_metrics == Some(true));
    assert!(goose_attack.defaults.no_task_metrics == Some(true));
    assert!(goose_attack.defaults.metrics_file == Some(metrics_file));
    assert!(goose_attack.defaults.metrics_format == Some(metrics_format));
    assert!(goose_attack.defaults.debug_file == Some(debug_file));
    assert!(goose_attack.defaults.debug_format == Some(debug_format));
    assert!(goose_attack.defaults.status_codes == Some(true));
    assert!(goose_attack.defaults.throttle_requests == Some(throttle_requests));
    assert!(goose_attack.defaults.sticky_follow == Some(true));
    assert!(goose_attack.defaults.manager == Some(true));
    assert!(goose_attack.defaults.expect_workers == Some(expect_workers as u16));
    assert!(goose_attack.defaults.no_hash_check == Some(true));
    assert!(goose_attack.defaults.manager_bind_host == Some(manager_bind_host));
    assert!(goose_attack.defaults.manager_bind_port == Some(manager_bind_port as u16));
    assert!(goose_attack.defaults.worker == Some(true));
    assert!(goose_attack.defaults.manager_host == Some(manager_host));
    assert!(goose_attack.defaults.manager_port == Some(manager_port as u16));
}

#[test]
fn a_number_default_is_cut_to_its_width() {
    let goose_attack = attack()
        .set_default(GooseDefault::ManagerPort, 65536usize + 80)
        .set_default(GooseDefault::LogLevel, 257usize);
    assert_eq!(goose_attack.defaults.manager_port, Some(80));
    assert_eq!(goose_attack.defaults.log_level, Some(1));
}

#[test]
fn a_fresh_attack_has_nothing_set() {
    let goose_attack = attack();
    assert_eq!(goose_attack.attack_mode, GooseMode::Undefined);
    assert_eq!(goose_attack.users, 0);
    assert_eq!(goose_attack.run_time, 0);
    assert_eq!(goose_attack.hatch_rate, 0);
    assert_eq!(goose_attack.throttle_requests, 0);
    assert!(goose_attack.task_sets.is_empty());
    assert!(goose_attack.weighted_users.is_empty());
    assert!(goose_attack.defaults.host.is_none());
    let other = GooseAttack::with_cpus(GooseConfiguration::default(), 7);
    assert_eq!(other.number_of_cpus, 7);
}

#[test]
fn register_taskset_numbers_the_task_sets() {
    let goose_attack = attack()
        .register_taskset(task_set("first"))
        .register_taskset(task_set("second"));
    assert_eq!(goose_attack.task_sets.len(), 2);
    assert_eq!(goose_attack.task_sets[0].task_sets_index, 0);
    assert_eq!(goose_attack.task_sets[1].task_sets_index, 1);
    assert_eq!(goose_attack.task_sets[1].name, "second");
}

#[test]
fn test_start_and_test_stop_keep_their_task() {
    let goose_attack = attack()
        .test_start(GooseTask::new().set_name("setup"))
        .test_stop(GooseTask::new().set_name("teardown"));
    assert_eq!(goose_attack.test_start_task.unwrap().name, "setup");
    assert_eq!(goose_attack.test_stop_task.unwrap().name, "teardown");
}

#[test]
fn setup_rejects_no_metrics_with_what_needs_metrics() {
    let mut configuration = GooseConfiguration::default();
    configuration.no_metrics = true;
    configuration.status_codes = true;
    match GooseAttack::with_cpus(configuration, 1).setup() {
        Err(GooseError::InvalidOption {
            option,
            value,
            detail,
        }) => {
            assert_eq!(option, "--no-metrics");
            assert_eq!(value, "true");
            assert_eq!(
                detail,
                "The --no-metrics flag can not be set together with the --status-codes flag."
            );
        }
        other => panic!("expected an invalid option, got {:?}", other.map(|_| ())),
    }

    let mut configuration = GooseConfiguration::default();
    configuration.no_metrics = true;
    configuration.only_summary = true;
    assert!(matches!(
        GooseAttack::with_cpus(configuration, 1).setup(),
        Err(GooseError::InvalidOption { .. })
    ));

    let mut configuration = GooseConfiguration::default();
    configuration.no_metrics = true;
    configuration.metrics_file = "metrics.log".to_string();
    assert!(matches!(
        GooseAttack::with_cpus(configuration, 1).setup(),
        Err(GooseError::InvalidOption { .. })
    ));

    let mut configuration = GooseConfiguration::default();
    configuration.no_metrics = true;
    assert!(GooseAttack::with_cpus(configuration, 1).setup().is_ok());
}

#[test]
fn attack_mode_by_flags_and_defaults() {
    let mut standalone = attack();
    assert!(standalone.set_attack_mode().is_ok());
    assert_eq!(standalone.attack_mode, GooseMode::StandAlone);

    let mut manager = attack();
    manager.configuration.manager = true;
    assert!(manager.set_attack_mode().is_ok());
    assert_eq!(manager.attack_mode, GooseMode::Manager);

    let mut worker = attack();
    worker.configuration.worker = true;
    assert!(worker.set_attack_mode().is_ok());
    assert_eq!(worker.attack_mode, GooseMode::Worker);

    let mut by_default = attack().set_default(GooseDefault::Manager, true);
    assert!(by_default.set_attack_mode().is_ok());
    assert_eq!(by_default.attack_mode, GooseMode::Manager);

    // The flag of the other mode wins over a default.
    let mut flag_wins = attack().set_default(GooseDefault::Manager, true);
    flag_wins.configuration.worker = true;
    assert!(flag_wins.set_attack_mode().is_ok());
    assert_eq!(flag_wins.attack_mode, GooseMode::Worker);
}

#[test]
fn attack_mode_conflicts() {
    let mut both_defaults = attack()
        .set_default(GooseDefault::Manager, true)
        .set_default(GooseDefault::Worker, true);
    let (option, value, _) = option_error(both_defaults.set_attack_mode());
    assert_eq!(option, "GooseDefault::Worker");
    assert_eq!(value, "true");
    assert_eq!(both_defaults.attack_mode, GooseMode::Undefined);

    let mut both_flags = attack();
    both_flags.configuration.manager = true;
    both_flags.configuration.worker = true;
    let (option, _, detail) = option_error(both_flags.set_attack_mode());
    assert_eq!(option, "--worker");
    assert_eq!(
        detail,
        "The --worker flag can not be set together with the --manager flag"
    );

    let mut manager_debug = attack();
    manager_debug.configuration.manager = true;
    manager_debug.configuration.debug_file = "debug.log".to_string();
    let (option, value, _) = option_error(manager_debug.set_attack_mode());
    assert_eq!(option, "--debug-file");
    assert_eq!(value, "debug.log");

    let mut worker_host = attack();
    worker_host.configuration.worker = true;
    worker_host.configuration.host = "http://example.com".to_string();
    let (option, value, _) = option_error(worker_host.set_attack_mode());
    assert_eq!(option, "--host");
    assert_eq!(value, "http://example.com");

    let mut worker_no_metrics = attack();
    worker_no_metrics.configuration.worker = true;
    worker_no_metrics.configuration.no_metrics = true;
    assert_eq!(
        option_error(worker_no_metrics.set_attack_mode()).0,
        "--no-metrics"
    );

    let mut worker_metrics_file = attack();
    worker_metrics_file.configuration.worker = true;
    worker_metrics_file.configuration.metrics_file = "metrics.log".to_string();
    assert_eq!(
        option_error(worker_metrics_file.set_attack_mode()).0,
        "--metrics-file"
    );

    let mut lone_hash_check = attack();
    lone_hash_check.configuration.no_hash_check = true;
    let (option, _, detail) = option_error(lone_hash_check.set_attack_mode());
    assert_eq!(option, "--no-hash-check");
    assert_eq!(
        detail,
        "The --no-hash-check flag can not be set without also setting the --manager flag."
    );
}

#[test]
fn users_from_option_default_or_cpus() {
    let mut by_option = attack();
    by_option.attack_mode = GooseMode::StandAlone;
    by_option.configuration.users = Some(12);
    assert!(by_option.set_users().is_ok());
    assert_eq!(by_option.users, 12);

    let mut by_default = attack().set_default(GooseDefault::Users, 4usize);
    by_default.attack_mode = GooseMode::StandAlone;
    assert!(by_default.set_users().is_ok());
    assert_eq!(by_default.users, 4);

    let mut by_cpus = GooseAttack::with_cpus(GooseConfiguration::default(), 3);
    by_cpus.attack_mode = GooseMode::StandAlone;
    assert!(by_cpus.set_users().is_ok());
    assert_eq!(by_cpus.users, 3);

    let mut none = attack();
    none.attack_mode = GooseMode::StandAlone;
    none.configuration.users = Some(0);
    let (option, value, detail) = option_error(none.set_users());
    assert_eq!(option, "--users");
    assert_eq!(value, "0");
    assert_eq!(detail, "The --users option must be set to at least 1.");

    let mut worker = attack();
    worker.attack_mode = GooseMode::Worker;
    worker.configuration.users = Some(2);
    assert_eq!(option_error(worker.set_users()).0, "--users");
}

#[test]
fn expect_workers_larger_than_users_is_rejected() {
    let mut manager = attack();
    manager.attack_mode = GooseMode::Manager;
    manager.users = 2;
    manager.configuration.expect_workers = 3;
    let (option, value, detail) = option_error(manager.set_expect_workers());
    assert_eq!(option, "--expect-workers");
    assert_eq!(value, "3");
    assert_eq!(
        detail,
        "The --expect-workers option can not be set to a value larger than --users option."
    );

    // As many Workers as users are fine.
    let mut manager = attack();
    manager.attack_mode = GooseMode::Manager;
    manager.users = 2;
    manager.configuration.expect_workers = 2;
    assert!(manager.set_expect_workers().is_ok());
    assert_eq!(manager.configuration.expect_workers, 2);
}

#[test]
fn expect_workers_needs_a_manager_and_a_manager_needs_workers() {
    let mut standalone = attack();
    standalone.attack_mode = GooseMode::StandAlone;
    standalone.users = 5;
    standalone.configuration.expect_workers = 1;
    let (_, _, detail) = option_error(standalone.set_expect_workers());
    assert_eq!(
        detail,
        "The --expect-workers flag can not be set without also setting the --manager flag."
    );

    let mut manager = attack();
    manager.attack_mode = GooseMode::Manager;
    manager.users = 5;
    let (_, value, detail) = option_error(manager.set_expect_workers());
    assert_eq!(value, "0");
    assert_eq!(
        detail,
        "The --expect-workers option must be set to at least 1."
    );

    let mut by_default = attack().set_default(GooseDefault::ExpectWorkers, 4usize);
    by_default.attack_mode = GooseMode::Manager;
    by_default.users = 5;
    assert!(by_default.set_expect_workers().is_ok());
    assert_eq!(by_default.configuration.expect_workers, 4);
}

#[test]
fn gaggle_addresses_default_by_mode() {
    let mut manager = attack();
    manager.attack_mode = GooseMode::Manager;
    assert!(manager.set_gaggle_host_and_port().is_ok());
    assert_eq!(manager.configuration.manager_bind_host, "0.0.0.0");
    assert_eq!(manager.configuration.manager_bind_port, 5115);
    assert_eq!(manager.configuration.manager_host, "");
    assert_eq!(manager.configuration.manager_port, 0);

    let mut worker = attack();
    worker.attack_mode = GooseMode::Worker;
    assert!(worker.set_gaggle_host_and_port().is_ok());
    assert_eq!(worker.configuration.manager_host, "127.0.0.1");
    assert_eq!(worker.configuration.manager_port, 5115);
    assert_eq!(worker.configuration.manager_bind_host, "");

    let mut by_default = attack()
        .set_default(GooseDefault::ManagerBindHost, "10.0.0.1")
        .set_default(GooseDefault::ManagerBindPort, 1221usize);
    by_default.attack_mode = GooseMode::Manager;
    assert!(by_default.set_gaggle_host_and_port().is_ok());
    assert_eq!(by_default.configuration.manager_bind_host, "10.0.0.1");
    assert_eq!(by_default.configuration.manager_bind_port, 1221);

    let mut standalone = attack();
    standalone.attack_mode = GooseMode::StandAlone;
    standalone.configuration.manager_bind_port = 99;
    let (option, value, _) = option_error(standalone.set_gaggle_host_and_port());
    assert_eq!(option, "--manager-bind-port");
    assert_eq!(value, "99");

    let mut standalone = attack();
    standalone.attack_mode = GooseMode::StandAlone;
    standalone.configuration.manager_host = "1.2.3.4".to_string();
    assert_eq!(
        option_error(standalone.set_gaggle_host_and_port()).0,
        "--manager-host"
    );
}

#[test]
fn run_time_zero_or_unset_is_no_limit() {
    let mut unset = attack();
    unset.attack_mode = GooseMode::StandAlone;
    assert!(unset.set_run_time().is_ok());
    assert_eq!(unset.run_time, 0);

    let mut zero = attack();
    zero.attack_mode = GooseMode::StandAlone;
    zero.configuration.run_time = "0".to_string();
    assert!(zero.set_run_time().is_ok());
    assert_eq!(zero.run_time, 0);

    let mut span = attack();
    span.attack_mode = GooseMode::StandAlone;
    span.configuration.run_time = "1h30m".to_string();
    assert!(span.set_run_time().is_ok());
    assert_eq!(span.run_time, 5400);

    let mut by_default = attack().set_default(GooseDefault::RunTime, 20usize);
    by_default.attack_mode = GooseMode::StandAlone;
    assert!(by_default.set_run_time().is_ok());
    assert_eq!(by_default.run_time, 20);

    let mut worker = attack();
    worker.attack_mode = GooseMode::Worker;
    worker.configuration.run_time = "30s".to_string();
    assert_eq!(option_error(worker.set_run_time()).0, "--run-time");
}

#[test]
fn hatch_rate_is_at_least_one() {
    let mut by_option = attack();
    by_option.attack_mode = GooseMode::StandAlone;
    by_option.configuration.hatch_rate = 3;
    assert!(by_option.set_hatch_rate().is_ok());
    assert_eq!(by_option.hatch_rate, 3);

    let mut none = attack();
    none.attack_mode = GooseMode::StandAlone;
    let (option, value, detail) = option_error(none.set_hatch_rate());
    assert_eq!(option, "--hatch-rate");
    assert_eq!(value, "0");
    assert_eq!(detail, "The --hatch-rate option must be set to at least 1.");

    let mut worker = attack();
    worker.attack_mode = GooseMode::Worker;
    worker.configuration.hatch_rate = 1;
    assert_eq!(option_error(worker.set_hatch_rate()).0, "--hatch-rate");
}

#[test]
fn throttle_requests_outside_of_its_range_is_rejected() {
    let mut zero = attack();
    zero.attack_mode = GooseMode::StandAlone;
    zero.configuration.throttle_requests = Some(0);
    let (option, value, detail) = option_error(zero.set_throttle_requests());
    assert_eq!(option, "--throttle-requests");
    assert_eq!(value, "0");
    assert_eq!(
        detail,
        "The --throttle-requests option must be set to at least 1 request per second."
    );

    let mut too_many = attack();
    too_many.attack_mode = GooseMode::StandAlone;
    too_many.configuration.throttle_requests = Some(1_000_001);
    let (_, value, detail) = option_error(too_many.set_throttle_requests());
    assert_eq!(value, "1000001");
    assert_eq!(
        detail,
        "The --throttle-requests option can not be set to more than 1,000,000 requests per second."
    );

    for allowed in [1usize, 25, 1_000_000] {
        let mut fine = attack();
        fine.attack_mode = GooseMode::StandAlone;
        fine.configuration.throttle_requests = Some(allowed);
        assert!(fine.set_throttle_requests().is_ok());
        assert_eq!(fine.throttle_requests, allowed);
    }

    let mut unset = attack();
    unset.attack_mode = GooseMode::StandAlone;
    assert!(unset.set_throttle_requests().is_ok());
    assert_eq!(unset.throttle_requests, 0);
}

#[test]
fn throttle_requests_on_a_manager_and_by_default() {
    let mut manager = attack();
    manager.attack_mode = GooseMode::Manager;
    manager.configuration.throttle_requests = Some(10);
    assert_eq!(
        option_error(manager.set_throttle_requests()).0,
        "--throttle-requests"
    );

    let mut bad_default = attack().set_default(GooseDefault::ThrottleRequests, 2_000_000usize);
    bad_default.attack_mode = GooseMode::StandAlone;
    assert_eq!(
        option_error(bad_default.set_throttle_requests()).0,
        "GooseDefault::ThrottleRequests"
    );

    let mut zero_default = attack().set_default(GooseDefault::ThrottleRequests, 0usize);
    zero_default.attack_mode = GooseMode::StandAlone;
    assert_eq!(
        option_error(zero_default.set_throttle_requests()).2,
        "The GooseDefault::ThrottleRequests default must be set to at least 1 request per second."
    );

    let mut manager_default = attack().set_default(GooseDefault::ThrottleRequests, 10usize);
    manager_default.attack_mode = GooseMode::Manager;
    assert!(manager_default.set_throttle_requests().is_ok());
    assert_eq!(manager_default.throttle_requests, 0);
}

#[test]
fn metrics_format_defaults_to_json_and_is_checked() {
    let mut unset = attack();
    unset.attack_mode = GooseMode::StandAlone;
    assert!(unset.set_metrics_format().is_ok());
    assert_eq!(unset.configuration.metrics_format, "json");

    let mut csv = attack();
    csv.attack_mode = GooseMode::StandAlone;
    csv.configuration.metrics_file = "metrics.log".to_string();
    csv.configuration.metrics_format = "csv".to_string();
    assert!(csv.set_metrics_format().is_ok());
    assert_eq!(csv.configuration.metrics_format, "csv");

    let mut unknown = attack();
    unknown.attack_mode = GooseMode::StandAlone;
    unknown.configuration.metrics_file = "metrics.log".to_string();
    unknown.configuration.metrics_format = "xml".to_string();
    let (option, value, detail) = option_error(unknown.set_metrics_format());
    assert_eq!(option, "--metrics-format");
    assert_eq!(value, "xml");
    assert_eq!(
        detail,
        "The --metrics-format option must be set to one of: json, csv, raw."
    );
    assert_eq!(unknown.configuration.metrics_format, "xml");

    let mut no_file = attack();
    no_file.attack_mode = GooseMode::StandAlone;
    no_file.configuration.metrics_format = "csv".to_string();
    assert_eq!(
        option_error(no_file.set_metrics_format()).2,
        "The --metrics-file option must be set together with the --metrics-format option."
    );

    let mut no_metrics = attack();
    no_metrics.attack_mode = GooseMode::StandAlone;
    no_metrics.configuration.no_metrics = true;
    no_metrics.configuration.metrics_format = "csv".to_string();
    assert_eq!(option_error(no_metrics.set_metrics_format()).0, "--no-metrics");
}

#[test]
fn a_manager_takes_the_options_of_the_metrics_file() {
    let mut manager = attack();
    manager.attack_mode = GooseMode::Manager;
    manager.configuration.metrics_file = "metrics.log".to_string();
    manager.configuration.metrics_format = "csv".to_string();
    assert!(manager.set_metrics_format().is_ok());
    assert_eq!(manager.configuration.metrics_format, "csv");
    // It writes no metrics file, though.
    assert_eq!(manager.get_metrics_file_path().unwrap(), None);
    let mut by_default = attack().set_default(GooseDefault::MetricsFile, "default.log");
    by_default.attack_mode = GooseMode::StandAlone;
    by_default.configuration.metrics_format = "raw".to_string();
    assert!(by_default.set_metrics_format().is_ok());
}

#[test]
fn debug_format_defaults_to_json_and_is_checked() {
    let mut unset = attack();
    assert!(unset.set_debug_format().is_ok());
    assert_eq!(unset.configuration.debug_format, "json");

    let mut raw = attack();
    raw.configuration.debug_file = "debug.log".to_string();
    raw.configuration.debug_format = "raw".to_string();
    assert!(raw.set_debug_format().is_ok());

    let mut csv = attack();
    csv.configuration.debug_file = "debug.log".to_string();
    csv.configuration.debug_format = "csv".to_string();
    let (option, value, detail) = option_error(csv.set_debug_format());
    assert_eq!(option, "--debug-format");
    assert_eq!(value, "csv");
    assert_eq!(
        detail,
        "The --debug-format option must be set to one of: json, raw."
    );

    let mut no_file = attack();
    no_file.configuration.debug_format = "raw".to_string();
    assert_eq!(
        option_error(no_file.set_debug_format()).2,
        "The --debug-file option must be set together with the --debug-format option."
    );
}

#[test]
fn file_paths_by_option_default_and_mode() {
    let mut goose_attack = attack()
        .set_default(GooseDefault::MetricsFile, "default-metrics.log")
        .set_default(GooseDefault::DebugFile, "default-debug.log");
    goose_attack.attack_mode = GooseMode::StandAlone;
    assert_eq!(
        goose_attack.get_metrics_file_path().unwrap(),
        Some("default-metrics.log")
    );
    assert_eq!(
        goose_attack.get_debug_file_path().unwrap(),
        Some("default-debug.log")
    );
    goose_attack.configuration.metrics_file = "metrics.log".to_string();
    goose_attack.configuration.debug_file = "debug.log".to_string();
    assert_eq!(
        goose_attack.get_metrics_file_path().unwrap(),
        Some("metrics.log")
    );
    assert_eq!(goose_attack.get_debug_file_path().unwrap(), Some("debug.log"));
    goose_attack.attack_mode = GooseMode::Manager;
    assert_eq!(goose_attack.get_metrics_file_path().unwrap(), None);
    assert_eq!(goose_attack.get_debug_file_path().unwrap(), None);
    goose_attack.attack_mode = GooseMode::Worker;
    goose_attack.configuration.no_metrics = true;
    assert_eq!(goose_attack.get_metrics_file_path().unwrap(), None);
    assert_eq!(goose_attack.get_debug_file_path().unwrap(), Some("debug.log"));
}

#[test]
fn no_reset_metrics_and_no_hash_check() {
    let mut goose_attack = attack()
        .set_default(GooseDefault::NoResetMetrics, true)
        .set_default(GooseDefault::NoHashCheck, true);
    goose_attack.attack_mode = GooseMode::StandAlone;
    assert_eq!(goose_attack.no_reset_metrics().unwrap(), true);
    assert_eq!(goose_attack.no_hash_check(), true);
    // A Worker ignores the defaults.
    goose_attack.attack_mode = GooseMode::Worker;
    assert_eq!(goose_attack.no_reset_metrics().unwrap(), false);
    assert_eq!(goose_attack.no_hash_check(), false);
    goose_attack.configuration.no_reset_metrics = true;
    goose_attack.configuration.no_hash_check = true;
    assert_eq!(goose_attack.no_reset_metrics().unwrap(), true);
    assert_eq!(goose_attack.no_hash_check(), true);
    assert_eq!(attack().no_reset_metrics().unwrap(), false);
}

#[test]
fn configuration_host_is_none_when_empty() {
    let mut goose_attack = attack();
    assert_eq!(goose_attack.get_configuration_host(), None);
    goose_attack.configuration.host = "http://example.com".to_string();
    assert_eq!(
        goose_attack.get_configuration_host(),
        Some("http://example.com".to_string())
    );
}

#[test]
fn logger_plan_by_flags_and_defaults() {
    let mut goose_attack = attack()
        .set_default(GooseDefault::LogLevel, 2usize)
        .set_default(GooseDefault::LogFile, "default.log");
    let plan = goose_attack.logger_plan();
    assert_eq!(plan.debug_level, LogLevel::Warn);
    assert_eq!(plan.log_level, LogLevel::Debug);
    assert_eq!(plan.log_file, Some("default.log".to_string()));
    goose_attack.configuration.verbose = 1;
    goose_attack.configuration.log_level = 3;
    goose_attack.configuration.log_file = "goose.log".to_string();
    let plan = goose_attack.logger_plan();
    assert_eq!(plan.debug_level, LogLevel::Info);
    assert_eq!(plan.log_level, LogLevel::Trace);
    assert_eq!(plan.log_file, Some("goose.log".to_string()));
    let plan = attack().logger_plan();
    assert_eq!(plan.log_level, LogLevel::Warn);
    assert_eq!(plan.log_file, None);
}

#[test]
fn base_url_prefers_the_host_of_the_task_set() {
    let set_host = Some("http://set.example.com".to_string());
    let option_host = Some("http://option.example.com".to_string());
    let default_host = Some("http://default.example.com".to_string());
    assert_eq!(
        get_base_url("users", &set_host, &option_host, &default_host).unwrap(),
        "http://set.example.com"
    );
    assert_eq!(
        get_base_url("users", &None, &option_host, &default_host).unwrap(),
        "http://option.example.com"
    );
    assert_eq!(
        get_base_url("users", &None, &None, &default_host).unwrap(),
        "http://default.example.com"
    );
    match get_base_url("users", &None, &None, &None) {
        Err(GooseError::InvalidOption {
            option,
            value,
            detail,
        }) => {
            assert_eq!(option, "--host");
            assert_eq!(value, "");
            assert_eq!(detail, "A host must be defined via the --host option, the GooseAttack.set_default() function, or the GooseTaskSet.set_host() function (no host defined for users).");
        }
        other => panic!("expected an invalid option, got {:?}", other),
    }
    assert!(matches!(
        get_base_url("users", &Some("example.com".to_string()), &option_host, &None),
        Err(GooseError::InvalidHost { .. })
    ));
}
