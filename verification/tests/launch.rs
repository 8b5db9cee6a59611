use goose::attack::GooseAttack;
use goose::config::{GooseConfiguration, GooseDefault, GooseMode};
use goose::defaults::GooseDefaultType;
use goose::error::{exit_code, GooseError};
use goose::redirect::{moved_base_url, site, sticky_base_url};
use goose::goose::{GooseMethod, GooseRawRequest, GooseTask, GooseTaskSet, GooseUser};
use goose::launch::{
    copy_plan, hatch_interval, hatched_message, launch_user, mode_supported, seconds,
    sleep_minus_drift, throttle_plan, AttackPhase, AttackRun, ThrottlePlan, TickClock,
};
use goose::metrics::{GooseMetric, GooseMetrics, GooseRawTask};
use goose::planner::StepClass;
use goose::throttle::Throttle;
use goose::timespan::{parse_timespan, scan_number, scan_unit};
use goose::user::{next_place, think_time, waits_after, UserCursor, UserPhase, UserStep};

fn task(name: &str, weight: usize) -> GooseTask {
    GooseTask::new().set_name(name).set_weight(weight).unwrap()
}

fn prepared(users: usize, run_time: &str) -> GooseAttack {
    let mut configuration = GooseConfiguration::default();
    configuration.host = "http://localhost:8080".to_string();
    configuration.users = Some(users);
    configuration.hatch_rate = 4;
    configuration.run_time = run_time.to_string();
    GooseAttack::with_cpus(configuration, 2)
        .register_taskset(
            GooseTaskSet::new("S1")
                .register_task(task("A", 10))
                .register_task(task("B", 2)),
        )
        .prepare()
        .unwrap()
}

fn clock(elapsed: u64, since_running_metrics: u64, canceled: bool) -> TickClock {
    TickClock {
        elapsed,
        since_running_metrics,
        canceled,
    }
}

fn request(name: &str) -> GooseMetric {
    let mut raw = GooseRawRequest::new(GooseMethod::GET, name, "http://localhost/", 0, 0);
    raw.set_response_time(12);
    raw.set_status_code(Some(200));
    GooseMetric::Request(raw)
}

fn steady(users: usize, run_time: &str) -> AttackRun {
    let mut run = AttackRun::new(prepared(users, run_time));
    run.start().unwrap();
    while run.hatch(0).is_some() {}
    assert_eq!(run.phase, AttackPhase::Steady);
    run
}

#[test]
fn spans_of_time() {
    assert_eq!(parse_timespan("30s"), 30);
    assert_eq!(parse_timespan("20m"), 1200);
    assert_eq!(parse_timespan("3h"), 10800);
    assert_eq!(parse_timespan("1h30m"), 5400);
    assert_eq!(parse_timespan("1h30m15s"), 5415);
    assert_eq!(parse_timespan("2m5s"), 125);
    assert_eq!(parse_timespan("90"), 90);
    assert_eq!(parse_timespan("0"), 0);
    assert_eq!(parse_timespan("007"), 7);
    assert_eq!(parse_timespan(""), 0);
    assert_eq!(parse_timespan("abc"), 0);
    assert_eq!(parse_timespan("h"), 0);
    assert_eq!(parse_timespan("5x"), 0);
    // The units are read in their order, and what follows is not read.
    assert_eq!(parse_timespan("30m1h"), 1800);
    assert_eq!(parse_timespan("1h 30m"), 3600);
    assert_eq!(parse_timespan("10s!"), 10);
    // A span too long for a machine word is the longest that fits.
    assert_eq!(parse_timespan("99999999999999999999999999"), usize::MAX);
    assert_eq!(parse_timespan("99999999999999999999999999h"), usize::MAX);
    assert_eq!(parse_timespan("18446744073709551615s"), usize::MAX);
}

#[test]
fn numbers_and_units_are_scanned() {
    assert_eq!(scan_number("12ab", 4, 0), (2, 12));
    assert_eq!(scan_number("12ab", 4, 2), (2, 0));
    assert_eq!(scan_number("12ab", 4, 4), (4, 0));
    assert_eq!(scan_unit("12h3", 4, 0, 'h'), Some((12, 3)));
    assert_eq!(scan_unit("12h3", 4, 0, 'm'), None);
    assert_eq!(scan_unit("h", 1, 0, 'h'), None);
    assert_eq!(scan_unit("12", 2, 0, 'h'), None);
}

#[test]
fn the_throttle_starts_one_token_below_its_capacity() {
    assert_eq!(throttle_plan(0), None);
    assert_eq!(
        throttle_plan(10),
        Some(ThrottlePlan {
            capacity: 10,
            prefill: 9
        })
    );
    assert_eq!(
        throttle_plan(1),
        Some(ThrottlePlan {
            capacity: 1,
            prefill: 0
        })
    );
    assert_eq!(Throttle::new(0), None);
    assert_eq!(Throttle::new(1_000_001), None);
    assert_eq!(
        Throttle::new(1_000_000),
        Some(Throttle {
            capacity: 1_000_000,
            tokens: 999_999
        })
    );
    let bucket = Throttle::from_plan(throttle_plan(10).unwrap());
    assert_eq!(bucket, Throttle::new(10).unwrap());
    assert_eq!(bucket.leak_interval(), 100_000_000);
}

#[test]
fn the_throttle_lets_through_no_more_than_leaks_out() {
    let mut bucket = Throttle::new(3).unwrap();
    let mut admitted = 0;
    let mut leaked = 0;
    // A burst at the start finds room for one request.
    for _ in 0..10 {
        if bucket.try_acquire() {
            admitted += 1;
        }
    }
    assert_eq!(admitted, 1);
    assert_eq!(bucket.tokens, 3);
    // Then one request for each token that leaks out.
    for step in 0..100 {
        if step % 4 == 0 && bucket.leak() {
            leaked += 1;
        }
        if bucket.try_acquire() {
            admitted += 1;
        }
        assert!(admitted <= leaked + 1);
        assert!(bucket.tokens <= bucket.capacity);
    }
    assert_eq!(leaked, 25);
    assert_eq!(admitted, 26);
    // An empty bucket has nothing to leak.
    let mut empty = Throttle {
        capacity: 2,
        tokens: 0,
    };
    assert!(!empty.leak());
    assert!(empty.try_acquire());
    assert!(empty.try_acquire());
    assert!(!empty.try_acquire());
}

#[test]
fn the_pause_between_launches() {
    assert_eq!(hatch_interval(1, GooseMode::StandAlone), 1_000_000_000);
    assert_eq!(hatch_interval(4, GooseMode::StandAlone), 250_000_000);
    assert_eq!(hatch_interval(3, GooseMode::Manager), 333_333_333);
    assert_eq!(hatch_interval(4, GooseMode::Worker), 0);
    assert_eq!(hatch_interval(0, GooseMode::StandAlone), 0);
    assert_eq!(sleep_minus_drift(250, 50), 200);
    assert_eq!(sleep_minus_drift(250, 250), 0);
    assert_eq!(sleep_minus_drift(250, 900), 0);
    assert_eq!(seconds(17), 17);
}

#[test]
fn a_mode_needs_its_support() {
    assert!(mode_supported(GooseMode::StandAlone, false).is_ok());
    assert!(mode_supported(GooseMode::Manager, true).is_ok());
    assert!(mode_supported(GooseMode::Worker, true).is_ok());
    match mode_supported(GooseMode::Manager, false) {
        Err(GooseError::FeatureNotEnabled { feature, detail }) => {
            assert_eq!(feature, "gaggle");
            assert_eq!(
                detail,
                "Load test must be recompiled with `--features gaggle` to start in manager mode."
            );
        }
        other => panic!("expected a missing feature, got {:?}", other),
    }
    assert!(matches!(
        mode_supported(GooseMode::Worker, false),
        Err(GooseError::FeatureNotEnabled { .. })
    ));
}

#[test]
fn a_plan_is_copied_bucket_by_bucket() {
    let plan = vec![vec![0, 0, 1], vec![], vec![2]];
    assert_eq!(copy_plan(&plan), plan);
    assert_eq!(copy_plan(&Vec::new()), Vec::<Vec<usize>>::new());
}

#[test]
fn a_launched_user_has_the_plans_of_its_task_set() {
    let attack = prepared(2, "");
    let user = launch_user(&attack.weighted_users[1], &attack.task_sets, 1);
    assert_eq!(user.weighted_users_index, 1);
    assert_eq!(user.task_sets_index, 0);
    assert_eq!(user.base_url, "http://localhost:8080");
    assert_eq!(user.weighted_tasks, vec![vec![0, 0, 0, 0, 0, 1]]);
    assert_eq!(user.weighted_on_start_tasks, vec![Vec::<usize>::new()]);
    let mut lost = attack.weighted_users[0].clone();
    lost.task_sets_index = 9;
    let user = launch_user(&lost, &attack.task_sets, 0);
    assert!(user.weighted_tasks.is_empty());
}

#[test]
fn the_start_says_what_to_set_up() {
    let mut attack = prepared(1, "").set_default(GooseDefault::DebugFile, "debug.log");
    attack.throttle_requests = 10;
    attack.test_start_task = Some(task("setup", 1));
    let mut run = AttackRun::new(attack);
    assert_eq!(run.phase, AttackPhase::Validated);
    assert!(run.hatch(0).is_none());
    let plan = run.start().unwrap();
    assert_eq!(
        plan.test_start_base_url,
        Some("http://localhost:8080".to_string())
    );
    assert_eq!(plan.debug_file, Some("debug.log".to_string()));
    assert_eq!(
        plan.throttle,
        Some(ThrottlePlan {
            capacity: 10,
            prefill: 9
        })
    );
    assert_eq!(run.phase, AttackPhase::Hatching);
    assert_eq!(run.attack.configuration.debug_file, "debug.log");
    // A second start changes nothing.
    let again = run.start().unwrap();
    assert_eq!(again.test_start_base_url, None);
    assert_eq!(again.throttle, None);
    assert_eq!(run.phase, AttackPhase::Hatching);
}

#[test]
fn the_start_fails_without_a_host_for_the_task_before_the_load_test() {
    let mut attack = prepared(1, "");
    attack.configuration.host = String::new();
    attack.test_start_task = Some(task("setup", 1));
    let mut run = AttackRun::new(attack);
    assert!(matches!(
        run.start(),
        Err(GooseError::InvalidOption { .. })
    ));
    assert_eq!(run.phase, AttackPhase::Validated);
}

#[test]
fn users_are_launched_one_by_one() {
    let mut run = AttackRun::new(prepared(3, ""));
    run.start().unwrap();
    let mut launched: Vec<GooseUser> = Vec::new();
    while let Some(user) = run.hatch(0) {
        launched.push(user);
    }
    assert_eq!(launched.len(), 3);
    for (position, user) in launched.iter().enumerate() {
        assert_eq!(user.weighted_users_index, position);
        assert_eq!(user.weighted_tasks, vec![vec![0, 0, 0, 0, 0, 1]]);
    }
    assert_eq!(run.attack.metrics.users, 3);
    assert_eq!(run.phase, AttackPhase::Steady);
    assert_eq!(run.attack.metrics.tasks.len(), 1);
    assert_eq!(run.attack.metrics.tasks[0].len(), 2);
    assert_eq!(run.attack.metrics.tasks[0][1].task_name, "B");
    assert!(run.hatch(0).is_none());
    assert_eq!(run.attack.metrics.users, 3);
}

#[test]
fn launching_ends_when_the_run_time_is_up() {
    let mut run = AttackRun::new(prepared(3, "2s"));
    run.start().unwrap();
    assert!(run.hatch(0).is_some());
    assert!(run.hatch(1).is_some());
    assert!(run.hatch(2).is_none());
    assert_eq!(run.attack.metrics.users, 2);
    assert_eq!(run.phase, AttackPhase::Steady);
    let outcome = run.tick(clock(2, 2, false));
    assert_eq!(
        outcome.printed,
        "2 of 3 users hatched, timer expired, resetting metrics (disable with --no-reset-metrics).\n\n"
    );
    assert!(outcome.restart_clock);
    // The clock was started anew, so the time is not up at this tick.
    assert!(!outcome.drain);
    assert!(run.tick(clock(2, 4, false)).drain);
}

#[test]
fn the_first_tick_announces_the_launch_and_starts_the_metrics_anew() {
    let mut run = steady(3, "");
    run.receive(&request("/"));
    let mut task_run = GooseRawTask::new(0, 0, 1, "B".to_string(), 0);
    task_run.set_time(5, true);
    run.receive(&GooseMetric::Task(task_run));
    assert_eq!(run.attack.metrics.requests.len(), 1);
    assert_eq!(run.attack.metrics.tasks[0][1].counter, 1);

    let duration = run.attack.metrics.duration;

    let outcome = run.tick(clock(7, 7, false));
    assert!(outcome.restart_clock);
    assert!(!outcome.restart_metrics_timer);
    assert!(!outcome.drain);
    // What was measured while the users were launched is not displayed.
    assert_eq!(
        outcome.printed,
        "All 3 users hatched, resetting metrics (disable with --no-reset-metrics).\n\n"
    );
    assert!(run.users_launched);
    assert!(run.attack.metrics.requests.is_empty());
    assert_eq!(run.attack.metrics.tasks[0][1].counter, 0);
    assert_eq!(run.attack.metrics.duration, duration);
    assert_eq!(run.attack.metrics.users, 3);
    assert_eq!(run.phase, AttackPhase::Steady);

    // The launch is announced once.
    let outcome = run.tick(clock(1, 8, false));
    assert_eq!(outcome.printed, "");
    assert!(!outcome.restart_clock);
}

#[test]
fn a_short_load_test_displays_no_running_metrics() {
    let mut run = AttackRun::new(prepared(3, "2s"));
    run.start().unwrap();
    let mut printed = String::new();
    while run.hatch(0).is_some() {}
    assert_eq!(run.phase, AttackPhase::Steady);
    let mut elapsed: u64 = 0;
    let mut since_metrics: u64 = 0;
    loop {
        run.receive(&request("/"));
        let outcome = run.tick(clock(elapsed, since_metrics, false));
        printed.push_str(&outcome.printed);
        assert!(!outcome.restart_metrics_timer);
        if outcome.restart_clock {
            elapsed = 0;
        }
        if outcome.drain {
            break;
        }
        elapsed += 1;
        since_metrics += 1;
    }
    assert_eq!(elapsed, 2);
    assert_eq!(
        printed,
        "All 3 users hatched, resetting metrics (disable with --no-reset-metrics).\n\n"
    );
    assert!(!printed.contains("==="));
    run.finish(elapsed).unwrap().unwrap();
    assert!(run.attack.metrics.display_percentile);
    assert!(run.attack.metrics.users <= 3);
    assert_eq!(run.attack.metrics.duration, 2);
    assert!(run.attack.metrics.render().contains("=== PER REQUEST METRICS ==="));
}

#[test]
fn metrics_are_kept_where_starting_anew_is_switched_off() {
    let mut run = steady(3, "");
    run.attack.configuration.no_reset_metrics = true;
    run.receive(&request("/"));
    let outcome = run.tick(clock(7, 7, false));
    assert!(!outcome.restart_clock);
    assert_eq!(outcome.printed, "All 3 users hatched.\n\n");
    assert_eq!(run.attack.metrics.requests.len(), 1);
    assert_eq!(hatched_message(2, 3, false), "2 of 3 users hatched, timer expired.\n\n");
    assert_eq!(
        hatched_message(3, 3, true),
        "All 3 users hatched, resetting metrics (disable with --no-reset-metrics).\n\n"
    );
}

#[test]
fn a_load_test_without_a_run_time_runs_until_it_is_interrupted() {
    let mut run = steady(1, "");
    assert_eq!(run.attack.run_time, 0);
    for elapsed in [0u64, 1, 60, 86_400, u64::MAX] {
        let outcome = run.tick(clock(elapsed, 0, false));
        assert!(!outcome.drain);
        assert_eq!(run.phase, AttackPhase::Steady);
    }
    let outcome = run.tick(clock(5, 0, true));
    assert!(outcome.drain);
    assert_eq!(run.phase, AttackPhase::Draining);
    // While the users stop, a tick changes nothing.
    let outcome = run.tick(clock(6, 100, true));
    assert!(!outcome.drain);
    assert_eq!(outcome.printed, "");
}

#[test]
fn a_load_test_stops_when_its_run_time_is_up() {
    let mut run = steady(1, "10s");
    assert!(!run.tick(clock(0, 0, false)).drain);
    assert!(!run.tick(clock(9, 9, false)).drain);
    assert!(run.tick(clock(10, 10, false)).drain);
    assert_eq!(run.phase, AttackPhase::Draining);
}

#[test]
fn running_metrics_are_displayed_every_fifteen_seconds() {
    let mut run = steady(1, "");
    run.tick(clock(0, 0, false));
    run.receive(&request("/"));
    let quiet = run.tick(clock(14, 14, false));
    assert!(!quiet.restart_metrics_timer);
    assert_eq!(quiet.printed, "");
    let mut expected = run.attack.metrics.clone();
    let report = expected.print_running_text(15);
    let due = run.tick(clock(15, 15, false));
    assert!(due.restart_metrics_timer);
    assert_eq!(due.printed, report);
    assert!(due.printed.contains("=== PER REQUEST METRICS ==="));
    assert_eq!(run.attack.metrics.duration, 15);

    // Not where only the summary is asked for.
    let mut run = steady(1, "");
    run.attack.configuration.only_summary = true;
    run.tick(clock(0, 0, false));
    let outcome = run.tick(clock(15, 15, false));
    assert!(!outcome.restart_metrics_timer);
    assert_eq!(outcome.printed, "");
}

#[test]
fn nothing_is_received_where_metrics_are_switched_off() {
    let mut run = steady(1, "");
    run.attack.configuration.no_metrics = true;
    run.receive(&request("/"));
    assert!(run.attack.metrics.requests.is_empty());
    let outcome = run.tick(clock(20, 20, false));
    assert_eq!(outcome.printed, "");
    assert!(!outcome.restart_clock);
    assert!(!outcome.restart_metrics_timer);
    assert!(!run.users_launched);
}

#[test]
fn the_end_sets_the_duration_and_shows_percentiles() {
    let mut attack = prepared(1, "");
    attack.configuration.metrics_file = "metrics.log".to_string();
    attack.test_stop_task = Some(task("teardown", 1));
    let mut run = AttackRun::new(attack);
    assert_eq!(run.finish(3).unwrap(), None);
    run.start().unwrap();
    while run.hatch(0).is_some() {}
    run.tick(clock(0, 0, false));
    assert!(run.tick(clock(4, 4, true)).drain);
    run.receive(&request("/last"));
    let plan = run.finish(5).unwrap().unwrap();
    assert!(plan.run_test_stop);
    assert!(plan.flush_metrics_file);
    assert!(!plan.flush_debug_file);
    assert_eq!(run.phase, AttackPhase::Reporting);
    assert_eq!(run.attack.metrics.duration, 5);
    assert!(run.attack.metrics.display_percentile);
    assert_eq!(run.attack.metrics.requests.len(), 1);
    assert!(run.attack.metrics.render().contains("Slowest page load"));
    assert_eq!(run.finish(9).unwrap(), None);
    assert_eq!(run.attack.metrics.duration, 5);
}

#[test]
fn running_metrics_are_empty_where_nothing_is_displayed() {
    let mut metrics = GooseMetrics::default();
    assert_eq!(metrics.print_running_text(3), "");
    assert_eq!(metrics.duration, 3);
    metrics.display_metrics = true;
    assert_eq!(metrics.print_running_text(4), "\n");
}

fn user_with(on_start: Vec<Vec<usize>>, main: Vec<Vec<usize>>, on_stop: Vec<Vec<usize>>) -> GooseUser {
    GooseUser {
        task_sets_index: 0,
        base_url: "http://localhost".to_string(),
        min_wait: 0,
        max_wait: 0,
        weighted_users_index: 0,
        load_test_hash: 0,
        weighted_on_start_tasks: on_start,
        weighted_tasks: main,
        weighted_on_stop_tasks: on_stop,
    }
}

fn run_user(user: &GooseUser, steps_before_exit: usize) -> Vec<(StepClass, usize)> {
    let mut cursor = UserCursor::new();
    let mut steps = Vec::new();
    let mut main_steps = 0;
    loop {
        let exit = main_steps >= steps_before_exit;
        match cursor.next_step(user, exit) {
            Some(step) => {
                if step.class == StepClass::Main {
                    main_steps += 1;
                }
                steps.push((step.class, step.task_index));
            }
            None => break,
        }
        assert!(steps.len() < 1000);
    }
    assert_eq!(cursor.phase, UserPhase::Done);
    assert!(cursor.next_step(user, false).is_none());
    steps
}

#[test]
fn a_user_runs_its_start_tasks_then_its_main_tasks_then_its_stop_tasks() {
    // Two tasks for the start with the sequences 1 and 2, and one main task.
    let task_set = GooseTaskSet::new("s")
        .register_task(task("login", 1).set_on_start().set_sequence(1))
        .register_task(task("prepare", 1).set_on_start().set_sequence(2))
        .register_task(task("main", 1))
        .register_task(task("logout", 1).set_on_stop());
    let (on_start, main, on_stop) = goose::planner::weight_tasks(&task_set);
    let user = user_with(on_start, main, on_stop);
    let steps = run_user(&user, 3);
    assert_eq!(
        steps,
        vec![
            (StepClass::OnStart, 0),
            (StepClass::OnStart, 1),
            (StepClass::Main, 2),
            (StepClass::Main, 2),
            (StepClass::Main, 2),
            (StepClass::OnStop, 3),
        ]
    );
}

#[test]
fn main_tasks_go_round_their_buckets_in_order() {
    let user = user_with(
        vec![vec![]],
        vec![vec![4, 4, 5], vec![], vec![6]],
        vec![vec![7], vec![8]],
    );
    let steps = run_user(&user, 9);
    let main: Vec<usize> = steps
        .iter()
        .filter(|step| step.0 == StepClass::Main)
        .map(|step| step.1)
        .collect();
    assert_eq!(main, vec![4, 4, 5, 6, 4, 4, 5, 6, 4]);
    assert_eq!(
        steps[steps.len() - 2..].to_vec(),
        vec![(StepClass::OnStop, 7), (StepClass::OnStop, 8)]
    );
    // Every task for the start comes before, every task for the stop after.
    let rank = |class: StepClass| match class {
        StepClass::OnStart => 0,
        StepClass::Main => 1,
        StepClass::OnStop => 2,
    };
    for pair in steps.windows(2) {
        assert!(rank(pair[0].0) <= rank(pair[1].0));
    }
}

#[test]
fn a_user_told_to_stop_at_once_runs_its_hooks_alone() {
    let user = user_with(vec![vec![1]], vec![vec![2]], vec![vec![3]]);
    assert_eq!(
        run_user(&user, 0),
        vec![(StepClass::OnStart, 1), (StepClass::OnStop, 3)]
    );
    // A user without main tasks goes on to its stop.
    let idle = user_with(vec![vec![1]], vec![vec![], vec![]], vec![vec![3]]);
    assert_eq!(
        run_user(&idle, 5),
        vec![(StepClass::OnStart, 1), (StepClass::OnStop, 3)]
    );
    let nothing = user_with(Vec::new(), Vec::new(), Vec::new());
    assert_eq!(run_user(&nothing, 5), Vec::new());
}

#[test]
fn a_user_waits_after_its_main_tasks_alone() {
    let mut user = user_with(Vec::new(), Vec::new(), Vec::new());
    let main = UserStep {
        class: StepClass::Main,
        task_index: 0,
    };
    let hook = UserStep {
        class: StepClass::OnStart,
        task_index: 0,
    };
    assert!(!waits_after(&main, &user));
    user.max_wait = 10;
    assert!(waits_after(&main, &user));
    assert!(!waits_after(&hook, &user));
    let plan = vec![vec![], vec![9, 8], vec![]];
    assert_eq!(next_place(&plan, 0, 0), Some((1, 0)));
    assert_eq!(next_place(&plan, 1, 1), Some((1, 1)));
    assert_eq!(next_place(&plan, 1, 2), None);
    assert_eq!(next_place(&plan, 5, 0), None);
}

#[test]
fn a_user_waits_between_its_shortest_and_its_longest_wait() {
    assert_eq!(think_time(5, 5, 12345), 5);
    assert_eq!(think_time(0, 0, 12345), 0);
    assert_eq!(think_time(10, 3, 99), 10);
    assert_eq!(think_time(10, 20, 0), 10);
    assert_eq!(think_time(10, 20, 10), 20);
    assert_eq!(think_time(10, 20, 11), 10);
    assert_eq!(think_time(10, 20, 25), 13);
    for draw in [0u64, 1, 7, 1_000_003, u64::MAX] {
        let wait = think_time(100, 250, draw);
        assert!(100 <= wait && wait <= 250);
    }
    assert_eq!(think_time(0, usize::MAX, u64::MAX), u64::MAX as usize);
}

#[test]
fn a_redirect_to_another_site_is_followed_where_asked_for() {
    assert_eq!(
        site("http://example.com/a/b?c#d"),
        Some("http://example.com".to_string())
    );
    assert_eq!(
        site("https://example.com:8443"),
        Some("https://example.com:8443".to_string())
    );
    assert_eq!(site("http://host?x=1"), Some("http://host".to_string()));
    assert_eq!(site("http://host#top"), Some("http://host".to_string()));
    // The site is written as the URL parser writes it.
    assert_eq!(
        site("HTTP://Example.COM:80/x"),
        Some("http://example.com".to_string())
    );
    assert_eq!(
        site("https://example.com:443/x"),
        Some("https://example.com".to_string())
    );
    assert_eq!(
        site("http://user@example.com:8080/x"),
        Some("http://user@example.com:8080".to_string())
    );
    assert_eq!(site("/just/a/path"), None);
    assert_eq!(site("example.com"), None);
    assert_eq!(site(""), None);

    let other = Some("http://other.example.com".to_string());
    let here = Some("http://example.com".to_string());
    assert_eq!(moved_base_url(true, true, here.clone(), other.clone()), other);
    assert_eq!(moved_base_url(true, true, None, other.clone()), other);
    assert_eq!(moved_base_url(true, true, here.clone(), here.clone()), None);
    assert_eq!(moved_base_url(true, true, here.clone(), None), None);
    assert_eq!(moved_base_url(false, true, here.clone(), other.clone()), None);
    assert_eq!(moved_base_url(true, false, here.clone(), other.clone()), None);

    let base = "http://example.com/";
    assert_eq!(
        sticky_base_url(true, true, base, "http://other.example.com/login"),
        Some("http://other.example.com".to_string())
    );
    assert_eq!(
        sticky_base_url(true, true, base, "https://example.com/login"),
        Some("https://example.com".to_string())
    );
    // A redirect on the same site changes nothing.
    assert_eq!(sticky_base_url(true, true, base, "http://example.com/login"), None);
    // Nor does one that is not asked to be followed, or no redirect at all.
    assert_eq!(
        sticky_base_url(false, true, base, "http://other.example.com/"),
        None
    );
    assert_eq!(
        sticky_base_url(true, false, base, "http://other.example.com/"),
        None
    );
    assert_eq!(sticky_base_url(true, true, base, "/relative"), None);
    // The same site, written otherwise, is the same site.
    assert_eq!(sticky_base_url(true, true, base, "HTTP://EXAMPLE.COM:80/login"), None);
    // Without a base URL that is a URL, any site is another one.
    assert_eq!(
        sticky_base_url(true, true, "nowhere", "http://example.com/login"),
        Some("http://example.com".to_string())
    );
}

#[test]
fn the_process_ends_with_the_code_of_its_outcome() {
    let clean: Result<(), GooseError> = Ok(());
    let failed: Result<(), GooseError> = Err(GooseError::NoTaskSets {
        detail: String::new(),
    });
    assert_eq!(exit_code(&clean, false), 0);
    assert_eq!(exit_code(&failed, false), 1);
    assert_eq!(exit_code(&clean, true), 130);
    assert_eq!(exit_code(&failed, true), 130);
    assert_eq!(goose::error::EXIT_USAGE, 2);
}

#[test]
fn the_throttle_holds_the_rate_over_two_seconds() {
    let mut throttle = Throttle::new(30).unwrap();
    let interval = throttle.leak_interval();
    assert_eq!(interval, 33_333_333);
    // The users keep the bucket full.
    while throttle.try_acquire() {}
    let mut admitted: u64 = 0;
    let mut next_leak: u64 = 0;
    let mut now: u64 = 0;
    while now <= 2_000_000_000 {
        if now >= next_leak {
            assert!(throttle.leak());
            next_leak += interval;
        }
        if throttle.try_acquire() {
            admitted += 1;
        }
        assert!(!throttle.try_acquire());
        now += 1_000_000;
    }
    // One request for each time the leak ran: 30 each second and one more.
    assert_eq!(admitted, 61);
    assert!(100 * admitted <= 105 * 30 * 2);
}
