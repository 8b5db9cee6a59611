use goose::attack::GooseAttack;
use goose::config::{GooseConfiguration, GooseDefault, GooseMode};
use goose::defaults::GooseDefaultType;
use goose::error::GooseError;
use goose::fingerprint::{
    fingerprint, fingerprint_accepted, hash_bytes, push_bytes, push_flag, push_number, push_task,
    push_task_set, push_text,
};
use goose::gaggle::{join_worker, worker_share, JoinOutcome};
use goose::goose::{GooseTask, GooseTaskSet};
use goose::planner::{
    class_plan, expand_bucket, next_sequence, task_sets_gcd, tasks_gcd, weight_task_sets,
    weight_tasks, StepClass,
};
use goose::prepare::{allocate_users, check_task_set, check_task_sets};
use goose::util::{gcd, timer_expired};

fn task(name: &str, weight: usize) -> GooseTask {
    GooseTask::new().set_name(name).set_weight(weight).unwrap()
}

fn set(name: &str, weight: usize, tasks: Vec<GooseTask>) -> GooseTaskSet {
    let mut task_set = GooseTaskSet::new(name).set_weight(weight).unwrap();
    for task in tasks {
        task_set = task_set.register_task(task);
    }
    task_set
}

fn standalone(task_sets: Vec<GooseTaskSet>, users: usize) -> GooseAttack {
    let mut configuration = GooseConfiguration::default();
    configuration.host = "http://localhost:8080".to_string();
    configuration.users = Some(users);
    configuration.hatch_rate = 3;
    let mut attack = GooseAttack::with_cpus(configuration, 4);
    for task_set in task_sets {
        attack = attack.register_taskset(task_set);
    }
    attack
}

#[test]
fn greatest_common_divisor() {
    assert_eq!(gcd(10, 2), 2);
    assert_eq!(gcd(2, 10), 2);
    assert_eq!(gcd(12, 18), 6);
    assert_eq!(gcd(7, 13), 1);
    assert_eq!(gcd(0, 5), 5);
    assert_eq!(gcd(5, 0), 5);
    assert_eq!(gcd(0, 0), 0);
    assert_eq!(gcd(9, 9), 9);
}

#[test]
fn divisor_of_all_weights() {
    let task_set = set("s", 1, vec![task("a", 10), task("b", 2), task("c", 6)]);
    assert_eq!(tasks_gcd(&task_set.tasks), 2);
    assert_eq!(tasks_gcd(&Vec::new()), 0);
    let task_sets = vec![set("a", 3, vec![]), set("b", 9, vec![])];
    assert_eq!(task_sets_gcd(&task_sets), 3);
}

#[test]
fn weights_are_reduced_and_keep_their_ratio() {
    // One task set with tasks of weight 10 and 2: five to one.
    let task_set = set("S1", 1, vec![task("A", 10), task("B", 2)]);
    let (on_start, main, on_stop) = weight_tasks(&task_set);
    assert_eq!(main, vec![vec![0, 0, 0, 0, 0, 1]]);
    assert_eq!(on_start, vec![Vec::<usize>::new()]);
    assert_eq!(on_stop, vec![Vec::<usize>::new()]);
    let a = main[0].iter().filter(|index| **index == 0).count();
    let b = main[0].iter().filter(|index| **index == 1).count();
    assert_eq!(a * 2, b * 10);
}

#[test]
fn tasks_are_grouped_by_sequence_and_unsequenced_tasks_come_last() {
    let task_set = set(
        "s",
        1,
        vec![
            task("unsequenced", 2),
            task("third", 1).set_sequence(3),
            task("first", 1).set_sequence(1),
            task("also first", 3).set_sequence(1),
            task("third again", 1).set_sequence(3),
        ],
    );
    let (on_start, main, on_stop) = weight_tasks(&task_set);
    assert_eq!(main, vec![vec![2, 3, 3, 3], vec![1, 4], vec![0, 0]]);
    assert_eq!(on_start, vec![Vec::<usize>::new()]);
    assert_eq!(on_stop, vec![Vec::<usize>::new()]);
}

#[test]
fn hooks_go_to_their_own_plans() {
    let task_set = set(
        "s",
        1,
        vec![
            task("login", 1).set_on_start().set_sequence(1),
            task("prepare", 1).set_on_start().set_sequence(2),
            task("main", 1),
            task("logout", 1).set_on_stop(),
            task("both", 1).set_on_start().set_on_stop(),
        ],
    );
    let (on_start, main, on_stop) = weight_tasks(&task_set);
    assert_eq!(on_start, vec![vec![0], vec![1], vec![4]]);
    assert_eq!(main, vec![vec![2]]);
    assert_eq!(on_stop, vec![vec![3, 4]]);
}

#[test]
fn a_task_set_without_main_tasks_has_an_empty_main_plan() {
    let task_set = set("s", 1, vec![task("login", 4).set_on_start()]);
    let (on_start, main, on_stop) = weight_tasks(&task_set);
    assert_eq!(on_start, vec![vec![0]]);
    assert_eq!(main, Vec::<Vec<usize>>::new());
    assert_eq!(on_stop, vec![Vec::<usize>::new()]);
    let empty = GooseTaskSet::new("empty");
    let (on_start, main, on_stop) = weight_tasks(&empty);
    assert_eq!(on_start, vec![Vec::<usize>::new()]);
    assert_eq!(main, Vec::<Vec<usize>>::new());
    assert_eq!(on_stop, vec![Vec::<usize>::new()]);
}

#[test]
fn buckets_and_sequences_one_by_one() {
    let task_set = set(
        "s",
        1,
        vec![
            task("a", 4).set_sequence(7),
            task("b", 2).set_sequence(2),
            task("c", 2),
        ],
    );
    assert_eq!(
        expand_bucket(&task_set.tasks, 2, StepClass::Main, 7),
        vec![0, 0]
    );
    assert_eq!(
        expand_bucket(&task_set.tasks, 2, StepClass::Main, 0),
        vec![2]
    );
    assert_eq!(
        expand_bucket(&task_set.tasks, 2, StepClass::OnStart, 7),
        Vec::<usize>::new()
    );
    assert_eq!(next_sequence(&task_set.tasks, StepClass::Main, 0), Some(2));
    assert_eq!(next_sequence(&task_set.tasks, StepClass::Main, 2), Some(7));
    assert_eq!(next_sequence(&task_set.tasks, StepClass::Main, 7), None);
    assert_eq!(next_sequence(&task_set.tasks, StepClass::OnStop, 0), None);
    assert_eq!(
        class_plan(&task_set.tasks, 2, StepClass::Main),
        vec![vec![1], vec![0, 0], vec![2]]
    );
}

#[test]
fn task_sets_are_weighted_in_their_order() {
    let task_sets = vec![
        set("S1", 1, vec![task("a", 1)]),
        set("S2", 3, vec![task("b", 1)]),
    ];
    assert_eq!(weight_task_sets(&task_sets, 1), vec![0, 1, 1, 1]);
    let task_sets = vec![
        set("S1", 2, vec![task("a", 1)]),
        set("S2", 6, vec![task("b", 1)]),
    ];
    assert_eq!(
        weight_task_sets(&task_sets, task_sets_gcd(&task_sets)),
        vec![0, 1, 1, 1]
    );
}

#[test]
fn users_are_allocated_in_the_order_of_the_weighted_task_sets() {
    let attack = standalone(
        vec![
            set("S1", 1, vec![task("a", 1)]),
            set("S2", 3, vec![task("b", 1)]),
        ],
        4,
    );
    let prepared = attack.prepare().unwrap();
    let allocated: Vec<usize> = prepared
        .weighted_users
        .iter()
        .map(|user| user.task_sets_index)
        .collect();
    assert_eq!(allocated, vec![0, 1, 1, 1]);
    for user in &prepared.weighted_users {
        assert_eq!(user.base_url, "http://localhost:8080");
        assert_eq!(user.load_test_hash, prepared.metrics.hash);
    }
}

#[test]
fn allocation_goes_round_the_weighted_task_sets() {
    let attack = standalone(
        vec![
            set("S1", 1, vec![task("a", 1)]),
            set("S2", 2, vec![task("b", 1)]),
        ],
        7,
    );
    let prepared = attack.prepare().unwrap();
    let allocated: Vec<usize> = prepared
        .weighted_users
        .iter()
        .map(|user| user.task_sets_index)
        .collect();
    let weighted = [0usize, 1, 1];
    for (i, index) in allocated.iter().enumerate() {
        assert_eq!(*index, weighted[i % weighted.len()]);
    }
    assert_eq!(allocated.len(), 7);
}

#[test]
fn allocated_users_carry_the_waits_and_the_host_of_their_task_set() {
    let configuration = GooseConfiguration::default();
    let defaults = GooseAttack::with_cpus(GooseConfiguration::default(), 1)
        .set_default(GooseDefault::Host, "http://default.example.com")
        .defaults;
    let task_sets = vec![
        set("own", 1, vec![task("a", 1)])
            .set_host("http://own.example.com")
            .set_wait_time(5, 10)
            .unwrap(),
        set("other", 1, vec![task("b", 1)]),
    ];
    let users = allocate_users(&task_sets, &configuration, &defaults, 2, 42).unwrap();
    assert_eq!(users[0].base_url, "http://own.example.com");
    assert_eq!(users[0].min_wait, 5);
    assert_eq!(users[0].max_wait, 10);
    assert_eq!(users[0].load_test_hash, 42);
    assert_eq!(users[1].base_url, "http://default.example.com");
    assert_eq!(allocate_users(&task_sets, &configuration, &defaults, 0, 42)
        .unwrap()
        .len(), 0);
}

#[test]
fn prepare_resolves_the_options_and_weights_the_tasks() {
    let attack = standalone(vec![set("S1", 1, vec![task("A", 10), task("B", 2)])], 3);
    let prepared = attack.prepare().unwrap();
    assert_eq!(prepared.attack_mode, GooseMode::StandAlone);
    assert_eq!(prepared.users, 3);
    assert_eq!(prepared.hatch_rate, 3);
    assert_eq!(prepared.run_time, 0);
    assert_eq!(prepared.throttle_requests, 0);
    assert_eq!(prepared.configuration.metrics_format, "json");
    assert_eq!(prepared.configuration.debug_format, "json");
    assert_eq!(
        prepared.task_sets[0].weighted_tasks,
        vec![vec![0, 0, 0, 0, 0, 1]]
    );
    assert_eq!(prepared.weighted_users.len(), 3);
    assert!(prepared.metrics.display_metrics);
    assert_eq!(prepared.metrics.hash, fingerprint(&prepared.task_sets));
}

#[test]
fn prepare_fails_without_task_sets() {
    match standalone(Vec::new(), 1).prepare() {
        Err(GooseError::NoTaskSets { detail }) => assert_eq!(detail, "No task sets are defined."),
        other => panic!("expected no task sets, got {:?}", other.map(|_| ())),
    }
}

#[test]
fn prepare_fails_on_the_first_broken_option() {
    let mut attack = standalone(vec![set("S1", 1, vec![task("A", 1)])], 3);
    attack.configuration.hatch_rate = 0;
    attack.configuration.throttle_requests = Some(0);
    match attack.prepare() {
        Err(GooseError::InvalidOption { option, .. }) => assert_eq!(option, "--hatch-rate"),
        other => panic!("expected an invalid option, got {:?}", other.map(|_| ())),
    }
}

#[test]
fn prepare_needs_a_host_for_every_task_set() {
    let mut attack = standalone(
        vec![
            set("with", 1, vec![task("A", 1)]).set_host("http://example.com"),
            set("without", 1, vec![task("B", 1)]),
        ],
        2,
    );
    attack.configuration.host = String::new();
    match attack.prepare() {
        Err(GooseError::InvalidOption {
            option,
            value,
            detail,
        }) => {
            assert_eq!(option, "--host");
            assert_eq!(value, "");
            assert!(detail.ends_with("(no host defined for without)."));
        }
        other => panic!("expected an invalid option, got {:?}", other.map(|_| ())),
    }
}

#[test]
fn prepare_fails_on_a_host_that_is_no_url() {
    let mut attack = standalone(vec![set("S1", 1, vec![task("A", 1)])], 1);
    attack.configuration.host = "example.com".to_string();
    match attack.prepare() {
        Err(GooseError::InvalidHost { host, .. }) => assert_eq!(host, "example.com"),
        other => panic!("expected an invalid host, got {:?}", other.map(|_| ())),
    }
}

#[test]
fn prepare_on_a_worker_allocates_no_users() {
    let mut configuration = GooseConfiguration::default();
    configuration.worker = true;
    let attack = GooseAttack::with_cpus(configuration, 4)
        .register_taskset(set("S1", 1, vec![task("A", 1)]));
    let prepared = attack.prepare().unwrap();
    assert_eq!(prepared.attack_mode, GooseMode::Worker);
    assert!(prepared.weighted_users.is_empty());
    assert!(!prepared.metrics.display_metrics);
    assert_eq!(prepared.configuration.manager_host, "127.0.0.1");
    assert_eq!(prepared.task_sets[0].weighted_tasks, vec![vec![0]]);
}

#[test]
fn task_sets_have_to_be_in_order() {
    let mut zero_weight = set("s", 1, vec![task("a", 1)]);
    zero_weight.weight = 0;
    match check_task_set(&zero_weight) {
        Err(GooseError::InvalidWeight { weight, detail }) => {
            assert_eq!(weight, 0);
            assert_eq!(detail, "Weight must be set to at least 1.");
        }
        other => panic!("expected an invalid weight, got {:?}", other),
    }

    let mut reversed = set("s", 1, vec![task("a", 1)]);
    reversed.min_wait = 10;
    reversed.max_wait = 5;
    match check_task_set(&reversed) {
        Err(GooseError::InvalidWaitTime {
            min_wait, max_wait, ..
        }) => {
            assert_eq!(min_wait, 10);
            assert_eq!(max_wait, 5);
        }
        other => panic!("expected an invalid wait time, got {:?}", other),
    }

    assert!(matches!(
        check_task_set(&GooseTaskSet::new("empty")),
        Err(GooseError::NoTaskSets { .. })
    ));

    let mut zero_task = set("s", 1, vec![task("a", 1), task("b", 1)]);
    zero_task.tasks[1].weight = 0;
    assert!(matches!(
        check_task_set(&zero_task),
        Err(GooseError::InvalidWeight { weight: 0, .. })
    ));

    assert!(check_task_set(&set("s", 2, vec![task("a", 3)])).is_ok());
    assert!(matches!(
        check_task_sets(&vec![set("s", 2, vec![task("a", 3)]), zero_task]),
        Err(GooseError::InvalidWeight { .. })
    ));
    assert!(check_task_sets(&Vec::new()).is_ok());
}

#[test]
fn builders_check_weights_and_waits() {
    assert!(matches!(
        GooseTask::new().set_weight(0),
        Err(GooseError::InvalidWeight { weight: 0, .. })
    ));
    assert!(matches!(
        GooseTaskSet::new("s").set_weight(0),
        Err(GooseError::InvalidWeight { weight: 0, .. })
    ));
    match GooseTaskSet::new("s").set_wait_time(3, 2) {
        Err(GooseError::InvalidWaitTime {
            min_wait,
            max_wait,
            detail,
        }) => {
            assert_eq!((min_wait, max_wait), (3, 2));
            assert_eq!(
                detail,
                "The min_wait option can not be set to a larger value than the max_wait option."
            );
        }
        other => panic!("expected an invalid wait time, got {:?}", other.map(|_| ())),
    }
    let task_set = GooseTaskSet::new("s").set_wait_time(2, 2).unwrap();
    assert_eq!((task_set.min_wait, task_set.max_wait), (2, 2));
    let task = GooseTask::new()
        .set_name("t")
        .set_weight(4)
        .unwrap()
        .set_sequence(9)
        .set_on_start()
        .set_on_stop();
    assert_eq!(task.name, "t");
    assert_eq!(task.weight, 4);
    assert_eq!(task.sequence, 9);
    assert!(task.on_start && task.on_stop);
    let registered = GooseTaskSet::new("s")
        .register_task(GooseTask::new())
        .register_task(task);
    assert_eq!(registered.tasks[0].tasks_index, 0);
    assert_eq!(registered.tasks[1].tasks_index, 1);
}

#[test]
fn fingerprint_depends_on_the_definitions_alone() {
    let first = vec![set("S1", 1, vec![task("A", 10), task("B", 2)])];
    let mut second = vec![set("S1", 1, vec![task("A", 10), task("B", 2)])];
    // Plans and positions are no part of the definition.
    second[0].weighted_tasks = vec![vec![1, 2, 3]];
    second[0].task_sets_index = 5;
    assert_eq!(fingerprint(&first), fingerprint(&second));

    let renamed = vec![set("S2", 1, vec![task("A", 10), task("B", 2)])];
    assert_ne!(fingerprint(&first), fingerprint(&renamed));
    let reweighted = vec![set("S1", 1, vec![task("A", 10), task("B", 3)])];
    assert_ne!(fingerprint(&first), fingerprint(&reweighted));
    let reordered = vec![set("S1", 1, vec![task("B", 2), task("A", 10)])];
    assert_ne!(fingerprint(&first), fingerprint(&reordered));
}

#[test]
fn hash_of_bytes_is_fnv1a() {
    assert_eq!(hash_bytes(&Vec::new()), 0xcbf29ce484222325);
    assert_eq!(hash_bytes(&vec![b'a']), 0xaf63dc4c8601ec8c);
    assert_eq!(hash_bytes(&b"foobar".to_vec()), 0x85944171f73967e8);
}

#[test]
fn a_worker_is_accepted_by_its_fingerprint() {
    assert!(fingerprint_accepted(7, 7, false));
    assert!(!fingerprint_accepted(7, 8, false));
    assert!(fingerprint_accepted(7, 8, true));
}

#[test]
fn a_timer_of_zero_never_expires() {
    assert!(!timer_expired(0, 0));
    assert!(!timer_expired(1_000_000, 0));
    assert!(!timer_expired(9, 10));
    assert!(timer_expired(10, 10));
    assert!(timer_expired(11, 10));
}

#[test]
fn the_users_of_an_attack_are_allocated_from_its_state() {
    let mut attack = standalone(
        vec![
            set("S1", 2, vec![task("a", 1)]),
            set("S2", 4, vec![task("b", 1)]),
        ],
        5,
    );
    attack.users = 5;
    attack.metrics.hash = 99;
    let users = attack.weight_task_set_users().unwrap();
    let allocated: Vec<usize> = users.iter().map(|user| user.task_sets_index).collect();
    assert_eq!(allocated, vec![0, 1, 1, 0, 1]);
    for user in &users {
        assert_eq!(user.load_test_hash, 99);
        assert_eq!(user.weighted_users_index, usize::MAX);
        assert!(user.weighted_tasks.is_empty());
    }
}

#[test]
fn definitions_are_written_as_bytes() {
    let mut buffer = Vec::new();
    push_number(&mut buffer, 258);
    assert_eq!(buffer, vec![2, 1, 0, 0, 0, 0, 0, 0]);
    push_flag(&mut buffer, true);
    push_flag(&mut buffer, false);
    assert_eq!(buffer[8..], [1, 0]);
    let mut text = Vec::new();
    push_text(&mut text, "hé");
    assert_eq!(text, vec![3, 0, 0, 0, 0, 0, 0, 0, b'h', 0xc3, 0xa9]);
    let mut one = Vec::new();
    push_task(&mut one, &task("A", 10).set_on_stop());
    assert_eq!(
        one,
        vec![
            1, 0, 0, 0, 0, 0, 0, 0, b'A', 10, 0, 0, 0, 0, 0, 0, 0, 0, 0, 0, 0, 0, 0, 0, 0, 0, 1
        ]
    );
    let mut whole = Vec::new();
    push_task_set(&mut whole, &set("S", 1, vec![task("A", 10)]));
    assert_eq!(whole.len(), 8 + 1 + 8 + 8 + 8 + 1 + 8 + (8 + 1 + 8 + 8 + 1 + 1));
    let mut joined = vec![7u8];
    push_bytes(&mut joined, &vec![8, 9]);
    assert_eq!(joined, vec![7, 8, 9]);
}

#[test]
fn the_users_are_dealt_out_to_the_workers() {
    // Ten users on three Workers: four, three and three.
    assert_eq!(worker_share(10, 3, 0), Some((0, 4)));
    assert_eq!(worker_share(10, 3, 1), Some((4, 3)));
    assert_eq!(worker_share(10, 3, 2), Some((7, 3)));
    assert_eq!(worker_share(10, 3, 3), None);
    assert_eq!(worker_share(10, 0, 0), None);
    assert_eq!(worker_share(2, 2, 1), Some((1, 1)));
    assert_eq!(worker_share(0, 2, 1), Some((0, 0)));
    for (users, workers) in [(1usize, 1u16), (7, 7), (100, 7), (65_535, 4), (5, 9)] {
        let mut next = 0;
        for index in 0..workers {
            let (start, count) = worker_share(users, workers, index).unwrap();
            assert_eq!(start, next);
            assert!(count == users / workers as usize || count == users / workers as usize + 1);
            next = start + count;
        }
        assert_eq!(next, users);
    }
    let (start, count) = worker_share(usize::MAX, u16::MAX, u16::MAX - 1).unwrap();
    assert_eq!(start + count, usize::MAX);
}

#[test]
fn a_manager_takes_the_workers_that_it_expects() {
    assert_eq!(join_worker(2, 0, 7, 7, false), JoinOutcome::Accepted(0));
    assert_eq!(join_worker(2, 1, 7, 7, false), JoinOutcome::Accepted(1));
    assert_eq!(join_worker(2, 2, 7, 7, false), JoinOutcome::Full);
    assert_eq!(join_worker(2, 1, 7, 8, false), JoinOutcome::WrongFingerprint);
    assert_eq!(join_worker(2, 1, 7, 8, true), JoinOutcome::Accepted(1));
    assert_eq!(join_worker(0, 0, 7, 7, true), JoinOutcome::Full);
}
