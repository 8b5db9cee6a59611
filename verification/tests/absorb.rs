use goose::goose::{GooseMethod, GooseRawRequest, GooseRequest};
use goose::metrics::{GooseMetrics, GooseTaskMetric};
use goose::absorb::merge_task_set;
use std::collections::BTreeMap;

fn sample(method: GooseMethod, name: &str, response_time: u64, status_code: u16) -> GooseRawRequest {
    let mut raw = GooseRawRequest::new(method, name, "http://localhost/", 0, 1);
    raw.set_response_time(response_time as u128);
    raw.set_status_code(Some(status_code));
    raw
}

fn metrics_of(samples: &[(GooseMethod, &str, u64, u16)]) -> GooseMetrics {
    let mut metrics = GooseMetrics::default();
    for (method, name, time, code) in samples {
        metrics.record_request(&sample(*method, name, *time, *code), true);
    }
    metrics
}

type Totals = (
    BTreeMap<usize, usize>,
    usize,
    usize,
    usize,
    usize,
    usize,
    usize,
    BTreeMap<u16, usize>,
);

fn as_map(requests: &[GooseRequest]) -> BTreeMap<(String, String), Totals> {
    let mut map = BTreeMap::new();
    for request in requests {
        let previous = map.insert(
            (format!("{:?}", request.method), request.path.clone()),
            (
                request.response_times.clone(),
                request.min_response_time,
                request.max_response_time,
                request.total_response_time,
                request.response_time_counter,
                request.success_count,
                request.fail_count,
                request.status_code_counts.clone(),
            ),
        );
        assert!(previous.is_none());
    }
    map
}

fn merged(a: &GooseMetrics, b: &GooseMetrics) -> GooseMetrics {
    let mut result = a.clone();
    result.merge_requests(&b.requests);
    result
}

fn three() -> (GooseMetrics, GooseMetrics, GooseMetrics) {
    let a = metrics_of(&[
        (GooseMethod::GET, "/", 10, 200),
        (GooseMethod::GET, "/", 30, 200),
        (GooseMethod::GET, "/about", 20, 404),
    ]);
    let b = metrics_of(&[
        (GooseMethod::POST, "/", 700, 500),
        (GooseMethod::GET, "/about", 5, 200),
    ]);
    let c = metrics_of(&[
        (GooseMethod::GET, "/", 1600, 200),
        (GooseMethod::GET, "/contact", 40, 200),
        (GooseMethod::POST, "/", 7, 200),
    ]);
    (a, b, c)
}

#[test]
fn a_manager_takes_in_the_requests_of_a_worker() {
    let (a, b, _) = three();
    let both = merged(&a, &b);
    assert_eq!(both.requests.len(), 3);
    let about = both
        .requests
        .iter()
        .find(|request| request.path == "/about")
        .unwrap();
    assert_eq!(about.response_time_counter, 2);
    assert_eq!(about.success_count, 1);
    assert_eq!(about.fail_count, 1);
    assert_eq!(about.min_response_time, 5);
    assert_eq!(about.max_response_time, 20);
    assert_eq!(about.total_response_time, 25);
    assert_eq!(about.status_code_counts.get(&404), Some(&1));
    assert_eq!(about.status_code_counts.get(&200), Some(&1));
    let post = both
        .requests
        .iter()
        .find(|request| request.method == GooseMethod::POST)
        .unwrap();
    assert_eq!(post.path, "/");
    assert_eq!(post.response_time_counter, 1);
    assert_eq!(post.response_times.get(&700), Some(&1));
    for request in &both.requests {
        assert_eq!(
            request.success_count + request.fail_count,
            request.response_time_counter
        );
        assert_eq!(
            request.response_times.values().sum::<usize>(),
            request.response_time_counter
        );
    }
    // Nothing else of the metrics changes.
    assert_eq!(both.duration, a.duration);
    assert_eq!(both.tasks.len(), a.tasks.len());
}

#[test]
fn merging_with_the_empty_metrics_changes_nothing() {
    let (a, _, _) = three();
    let empty = GooseMetrics::default();
    assert_eq!(as_map(&merged(&empty, &a).requests), as_map(&a.requests));
    assert_eq!(as_map(&merged(&a, &empty).requests), as_map(&a.requests));
}

#[test]
fn merging_metrics_in_any_order_and_grouping() {
    let (a, b, c) = three();
    assert_eq!(
        as_map(&merged(&a, &b).requests),
        as_map(&merged(&b, &a).requests)
    );
    assert_eq!(
        as_map(&merged(&merged(&a, &b), &c).requests),
        as_map(&merged(&a, &merged(&b, &c)).requests)
    );
    assert_eq!(
        as_map(&merged(&merged(&c, &a), &b).requests),
        as_map(&merged(&a, &merged(&b, &c)).requests)
    );
}

#[test]
fn a_manager_takes_in_the_tasks_of_a_worker() {
    let mut own = GooseMetrics::default();
    own.tasks = vec![
        vec![
            GooseTaskMetric::new(0, "a", 0, "x"),
            GooseTaskMetric::new(0, "a", 1, "y"),
        ],
        vec![GooseTaskMetric::new(1, "b", 0, "z")],
    ];
    own.tasks[0][0].set_time(10, true);
    let mut other = own.tasks.clone();
    other[0][0].set_time(30, false);
    other[0][1].set_time(5, true);
    // A task and a task set that the Manager does not know are dropped.
    other[1].push(GooseTaskMetric::new(1, "b", 1, "lost"));
    other.push(vec![GooseTaskMetric::new(2, "c", 0, "lost")]);
    own.merge_tasks(&other);
    assert_eq!(own.tasks.len(), 2);
    assert_eq!(own.tasks[0].len(), 2);
    assert_eq!(own.tasks[1].len(), 1);
    assert_eq!(own.tasks[0][0].counter, 3);
    assert_eq!(own.tasks[0][0].success_count, 2);
    assert_eq!(own.tasks[0][0].fail_count, 1);
    assert_eq!(own.tasks[0][0].min_time, 10);
    assert_eq!(own.tasks[0][0].max_time, 30);
    assert_eq!(own.tasks[0][1].counter, 1);
    assert_eq!(own.tasks[1][0].counter, 0);
    assert_eq!(own.tasks[0][0].task_name, "x");

    let mut set = vec![GooseTaskMetric::new(0, "a", 0, "x")];
    merge_task_set(&mut set, &Vec::new());
    assert_eq!(set[0].counter, 0);
}

#[test]
fn merged_summaries_stay_those_of_their_tasks_and_requests() {
    let mut own = GooseMetrics::default();
    own.tasks = vec![vec![
        GooseTaskMetric::new(3, "set", 0, "first"),
        GooseTaskMetric::new(3, "set", 1, "second"),
    ]];
    // What comes in is taken by its place, whatever it is called.
    let mut other = vec![vec![
        GooseTaskMetric::new(7, "other set", 5, "other first"),
        GooseTaskMetric::new(7, "other set", 6, "other second"),
    ]];
    other[0][1].set_time(40, true);
    own.merge_tasks(&other);
    assert_eq!(own.tasks[0][0].taskset_index, 3);
    assert_eq!(own.tasks[0][0].taskset_name, "set");
    assert_eq!(own.tasks[0][0].task_index, 0);
    assert_eq!(own.tasks[0][0].task_name, "first");
    assert_eq!(own.tasks[0][1].taskset_index, 3);
    assert_eq!(own.tasks[0][1].taskset_name, "set");
    assert_eq!(own.tasks[0][1].task_index, 1);
    assert_eq!(own.tasks[0][1].task_name, "second");
    assert_eq!(own.tasks[0][1].counter, 1);
    assert_eq!(own.tasks[0][1].max_time, 40);

    let mut manager = GooseMetrics::default();
    manager.requests = vec![
        GooseRequest::new("/", GooseMethod::GET, 11),
        GooseRequest::new("/about", GooseMethod::GET, 11),
    ];
    let worker = vec![
        GooseRequest::new("/new", GooseMethod::POST, 22),
        GooseRequest::new("/about", GooseMethod::GET, 22),
        GooseRequest::new("/also", GooseMethod::GET, 22),
    ];
    manager.merge_requests(&worker);
    assert_eq!(manager.requests.len(), 4);
    assert_eq!(manager.requests[3].path, "/also");
    assert_eq!(manager.requests[3].load_test_hash, 22);
    assert_eq!(manager.requests[0].path, "/");
    assert_eq!(manager.requests[0].load_test_hash, 11);
    assert_eq!(manager.requests[1].path, "/about");
    assert_eq!(manager.requests[1].method, GooseMethod::GET);
    assert_eq!(manager.requests[1].load_test_hash, 11);
    assert_eq!(manager.requests[2].path, "/new");
    assert_eq!(manager.requests[2].method, GooseMethod::POST);
    assert_eq!(manager.requests[2].load_test_hash, 22);
}
