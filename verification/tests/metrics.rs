use goose::metrics::{
    calculate_response_time_percentile, merge_times, update_max_time, update_min_time,
};
use goose::report::per_second_calculations;
use std::collections::BTreeMap;

#[test]
fn max_response_time() {
    let mut max_response_time = 99;
    // Update max response time to a higher value.
    max_response_time = update_max_time(max_response_time, 101);
    assert_eq!(max_response_time, 101);
    // Max response time doesn't update when updating with a lower value.
    max_response_time = update_max_time(max_response_time, 1);
    assert_eq!(max_response_time, 101);
}

#[test]
fn min_response_time() {
    let mut min_response_time = 11;
    // Update min response time to a lower value.
    min_response_time = update_min_time(min_response_time, 9);
    assert_eq!(min_response_time, 9);
    // Min response time doesn't update when updating with a lower value.
    min_response_time = update_min_time(min_response_time, 22);
    assert_eq!(min_response_time, 9);
    // Min response time doesn't update when updating with a 0 value.
    min_response_time = update_min_time(min_response_time, 0);
    assert_eq!(min_response_time, 9);
}

#[test]
fn response_time_merge() {
    let mut global_response_times: BTreeMap<usize, usize> = BTreeMap::new();
    let local_response_times: BTreeMap<usize, usize> = BTreeMap::new();
    global_response_times = merge_times(global_response_times, local_response_times.clone());
    assert_eq!(&global_response_times, &local_response_times);
}

#[test]
fn max_response_time_percentile() {
    let mut response_times: BTreeMap<usize, usize> = BTreeMap::new();
    response_times.insert(1, 1);
    response_times.insert(2, 1);
    response_times.insert(3, 1);
    // 3 * .5 = 1.5, rounds to 2.
    assert_eq!(
        calculate_response_time_percentile(&response_times, 3, 1, 3, 5000),
        2
    );
    response_times.insert(3, 2);
    // 4 * .5 = 2
    assert_eq!(
        calculate_response_time_percentile(&response_times, 4, 1, 3, 5000),
        2
    );
    // 4 * .25 = 1
    assert_eq!(
        calculate_response_time_percentile(&response_times, 4, 1, 3, 2500),
        1
    );
    // 4 * .75 = 3
    assert_eq!(
        calculate_response_time_percentile(&response_times, 4, 1, 3, 7500),
        3
    );
    // 4 * 1 = 4 (and the 4th response time is also 3)
    assert_eq!(
        calculate_response_time_percentile(&response_times, 4, 1, 3, 10000),
        3
    );

    // 4 * .5 = 2, but uses specified minimum of 2
    assert_eq!(
        calculate_response_time_percentile(&response_times, 4, 2, 3, 2500),
        2
    );
    // 4 * .75 = 3, but uses specified maximum of 2
    assert_eq!(
        calculate_response_time_percentile(&response_times, 4, 1, 2, 7500),
        2
    );

    response_times.insert(10, 25);
    response_times.insert(20, 25);
    response_times.insert(30, 25);
    response_times.insert(50, 25);
    response_times.insert(100, 10);
    response_times.insert(200, 1);
    assert_eq!(
        calculate_response_time_percentile(&response_times, 115, 1, 200, 9000),
        50
    );
    assert_eq!(
        calculate_response_time_percentile(&response_times, 115, 1, 200, 9900),
        100
    );
    assert_eq!(
        calculate_response_time_percentile(&response_times, 115, 1, 200, 9990),
        200
    );
}

#[test]
fn calculate_per_second() {
    // With duration of 0, requests and fails per second is always 0.
    let mut duration = 0;
    let mut total = 10;
    let fail = 10;
    let (requests_per_second, fails_per_second) = per_second_calculations(duration, total, fail);
    assert!(requests_per_second == "0");
    assert!(fails_per_second == "0");
    // Changing total doesn't affect requests and fails as duration is still 0.
    total = 100;
    let (requests_per_second, fails_per_second) = per_second_calculations(duration, total, fail);
    assert!(requests_per_second == "0");
    assert!(fails_per_second == "0");

    // With non-zero duration, requests and fails per second return properly.
    duration = 10;
    let (requests_per_second, fails_per_second) = per_second_calculations(duration, total, fail);
    assert!(requests_per_second == "10");
    assert!(fails_per_second == "1");
}
