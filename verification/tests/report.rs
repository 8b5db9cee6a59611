use goose::display::codes_string;
use goose::goose::{GooseMethod, GooseRawRequest, GooseRequest};
use goose::logs::{join_with, log_format, prepare_csv, quote, LogFormat};
use goose::metrics::{GooseMetrics, GooseTaskMetric};
use goose::report::{fails_string, percent_string, push_line, summary_line, widths, TableKind};
use goose::text::{
    bool_string, decimal_string, decimal_string_u128, decimal_string_u64, format_number,
    pad_left, pad_right, push_spaces, row, truncate_string,
};
use std::collections::BTreeMap;

const RULE: &str =
    "-------------------------------------------------------------------------------";
const INNER_RULE: &str =
    " ----------------------------------------------------------------------------- ";

fn sample(name: &str, response_time: u64, status_code: u16) -> GooseRawRequest {
    let mut raw = GooseRawRequest::new(GooseMethod::GET, name, "http://localhost/", 0, 1);
    raw.set_response_time(response_time as u128);
    raw.set_status_code(Some(status_code));
    raw
}

fn two_requests() -> GooseMetrics {
    let mut metrics = GooseMetrics::default();
    metrics.duration = 2;
    // Recorded out of order: the tables list them by their key.
    metrics.record_request(&sample("/index", 40, 200), true);
    metrics.record_request(&sample("/about", 10, 200), true);
    metrics.record_request(&sample("/about", 20, 500), true);
    metrics.record_request(&sample("/about", 30, 200), true);
    metrics
}

#[test]
fn numbers_are_grouped_by_thousands() {
    assert_eq!(format_number(0), "0");
    assert_eq!(format_number(7), "7");
    assert_eq!(format_number(999), "999");
    assert_eq!(format_number(1000), "1,000");
    assert_eq!(format_number(1_002_003), "1,002,003");
    assert_eq!(format_number(36_307), "36,307");
}

#[test]
fn numbers_as_decimal_text() {
    assert_eq!(decimal_string(0), "0");
    assert_eq!(decimal_string(9), "9");
    assert_eq!(decimal_string(10), "10");
    assert_eq!(decimal_string(1_002_003), "1002003");
    assert_eq!(decimal_string_u64(u64::MAX), "18446744073709551615");
    assert_eq!(
        decimal_string_u128(u128::MAX),
        "340282366920938463463374607431768211455"
    );
    assert_eq!(bool_string(true), "true");
    assert_eq!(bool_string(false), "false");
}

#[test]
fn text_is_padded_and_cut() {
    assert_eq!(pad_right("ab", 5), "ab   ");
    assert_eq!(pad_right("abcde", 5), "abcde");
    assert_eq!(pad_right("abcdef", 5), "abcdef");
    assert_eq!(pad_right("", 0), "");
    assert_eq!(pad_left("42", 6), "    42");
    assert_eq!(pad_left("1234567", 6), "1234567");
    let mut text = String::from("x");
    push_spaces(&mut text, 3);
    assert_eq!(text, "x   ");
    assert_eq!(truncate_string("short", 23), "short");
    assert_eq!(
        truncate_string("GET /a/very/long/path/to/a/page", 23),
        "GET /a/very/long/path.."
    );
    assert_eq!(truncate_string("12345678901234567890123", 23).len(), 23);
    assert_eq!(truncate_string("abc", 2), "..");
    assert_eq!(truncate_string("abc", 1), "..");
    assert_eq!(truncate_string("héllo wörld", 5), "hél..");
}

#[test]
fn a_row_joins_its_cells() {
    let cells = vec!["Name".to_string(), "# reqs".to_string(), "x".to_string()];
    assert_eq!(
        row(&cells, &vec![6, 8, 1]),
        format!(" {:<6} | {:<8} | {:<1}", "Name", "# reqs", "x")
    );
    assert_eq!(row(&Vec::new(), &Vec::new()), " ");
    assert_eq!(row(&vec!["a".to_string()], &Vec::new()), " a");
    assert_eq!(widths(TableKind::Counts), vec![23, 14, 14, 6, 5]);
    assert_eq!(widths(TableKind::Times), vec![23, 10, 10, 10, 10]);
    assert_eq!(widths(TableKind::Percentiles), vec![23, 6, 6, 6, 6, 6, 6]);
    let mut out = String::from("a");
    push_line(&mut out, "b");
    assert_eq!(out, "ab\n");
}

#[test]
fn failures_in_percent() {
    assert_eq!(percent_string(0, 0), "0");
    assert_eq!(percent_string(0, 10), "0");
    assert_eq!(percent_string(10, 10), "100");
    assert_eq!(percent_string(1, 3), "33.3");
    assert_eq!(percent_string(2, 3), "66.7");
    assert_eq!(percent_string(1, 8), "12.5");
    assert_eq!(percent_string(1, 2), "50.0");
    // Below one percent the whole number is shown.
    assert_eq!(percent_string(1, 1000), "0");
    assert_eq!(percent_string(9995, 10000), "100.0");
    assert_eq!(fails_string(0, 10), "0 (0%)");
    assert_eq!(fails_string(1234, 2468), "1,234 (50.0%)");
    assert_eq!(fails_string(5, 5), "5 (100%)");
}

#[test]
fn the_line_of_a_summary() {
    let mut times = BTreeMap::new();
    times.insert(10, 1);
    times.insert(20, 1);
    times.insert(30, 2);
    let counts = summary_line(
        TableKind::Counts,
        "GET /".to_string(),
        &times,
        10,
        30,
        90,
        4,
        3,
        1,
        2,
    );
    assert_eq!(
        counts,
        format!(
            " {:<23} | {:<14} | {:<14} | {:<6} | {:<5}",
            "GET /", "4", "1 (25.0%)", "2", "0"
        )
    );
    let times_line = summary_line(
        TableKind::Times,
        "GET /".to_string(),
        &times,
        10,
        30,
        90,
        4,
        3,
        1,
        2,
    );
    assert_eq!(
        times_line,
        format!(
            " {:<23} | {:<10} | {:<10} | {:<10} | {:<10}",
            "GET /", 22, 10, 30, 20
        )
    );
    let percentiles = summary_line(
        TableKind::Percentiles,
        "GET /".to_string(),
        &times,
        10,
        30,
        90,
        4,
        3,
        1,
        2,
    );
    assert_eq!(
        percentiles,
        format!(
            " {:<23} | {:<6} | {:<6} | {:<6} | {:<6} | {:<6} | {:6}",
            "GET /", 20, 30, 30, 30, 30, 30
        )
    );
}

#[test]
fn the_table_of_requests() {
    let metrics = two_requests();
    let line = |name: &str, total: &str, fails: &str, per_second: &str, fail_per_second: &str| {
        format!(
            " {:<23} | {:<14} | {:<14} | {:<6} | {:<5}\n",
            name, total, fails, per_second, fail_per_second
        )
    };
    let expected = format!(
        "\n=== PER REQUEST METRICS ===\n------------------------------------------------------------------------------ \n{}{}\n{}{}{}\n{}",
        line("Name", "# reqs", "# fails", "req/s", "fail/s"),
        INNER_RULE,
        line("GET /about", "3", "1 (33.3%)", "1", "0"),
        line("GET /index", "1", "0 (0%)", "0", "0"),
        " ------------------------+----------------+----------------+--------+--------- ",
        line("Aggregated", "4", "1 (25.0%)", "2", "0"),
    );
    assert_eq!(metrics.fmt_requests(), expected);
    assert_eq!(GooseMetrics::default().fmt_requests(), "");
}

#[test]
fn one_request_has_no_aggregated_line() {
    let mut metrics = GooseMetrics::default();
    metrics.record_request(&sample("/", 40, 200), false);
    let text = metrics.fmt_requests();
    assert!(text.contains(" GET /"));
    assert!(!text.contains("Aggregated"));
    assert!(!metrics.fmt_response_times().contains("Aggregated"));
}

#[test]
fn the_table_of_response_times() {
    let metrics = two_requests();
    let line = |name: &str, average: usize, min: usize, max: usize, median: usize| {
        format!(
            " {:<23} | {:<10} | {:<10} | {:<10} | {:<10}\n",
            name, average, min, max, median
        )
    };
    let expected = format!(
        "{}\n{}{}\n{}{}{}\n{}",
        RULE,
        format!(
            " {:<23} | {:<10} | {:<10} | {:<10} | {:<10}\n",
            "Name", "Avg (ms)", "Min", "Max", "Median"
        ),
        INNER_RULE,
        line("GET /about", 20, 10, 30, 20),
        line("GET /index", 40, 40, 40, 40),
        " ------------------------+------------+------------+------------+------------- ",
        line("Aggregated", 25, 10, 40, 20),
    );
    assert_eq!(metrics.fmt_response_times(), expected);
    assert_eq!(GooseMetrics::default().fmt_response_times(), "");
}

#[test]
fn the_table_of_percentiles() {
    let mut metrics = two_requests();
    assert_eq!(metrics.fmt_percentiles(), "");
    metrics.display_percentile = true;
    let line = |name: &str, p: [usize; 6]| {
        format!(
            " {:<23} | {:<6} | {:<6} | {:<6} | {:<6} | {:<6} | {:6}\n",
            name, p[0], p[1], p[2], p[3], p[4], p[5]
        )
    };
    let expected = format!(
        "{}\n Slowest page load within specified percentile of requests (in ms):\n ------------------------------------------------------------------------------\n{}{}\n{}{}{}\n{}",
        RULE,
        format!(
            " {:<23} | {:<6} | {:<6} | {:<6} | {:<6} | {:<6} | {:6}\n",
            "Name", "50%", "75%", "98%", "99%", "99.9%", "99.99%"
        ),
        INNER_RULE,
        line("GET /about", [20, 20, 30, 30, 30, 30]),
        line("GET /index", [40, 40, 40, 40, 40, 40]),
        " ------------------------+--------+--------+--------+--------+--------+------- ",
        line("Aggregated", [20, 30, 40, 40, 40, 40]),
    );
    assert_eq!(metrics.fmt_percentiles(), expected);
}

#[test]
fn the_table_of_status_codes() {
    let mut metrics = two_requests();
    assert_eq!(metrics.fmt_status_codes(), "");
    metrics.display_status_codes = true;
    let expected = format!(
        "{}\n{}\n{}\n{}\n{}\n{}\n{}\n",
        RULE,
        format!(" {:<23} | {:<25} ", "Name", "Status codes"),
        INNER_RULE,
        format!(" {:<23} | {:<25}", "GET /about", "2 [200], 1 [500]"),
        format!(" {:<23} | {:<25}", "GET /index", "1 [200]"),
        RULE,
        format!(" {:<23} | {:<25} ", "Aggregated", "3 [200], 1 [500]"),
    );
    assert_eq!(metrics.fmt_status_codes(), expected);
    let mut codes = BTreeMap::new();
    assert_eq!(codes_string(&codes), "");
    codes.insert(404u16, 1234usize);
    codes.insert(65535u16, 1usize);
    codes.insert(0u16, 2usize);
    assert_eq!(codes_string(&codes), "2 [0], 1,234 [404], 1 [65535]");
}

fn two_task_sets() -> GooseMetrics {
    let mut metrics = GooseMetrics::default();
    metrics.duration = 10;
    metrics.display_metrics = true;
    let mut login = GooseTaskMetric::new(0, "Visitors", 0, "login");
    login.set_time(100, true);
    login.set_time(200, false);
    let mut browse = GooseTaskMetric::new(0, "Visitors", 1, "");
    for _ in 0..30 {
        browse.set_time(10, true);
    }
    let idle = GooseTaskMetric::new(1, "Admins", 0, "a task with quite a long name");
    metrics.tasks = vec![vec![login, browse], vec![idle]];
    metrics
}

#[test]
fn the_table_of_tasks() {
    let metrics = two_task_sets();
    let line = |name: &str, total: &str, fails: &str, per_second: &str, fail_per_second: &str| {
        format!(
            " {:<23} | {:<14} | {:<14} | {:<6} | {:<5}\n",
            name, total, fails, per_second, fail_per_second
        )
    };
    let expected = format!(
        "\n=== PER TASK METRICS ===\n------------------------------------------------------------------------------ \n{}{}\n{}{}{}{}{}{}\n{}",
        line("Name", "# times run", "# fails", "task/s", "fail/s"),
        INNER_RULE,
        format!(" {:23 } |\n", "1: Visitors"),
        line("  1: login", "2", "1 (50.0%)", "0", "0"),
        line("  2: ", "30", "0 (0%)", "3", "0"),
        format!(" {:23 } |\n", "2: Admins"),
        line("  1: a task with quit..", "0", "0 (0%)", "0", "0"),
        " ------------------------+----------------+----------------+--------+--------- ",
        line("Aggregated", "32", "1 (3.1%)", "3", "0"),
    );
    assert_eq!(metrics.fmt_tasks(), expected);
    let mut hidden = two_task_sets();
    hidden.display_metrics = false;
    assert_eq!(hidden.fmt_tasks(), "");
    assert_eq!(hidden.fmt_task_times(), "");
    assert_eq!(GooseMetrics::default().fmt_tasks(), "");
}

#[test]
fn the_table_of_task_times() {
    let metrics = two_task_sets();
    let line = |name: &str, average: usize, min: usize, max: usize, median: usize| {
        format!(
            " {:<23} | {:<10} | {:<10} | {:<10} | {:<10}\n",
            name, average, min, max, median
        )
    };
    let expected = format!(
        "{}\n{}{}\n{}{}{}{}{}{}\n{}",
        RULE,
        format!(
            " {:<23} | {:<10} | {:<10} | {:<10} | {:<10}\n",
            "Name", "Avg (ms)", "Min", "Max", "Median"
        ),
        INNER_RULE,
        format!(" {:23 } |\n", "1: Visitors"),
        line("  1: login", 150, 100, 200, 100),
        line("  2: ", 10, 10, 10, 10),
        format!(" {:23 } |\n", "2: Admins"),
        line("  1: a task with quit..", 0, 0, 0, 0),
        " ------------------------+------------+------------+------------+------------- ",
        line("Aggregated", 18, 10, 200, 10),
    );
    assert_eq!(metrics.fmt_task_times(), expected);
}

#[test]
fn a_single_task_has_no_aggregated_line() {
    let mut metrics = GooseMetrics::default();
    metrics.display_metrics = true;
    metrics.tasks = vec![vec![GooseTaskMetric::new(0, "s", 0, "t")]];
    assert!(!metrics.fmt_tasks().contains("Aggregated"));
    assert!(!metrics.fmt_task_times().contains("Aggregated"));
    assert!(metrics.fmt_tasks().contains("1: s"));
}

#[test]
fn the_whole_report_is_its_tables_in_order() {
    let mut metrics = two_requests();
    metrics.tasks = two_task_sets().tasks;
    metrics.display_metrics = true;
    metrics.display_percentile = true;
    metrics.display_status_codes = true;
    let expected = format!(
        "{}{}{}{}{}{}",
        metrics.fmt_tasks(),
        metrics.fmt_task_times(),
        metrics.fmt_requests(),
        metrics.fmt_response_times(),
        metrics.fmt_percentiles(),
        metrics.fmt_status_codes()
    );
    assert_eq!(metrics.render(), expected);
    assert_eq!(GooseMetrics::default().render(), "");
}

#[test]
fn requests_are_listed_by_ascending_key() {
    let mut metrics = GooseMetrics::default();
    for name in ["/zebra", "/Zulu", "/alpha", "/", "/alpha/beta", "/é"] {
        metrics.record_request(&sample(name, 1, 200), false);
    }
    let mut post = sample("/alpha", 1, 200);
    post.method = GooseMethod::POST;
    metrics.record_request(&post, false);
    let mut delete = sample("/zebra", 1, 200);
    delete.method = GooseMethod::DELETE;
    metrics.record_request(&delete, false);
    assert_eq!(
        metrics.sorted_request_keys(),
        vec![
            "DELETE /zebra",
            "GET /",
            "GET /Zulu",
            "GET /alpha",
            "GET /alpha/beta",
            "GET /zebra",
            "GET /é",
            "POST /alpha",
        ]
    );
    // The order of the lines does not depend on the order of the requests.
    let given = vec!["GET /zebra".to_string(), "GET /".to_string(), "GET /none".to_string()];
    let text = metrics.fmt_requests_for(&given);
    let zebra = text.find("GET /zebra").unwrap();
    let index = text.find(" GET /  ").unwrap();
    assert!(zebra < index);
    assert!(!text.contains("/none"));
}

#[test]
fn a_request_without_samples_has_an_average_of_zero() {
    let mut metrics = GooseMetrics::default();
    metrics.requests = vec![GooseRequest::new("/", GooseMethod::GET, 0)];
    let text = metrics.fmt_response_times();
    assert!(text.contains(&format!(
        " {:<23} | {:<10} | {:<10} | {:<10} | {:<10}\n",
        "GET /", 0, 0, 0, 0
    )));
}

#[test]
fn a_line_of_comma_separated_values() {
    let mut raw = GooseRawRequest::new(GooseMethod::POST, "login", "http://localhost/login", 1500, 4);
    raw.set_final_url("http://localhost/home");
    raw.set_response_time(37);
    raw.set_status_code(Some(302));
    let mut header = true;
    let first = prepare_csv(&raw, &mut header);
    assert!(!header);
    assert_eq!(
        first,
        "elapsed,method,name,url,final_url,redirected,response_time,status_code,success,update,user\n1500,POST,\"login\",\"http://localhost/login\",\"http://localhost/home\",true,37,302,false,false,4"
    );
    let second = prepare_csv(&raw, &mut header);
    assert!(!header);
    assert_eq!(
        second,
        "1500,POST,\"login\",\"http://localhost/login\",\"http://localhost/home\",true,37,302,false,false,4"
    );
    assert_eq!(quote("a b"), "\"a b\"");
    assert_eq!(
        join_with(&vec!["a".to_string(), "".to_string(), "c".to_string()], ","),
        "a,,c"
    );
    assert_eq!(join_with(&Vec::new(), ","), "");
}

#[test]
fn the_formats_of_a_log() {
    assert_eq!(log_format("json"), Some(LogFormat::Json));
    assert_eq!(log_format("csv"), Some(LogFormat::Csv));
    assert_eq!(log_format("raw"), Some(LogFormat::Raw));
    assert_eq!(log_format("JSON"), None);
    assert_eq!(log_format(""), None);
}
