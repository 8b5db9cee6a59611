//! The tables of a report: counts, times and percentiles of requests and
//! tasks, as text.

use crate::aggregate::Totals;
use crate::goose::{request_key, GooseRequest};
use crate::histogram::{saturate, spec_percentile};
use crate::metrics::{calculate_response_time_percentile, GooseTaskMetric};
use crate::summary::{empty_summary, spec_merge, Summary};
use crate::text::{
    decimal_digits, decimal_string, decimal_string_u128, format_number, grouped_digits, pad_left,
    row, spec_pad_left, spec_row, spec_truncate_string, texts, texts_sorted,
    truncate_string,
};
use std::collections::BTreeMap;
use vstd::prelude::*;
use vstd::string::StringExecFns;

verus! {

pub const NAME: &'static str = "Name";

pub const AGGREGATED: &'static str = "Aggregated";

pub const REQUESTS_TITLE: &'static str =
    "\n=== PER REQUEST METRICS ===\n------------------------------------------------------------------------------ ";

pub const TASKS_TITLE: &'static str =
    "\n=== PER TASK METRICS ===\n------------------------------------------------------------------------------ ";

pub const RULE: &'static str =
    "-------------------------------------------------------------------------------";

pub const INNER_RULE: &'static str =
    " ----------------------------------------------------------------------------- ";

pub const WIDE_RULE: &'static str =
    " ------------------------------------------------------------------------------";

pub const COUNTS_RULE: &'static str =
    " ------------------------+----------------+----------------+--------+--------- ";

pub const TIMES_RULE: &'static str =
    " ------------------------+------------+------------+------------+------------- ";

pub const PERCENTILES_RULE: &'static str =
    " ------------------------+--------+--------+--------+--------+--------+------- ";

pub const PERCENTILES_TITLE: &'static str =
    " Slowest page load within specified percentile of requests (in ms):";

pub const REQUESTS_COUNT: &'static str = "# reqs";

pub const FAILS_COUNT: &'static str = "# fails";

pub const REQUESTS_PER_SECOND: &'static str = "req/s";

pub const FAILS_PER_SECOND: &'static str = "fail/s";

pub const TIMES_RUN: &'static str = "# times run";

pub const TASKS_PER_SECOND: &'static str = "task/s";

pub const AVERAGE: &'static str = "Avg (ms)";

pub const MINIMUM: &'static str = "Min";

pub const MAXIMUM: &'static str = "Max";

pub const MEDIAN: &'static str = "Median";

pub const PERCENT_50: &'static str = "50%";

pub const PERCENT_75: &'static str = "75%";

pub const PERCENT_98: &'static str = "98%";

pub const PERCENT_99: &'static str = "99%";

pub const PERCENT_99_9: &'static str = "99.9%";

pub const PERCENT_99_99: &'static str = "99.99%";

pub const OPEN_PERCENT: &'static str = " (";

pub const CLOSE_PERCENT: &'static str = "%)";

pub const POINT: &'static str = ".";

pub const COLON: &'static str = ": ";

pub const INDENT: &'static str = "  ";

pub const SET_LINE_END: &'static str = " |";

pub const LINE_END: &'static str = "\n";

/// The three kinds of table that a summary has a line in.
#[derive(Clone, Copy, Debug, PartialEq, Eq, Structural)]
pub enum TableKind {
    /// How often, how many failures, and how many each second.
    Counts,
    /// The average, the shortest, the longest and the median time.
    Times,
    /// The times of six percentiles.
    Percentiles,
}

/// The widths of the columns of a table.
pub open spec fn spec_widths(kind: TableKind) -> Seq<usize> {
    match kind {
        TableKind::Counts => seq![23usize, 14usize, 14usize, 6usize, 5usize],
        TableKind::Times => seq![23usize, 10usize, 10usize, 10usize, 10usize],
        TableKind::Percentiles => seq![23usize, 6usize, 6usize, 6usize, 6usize, 6usize, 6usize],
    }
}

/// The widths of the columns of a table.
pub fn widths(kind: TableKind) -> (r: Vec<usize>)
    ensures
        r@ == spec_widths(kind),
{
    let r: Vec<usize> = match kind {
        TableKind::Counts => vec![23usize, 14usize, 14usize, 6usize, 5usize],
        TableKind::Times => vec![23usize, 10usize, 10usize, 10usize, 10usize],
        TableKind::Percentiles => vec![23usize, 6usize, 6usize, 6usize, 6usize, 6usize, 6usize],
    };
    assert(r@ =~= spec_widths(kind));
    r
}

/// How many of `count` fall on each second of `duration` seconds, written
/// with grouped digits; zero where no time has passed.
pub open spec fn per_second(duration: usize, count: usize) -> Seq<char> {
    if duration == 0 {
        grouped_digits(0)
    } else {
        grouped_digits((count / duration) as nat)
    }
}

/// Helper to calculate requests and fails per second.
pub fn per_second_calculations(duration: usize, total: usize, fail: usize) -> (r: (String, String))
    ensures
        r.0@ == per_second(duration, total),
        r.1@ == per_second(duration, fail),
{
    if duration == 0 {
        (format_number(0), format_number(0))
    } else {
        (format_number(total / duration), format_number(fail / duration))
    }
}

/// The failures in whole percent of the total, rounded down.
pub open spec fn percent_whole(fail: usize, total: usize) -> nat {
    if total == 0 {
        0
    } else {
        ((100 * fail) / (total as int)) as nat
    }
}

/// The failures in tenths of a percent of the total, rounded to the
/// nearest tenth.
pub open spec fn percent_tenths(fail: usize, total: usize) -> nat {
    if total == 0 {
        0
    } else {
        ((1000 * fail + total / 2) / (total as int)) as nat
    }
}

/// The failures in percent of the total, as text: a whole number where
/// this is 0 or 100, and one decimal otherwise.
pub open spec fn percent_text(fail: usize, total: usize) -> Seq<char> {
    if fail == 0 || percent_whole(fail, total) == 0 || percent_whole(fail, total) == 100 {
        decimal_digits(percent_whole(fail, total))
    } else {
        decimal_digits(percent_tenths(fail, total) / 10) + POINT@ + decimal_digits(
            percent_tenths(fail, total) % 10,
        )
    }
}

/// The failures in percent of the total, as text.
pub fn percent_string(fail: usize, total: usize) -> (r: String)
    ensures
        r@ == percent_text(fail, total),
{
    let whole: u128 = if total == 0 {
        0
    } else {
        (100 * (fail as u128)) / (total as u128)
    };
    assert(whole == percent_whole(fail, total));
    if fail == 0 || whole == 0 || whole == 100 {
        decimal_string_u128(whole)
    } else {
        let tenths: u128 = (1000 * (fail as u128) + (total as u128) / 2) / (total as u128);
        assert(tenths == percent_tenths(fail, total));
        let mut r = decimal_string_u128(tenths / 10);
        r.append(POINT);
        let last = decimal_string_u128(tenths % 10);
        r.append(last.as_str());
        r
    }
}

/// The number of failures with their percentage, as in "12 (1.5%)".
pub open spec fn fails_text(fail: usize, total: usize) -> Seq<char> {
    grouped_digits(fail as nat) + OPEN_PERCENT@ + percent_text(fail, total) + CLOSE_PERCENT@
}

/// The average time of a summary; zero for a summary without samples.
pub open spec fn average_time(s: Summary) -> usize {
    if s.counter == 0 {
        0
    } else {
        s.total_time / s.counter
    }
}

/// The time within which a percentile of the samples of a summary
/// finished; the percentile is given in ten-thousandths.
pub open spec fn summary_percentile(s: Summary, per_myriad: nat) -> usize {
    spec_percentile(s.times, s.counter as nat, s.min_time, s.max_time, per_myriad)
}

/// The cells of the line of a summary in a table of the given kind.
pub open spec fn summary_cells(kind: TableKind, name: Seq<char>, s: Summary, duration: usize) -> Seq<
    Seq<char>,
> {
    match kind {
        TableKind::Counts => {
            let total = saturate((s.success_count + s.fail_count) as nat);
            seq![
                name,
                grouped_digits(total as nat),
                fails_text(s.fail_count, total),
                per_second(duration, total),
                per_second(duration, s.fail_count),
            ]
        },
        TableKind::Times => seq![
            name,
            decimal_digits(average_time(s) as nat),
            decimal_digits(s.min_time as nat),
            decimal_digits(s.max_time as nat),
            decimal_digits(summary_percentile(s, 5000) as nat),
        ],
        TableKind::Percentiles => seq![
            name,
            decimal_digits(summary_percentile(s, 5000) as nat),
            decimal_digits(summary_percentile(s, 7500) as nat),
            decimal_digits(summary_percentile(s, 9800) as nat),
            decimal_digits(summary_percentile(s, 9900) as nat),
            decimal_digits(summary_percentile(s, 9990) as nat),
            spec_pad_left(decimal_digits(summary_percentile(s, 9999) as nat), 6),
        ],
    }
}

/// The cells of the head of a table of requests.
pub open spec fn request_head_cells(kind: TableKind) -> Seq<Seq<char>> {
    match kind {
        TableKind::Counts => seq![
            NAME@,
            REQUESTS_COUNT@,
            FAILS_COUNT@,
            REQUESTS_PER_SECOND@,
            FAILS_PER_SECOND@,
        ],
        TableKind::Times => seq![NAME@, AVERAGE@, MINIMUM@, MAXIMUM@, MEDIAN@],
        TableKind::Percentiles => seq![
            NAME@,
            PERCENT_50@,
            PERCENT_75@,
            PERCENT_98@,
            PERCENT_99@,
            PERCENT_99_9@,
            PERCENT_99_99@,
        ],
    }
}

/// The cells of the head of a table of tasks.
pub open spec fn task_head_cells(kind: TableKind) -> Seq<Seq<char>> {
    match kind {
        TableKind::Counts => seq![
            NAME@,
            TIMES_RUN@,
            FAILS_COUNT@,
            TASKS_PER_SECOND@,
            FAILS_PER_SECOND@,
        ],
        _ => request_head_cells(kind),
    }
}

/// The rule above the last line of a table.
pub open spec fn last_rule(kind: TableKind) -> Seq<char> {
    match kind {
        TableKind::Counts => COUNTS_RULE@,
        TableKind::Times => TIMES_RULE@,
        TableKind::Percentiles => PERCENTILES_RULE@,
    }
}

/// The summary that the last line of a table of times shows: a summary
/// without samples counts as one sample.
pub open spec fn shown_totals(kind: TableKind, s: Summary) -> Summary {
    if kind == TableKind::Times && s.counter == 0 {
        Summary { counter: 1, ..s }
    } else {
        s
    }
}

/// The last lines of a table: a rule, and the line of all summaries
/// merged.
pub open spec fn last_lines(kind: TableKind, totals: Summary, duration: usize) -> Seq<char> {
    last_rule(kind) + LINE_END@ + spec_row(
        summary_cells(kind, AGGREGATED@, shown_totals(kind, totals), duration),
        spec_widths(kind),
    ) + LINE_END@
}

/// A line of text with its end.
pub fn push_line(out: &mut String, line: &str)
    ensures
        final(out)@ == old(out)@ + line@ + LINE_END@,
{
    out.append(line);
    out.append(LINE_END);
}

/// The number of failures with their percentage.
pub fn fails_string(fail: usize, total: usize) -> (r: String)
    ensures
        r@ == fails_text(fail, total),
{
    let mut r = format_number(fail);
    r.append(OPEN_PERCENT);
    let percent = percent_string(fail, total);
    r.append(percent.as_str());
    r.append(CLOSE_PERCENT);
    r
}

/// The text of the time of a percentile.
pub fn percentile_string(
    times: &BTreeMap<usize, usize>,
    counter: usize,
    min: usize,
    max: usize,
    percent: usize,
) -> (r: String)
    ensures
        r@ == decimal_digits(
            spec_percentile(times@, counter as nat, min, max, percent as nat) as nat,
        ),
{
    decimal_string(calculate_response_time_percentile(times, counter, min, max, percent))
}

/// Builds the line of a summary in a table of the given kind.
pub fn summary_line(
    kind: TableKind,
    name: String,
    times: &BTreeMap<usize, usize>,
    min_time: usize,
    max_time: usize,
    total_time: usize,
    counter: usize,
    success_count: usize,
    fail_count: usize,
    duration: usize,
) -> (r: String)
    ensures
        r@ == spec_row(
            summary_cells(
                kind,
                name@,
                Summary {
                    times: times@,
                    min_time,
                    max_time,
                    total_time,
                    counter,
                    success_count,
                    fail_count,
                },
                duration,
            ),
            spec_widths(kind),
        ),
{
    let ghost s = Summary {
        times: times@,
        min_time,
        max_time,
        total_time,
        counter,
        success_count,
        fail_count,
    };
    let cells: Vec<String> = match kind {
        TableKind::Counts => {
            let total = success_count.saturating_add(fail_count);
            let (per_second_total, per_second_fail) = per_second_calculations(
                duration,
                total,
                fail_count,
            );
            vec![
                name,
                format_number(total),
                fails_string(fail_count, total),
                per_second_total,
                per_second_fail,
            ]
        },
        TableKind::Times => {
            let average: usize = if counter == 0 {
                0
            } else {
                total_time / counter
            };
            vec![
                name,
                decimal_string(average),
                decimal_string(min_time),
                decimal_string(max_time),
                percentile_string(times, counter, min_time, max_time, 5000),
            ]
        },
        TableKind::Percentiles => {
            let last = percentile_string(times, counter, min_time, max_time, 9999);
            vec![
                name,
                percentile_string(times, counter, min_time, max_time, 5000),
                percentile_string(times, counter, min_time, max_time, 7500),
                percentile_string(times, counter, min_time, max_time, 9800),
                percentile_string(times, counter, min_time, max_time, 9900),
                percentile_string(times, counter, min_time, max_time, 9990),
                pad_left(last.as_str(), 6),
            ]
        },
    };
    assert(texts(cells@) =~= summary_cells(kind, name@, s, duration));
    let columns = widths(kind);
    row(&cells, &columns)
}

/// Builds the last lines of a table from the merged summaries.
pub fn totals_lines(kind: TableKind, totals: &Totals, duration: usize) -> (r: String)
    ensures
        r@ == last_lines(kind, totals.summary(), duration),
{
    let mut out = String::new();
    let rule: &str = match kind {
        TableKind::Counts => COUNTS_RULE,
        TableKind::Times => TIMES_RULE,
        TableKind::Percentiles => PERCENTILES_RULE,
    };
    push_line(&mut out, rule);
    let counter: usize = match kind {
        TableKind::Times => if totals.counter == 0 {
            1
        } else {
            totals.counter
        },
        _ => totals.counter,
    };
    let line = summary_line(
        kind,
        String::from_str(AGGREGATED),
        &totals.times,
        totals.min_time,
        totals.max_time,
        totals.total_time,
        counter,
        totals.success_count,
        totals.fail_count,
        duration,
    );
    push_line(&mut out, line.as_str());
    assert(out@ =~= last_lines(kind, totals.summary(), duration));
    out
}

/// The position of the first request, from `from` on, that is summed up
/// under the given key; the number of requests where there is none.
pub open spec fn position_of(requests: Seq<GooseRequest>, key: Seq<char>, from: int) -> int
    decreases requests.len() - from,
{
    if from < 0 || from >= requests.len() {
        requests.len() as int
    } else if requests[from].key() == key {
        from
    } else {
        position_of(requests, key, from + 1)
    }
}

/// The keys of a list of requests.
pub open spec fn request_keys(requests: Seq<GooseRequest>) -> Seq<Seq<char>> {
    Seq::new(requests.len(), |i: int| requests[i].key())
}

/// `keys` are the keys of the requests, each as often as it occurs, in
/// ascending order.
pub open spec fn is_sorted_keys(requests: Seq<GooseRequest>, keys: Seq<Seq<char>>) -> bool {
    &&& keys.to_multiset() == request_keys(requests).to_multiset()
    &&& texts_sorted(keys)
}

/// The keys of a list of requests have one ascending order.
pub proof fn lemma_sorted_keys_unique(
    requests: Seq<GooseRequest>,
    a: Seq<Seq<char>>,
    b: Seq<Seq<char>>,
)
    requires
        is_sorted_keys(requests, a),
        is_sorted_keys(requests, b),
    ensures
        a == b,
{
    crate::text::lemma_sorted_texts_unique(a, b);
}

/// The position of a key in a list of requests is the position of the
/// first request with that key, or the length of the list.
pub proof fn lemma_position_of(requests: Seq<GooseRequest>, key: Seq<char>, from: int)
    requires
        0 <= from <= requests.len(),
    ensures
        from <= position_of(requests, key, from) <= requests.len(),
        position_of(requests, key, from) < requests.len() ==> requests[position_of(
            requests,
            key,
            from,
        )].key() == key,
        forall|i: int| from <= i < position_of(requests, key, from) ==> requests[i].key() != key,
    decreases requests.len() - from,
{
    if from < requests.len() && requests[from].key() != key {
        lemma_position_of(requests, key, from + 1);
    }
}

/// Every request has one line in a table: where no two requests are of
/// the same method and name, the keys in ascending order are as many as
/// the requests, no key occurs twice, and each key is the key of a
/// request.
pub proof fn lemma_one_line_each(requests: Seq<GooseRequest>, keys: Seq<Seq<char>>)
    requires
        crate::record::requests_distinct(requests),
        is_sorted_keys(requests, keys),
    ensures
        keys.len() == requests.len(),
        keys.no_duplicates(),
        forall|j: int|
            0 <= j < keys.len() ==> position_of(requests, #[trigger] keys[j], 0) < requests.len(),
{
    broadcast use vstd::seq_lib::group_to_multiset_ensures;

    let own = request_keys(requests);
    assert forall|i: int, j: int| 0 <= i < own.len() && 0 <= j < own.len() && i != j implies own[i]
        != own[j] by {
        if own[i] == own[j] {
            crate::goose::lemma_request_key_injective(
                requests[i].method,
                requests[i].path@,
                requests[j].method,
                requests[j].path@,
            );
        }
    }
    own.lemma_multiset_has_no_duplicates();
    keys.lemma_multiset_has_no_duplicates_conv();
    assert(keys.len() == keys.to_multiset().len());
    assert(own.len() == own.to_multiset().len());
    assert forall|j: int| 0 <= j < keys.len() implies position_of(
        requests,
        #[trigger] keys[j],
        0,
    ) < requests.len() by {
        assert(keys.contains(keys[j]));
        assert(keys.to_multiset().count(keys[j]) > 0);
        assert(own.contains(keys[j]));
        let i = choose|i: int| 0 <= i < own.len() && own[i] == keys[j];
        lemma_position_of(requests, keys[j], 0);
        if position_of(requests, keys[j], 0) >= requests.len() {
            assert(requests[i].key() != keys[j]);
        }
    }
}

/// The line of the request with the given key in a table; nothing where
/// there is no such request.
pub open spec fn request_line(
    kind: TableKind,
    requests: Seq<GooseRequest>,
    key: Seq<char>,
    duration: usize,
) -> Seq<char> {
    let i = position_of(requests, key, 0);
    if i < requests.len() {
        spec_row(
            summary_cells(kind, spec_truncate_string(key, 23), requests[i].summary(), duration),
            spec_widths(kind),
        ) + LINE_END@
    } else {
        Seq::empty()
    }
}

/// The lines of the requests with the first `n` keys, in the order of the
/// keys.
pub open spec fn request_lines(
    kind: TableKind,
    requests: Seq<GooseRequest>,
    keys: Seq<Seq<char>>,
    duration: usize,
    n: int,
) -> Seq<char>
    decreases n,
{
    if n <= 0 {
        Seq::empty()
    } else {
        request_lines(kind, requests, keys, duration, n - 1) + request_line(
            kind,
            requests,
            keys[n - 1],
            duration,
        )
    }
}

/// The summaries of the requests with the first `n` keys, merged.
pub open spec fn request_totals(
    requests: Seq<GooseRequest>,
    keys: Seq<Seq<char>>,
    n: int,
) -> Summary
    decreases n,
{
    if n <= 0 {
        empty_summary()
    } else {
        let i = position_of(requests, keys[n - 1], 0);
        if i < requests.len() {
            spec_merge(request_totals(requests, keys, n - 1), requests[i].summary())
        } else {
            request_totals(requests, keys, n - 1)
        }
    }
}

/// A table of requests below its title: the head, a rule, a line for each
/// key in the order of the keys, and, where there is more than one
/// request, a rule and the line of all requests merged.
pub open spec fn request_table(
    kind: TableKind,
    requests: Seq<GooseRequest>,
    keys: Seq<Seq<char>>,
    duration: usize,
) -> Seq<char> {
    spec_row(request_head_cells(kind), spec_widths(kind)) + LINE_END@ + INNER_RULE@ + LINE_END@
        + request_lines(kind, requests, keys, duration, keys.len() as int) + if requests.len()
        > 1 {
        last_lines(kind, request_totals(requests, keys, keys.len() as int), duration)
    } else {
        Seq::empty()
    }
}

/// The title of a task set above the lines of its tasks: its number,
/// counted from 1, and its name.
pub open spec fn set_title(task: GooseTaskMetric) -> Seq<char> {
    spec_row(
        seq![
            spec_truncate_string(
                decimal_digits(saturate((task.taskset_index + 1) as nat) as nat) + COLON@
                    + task.taskset_name@,
                60,
            ),
        ],
        seq![23usize],
    ) + SET_LINE_END@ + LINE_END@
}

/// The name of a task in a table: its number, counted from 1, and its
/// name.
pub open spec fn task_cell(task: GooseTaskMetric) -> Seq<char> {
    spec_truncate_string(
        INDENT@ + decimal_digits(saturate((task.task_index + 1) as nat) as nat) + COLON@
            + task.task_name@,
        23,
    )
}

/// The lines of the first `n` tasks of a task set: the title of the task
/// set, and a line for each task.
pub open spec fn set_lines(kind: TableKind, tasks: Seq<GooseTaskMetric>, duration: usize, n: int) -> Seq<
    char,
>
    decreases n,
{
    if n <= 0 {
        Seq::empty()
    } else {
        set_lines(kind, tasks, duration, n - 1) + (if n == 1 {
            set_title(tasks[0])
        } else {
            Seq::empty()
        }) + spec_row(
            summary_cells(kind, task_cell(tasks[n - 1]), tasks[n - 1].summary(), duration),
            spec_widths(kind),
        ) + LINE_END@
    }
}

/// The lines of the first `n` task sets.
pub open spec fn task_lines(
    kind: TableKind,
    sets: Seq<Vec<GooseTaskMetric>>,
    duration: usize,
    n: int,
) -> Seq<char>
    decreases n,
{
    if n <= 0 {
        Seq::empty()
    } else {
        task_lines(kind, sets, duration, n - 1) + set_lines(
            kind,
            sets[n - 1]@,
            duration,
            sets[n - 1]@.len() as int,
        )
    }
}

/// The summaries of the first `n` tasks of a task set, merged into
/// `start`.
pub open spec fn set_totals(tasks: Seq<GooseTaskMetric>, start: Summary, n: int) -> Summary
    decreases n,
{
    if n <= 0 {
        start
    } else {
        spec_merge(set_totals(tasks, start, n - 1), tasks[n - 1].summary())
    }
}

/// The summaries of the tasks of the first `n` task sets, merged.
pub open spec fn task_totals(sets: Seq<Vec<GooseTaskMetric>>, n: int) -> Summary
    decreases n,
{
    if n <= 0 {
        empty_summary()
    } else {
        set_totals(sets[n - 1]@, task_totals(sets, n - 1), sets[n - 1]@.len() as int)
    }
}

/// The number of tasks of the first `n` task sets.
pub open spec fn task_count(sets: Seq<Vec<GooseTaskMetric>>, n: int) -> nat
    decreases n,
{
    if n <= 0 {
        0
    } else {
        task_count(sets, n - 1) + sets[n - 1]@.len()
    }
}

/// A table of tasks below its title: the head, a rule, the lines of the
/// task sets, and, where there is more than one task, a rule and the line
/// of all tasks merged.
pub open spec fn task_table(kind: TableKind, sets: Seq<Vec<GooseTaskMetric>>, duration: usize) -> Seq<
    char,
> {
    spec_row(task_head_cells(kind), spec_widths(kind)) + LINE_END@ + INNER_RULE@ + LINE_END@
        + task_lines(kind, sets, duration, sets.len() as int) + if task_count(
        sets,
        sets.len() as int,
    ) > 1 {
        last_lines(kind, task_totals(sets, sets.len() as int), duration)
    } else {
        Seq::empty()
    }
}

/// The position of the first request that is summed up under the given
/// key; the number of requests where there is none.
pub fn find_request(requests: &Vec<GooseRequest>, key: &str) -> (r: usize)
    ensures
        r == position_of(requests@, key@, 0),
        r <= requests@.len(),
{
    let mut i: usize = 0;
    while i < requests.len()
        invariant
            i <= requests.len(),
            position_of(requests@, key@, 0) == position_of(requests@, key@, i as int),
        decreases requests.len() - i,
    {
        let own = request_key(requests[i].method, requests[i].path.as_str());
        if own == String::from_str(key) {
            return i;
        }
        i = i + 1;
    }
    i
}

/// Builds the head of a table: the names of its columns, and a rule.
pub fn table_head(kind: TableKind, of_tasks: bool) -> (r: String)
    ensures
        r@ == spec_row(
            if of_tasks {
                task_head_cells(kind)
            } else {
                request_head_cells(kind)
            },
            spec_widths(kind),
        ) + LINE_END@ + INNER_RULE@ + LINE_END@,
{
    let cells: Vec<String> = match kind {
        TableKind::Counts => {
            if of_tasks {
                vec![
                    String::from_str(NAME),
                    String::from_str(TIMES_RUN),
                    String::from_str(FAILS_COUNT),
                    String::from_str(TASKS_PER_SECOND),
                    String::from_str(FAILS_PER_SECOND),
                ]
            } else {
                vec![
                    String::from_str(NAME),
                    String::from_str(REQUESTS_COUNT),
                    String::from_str(FAILS_COUNT),
                    String::from_str(REQUESTS_PER_SECOND),
                    String::from_str(FAILS_PER_SECOND),
                ]
            }
        },
        TableKind::Times => vec![
            String::from_str(NAME),
            String::from_str(AVERAGE),
            String::from_str(MINIMUM),
            String::from_str(MAXIMUM),
            String::from_str(MEDIAN),
        ],
        TableKind::Percentiles => vec![
            String::from_str(NAME),
            String::from_str(PERCENT_50),
            String::from_str(PERCENT_75),
            String::from_str(PERCENT_98),
            String::from_str(PERCENT_99),
            String::from_str(PERCENT_99_9),
            String::from_str(PERCENT_99_99),
        ],
    };
    assert(texts(cells@) =~= if of_tasks {
        task_head_cells(kind)
    } else {
        request_head_cells(kind)
    });
    let columns = widths(kind);
    let mut out = String::new();
    let head = row(&cells, &columns);
    push_line(&mut out, head.as_str());
    push_line(&mut out, INNER_RULE);
    assert(out@ =~= spec_row(texts(cells@), spec_widths(kind)) + LINE_END@ + INNER_RULE@
        + LINE_END@);
    out
}

/// Builds a table of requests below its title, with a line for each of the
/// given keys in their order.
pub fn request_table_for(
    kind: TableKind,
    requests: &Vec<GooseRequest>,
    keys: &Vec<String>,
    duration: usize,
) -> (r: String)
    ensures
        r@ == request_table(kind, requests@, texts(keys@), duration),
{
    let mut out = table_head(kind, false);
    let ghost head = out@;
    let mut totals = Totals::new();
    let mut i: usize = 0;
    assert(out@ =~= head + request_lines(kind, requests@, texts(keys@), duration, 0));
    while i < keys.len()
        invariant
            i <= keys.len(),
            out@ == head + request_lines(kind, requests@, texts(keys@), duration, i as int),
            totals.summary() == request_totals(requests@, texts(keys@), i as int),
        decreases keys.len() - i,
    {
        let key = keys[i].as_str();
        assert(texts(keys@)[i as int] == key@);
        let position = find_request(requests, key);
        let ghost before = out@;
        if position < requests.len() {
            let request = &requests[position];
            let line = summary_line(
                kind,
                truncate_string(key, 23),
                &request.response_times,
                request.min_response_time,
                request.max_response_time,
                request.total_response_time,
                request.response_time_counter,
                request.success_count,
                request.fail_count,
                duration,
            );
            push_line(&mut out, line.as_str());
            totals.add_request(request);
            assert(out@ =~= before + request_line(kind, requests@, key@, duration));
        } else {
            assert(out@ =~= before + request_line(kind, requests@, key@, duration));
        }
        i = i + 1;
        assert(out@ =~= head + request_lines(kind, requests@, texts(keys@), duration, i as int));
    }
    if requests.len() > 1 {
        let last = totals_lines(kind, &totals, duration);
        out.append(last.as_str());
        assert(out@ =~= request_table(kind, requests@, texts(keys@), duration));
    } else {
        assert(out@ =~= request_table(kind, requests@, texts(keys@), duration));
    }
    out
}

/// Builds the title of a task set above the lines of its tasks.
pub fn set_title_line(task: &GooseTaskMetric) -> (r: String)
    ensures
        r@ == set_title(*task),
{
    let mut name = decimal_string(task.taskset_index.saturating_add(1));
    name.append(COLON);
    name.append(task.taskset_name.as_str());
    let cells: Vec<String> = vec![truncate_string(name.as_str(), 60)];
    let columns: Vec<usize> = vec![23usize];
    assert(texts(cells@) =~= seq![
        spec_truncate_string(
            decimal_digits(saturate((task.taskset_index + 1) as nat) as nat) + COLON@
                + task.taskset_name@,
            60,
        ),
    ]);
    assert(columns@ =~= seq![23usize]);
    let mut out = row(&cells, &columns);
    out.append(SET_LINE_END);
    out.append(LINE_END);
    out
}

/// Builds the name of a task in a table.
pub fn task_cell_text(task: &GooseTaskMetric) -> (r: String)
    ensures
        r@ == task_cell(*task),
{
    let mut name = String::from_str(INDENT);
    let number = decimal_string(task.task_index.saturating_add(1));
    name.append(number.as_str());
    name.append(COLON);
    name.append(task.task_name.as_str());
    truncate_string(name.as_str(), 23)
}

/// Builds a table of tasks below its title.
pub fn task_table_for(kind: TableKind, sets: &Vec<Vec<GooseTaskMetric>>, duration: usize) -> (r:
    String)
    ensures
        r@ == task_table(kind, sets@, duration),
{
    let mut out = table_head(kind, true);
    let ghost head = out@;
    let mut totals = Totals::new();
    let mut several: usize = 0;
    let mut i: usize = 0;
    assert(out@ =~= head + task_lines(kind, sets@, duration, 0));
    while i < sets.len()
        invariant
            i <= sets.len(),
            out@ == head + task_lines(kind, sets@, duration, i as int),
            totals.summary() == task_totals(sets@, i as int),
            several <= 2,
            several == if task_count(sets@, i as int) > 1 {
                2nat
            } else {
                task_count(sets@, i as int)
            },
        decreases sets.len() - i,
    {
        let tasks = &sets[i];
        let ghost out_before = out@;
        let ghost totals_before = totals.summary();
        let ghost count_before = task_count(sets@, i as int);
        let mut j: usize = 0;
        assert(out@ =~= out_before + set_lines(kind, tasks@, duration, 0));
        while j < tasks.len()
            invariant
                j <= tasks.len(),
                out@ == out_before + set_lines(kind, tasks@, duration, j as int),
                totals.summary() == set_totals(tasks@, totals_before, j as int),
                several <= 2,
                several == if count_before + j > 1 {
                    2int
                } else {
                    count_before + j
                },
            decreases tasks.len() - j,
        {
            let task = &tasks[j];
            let ghost before = out@;
            if j == 0 {
                let title = set_title_line(task);
                out.append(title.as_str());
            }
            let line = summary_line(
                kind,
                task_cell_text(task),
                &task.times,
                task.min_time,
                task.max_time,
                task.total_time,
                task.counter,
                task.success_count,
                task.fail_count,
                duration,
            );
            push_line(&mut out, line.as_str());
            totals.add_task(task);
            if several < 2 {
                several = several + 1;
            }
            j = j + 1;
            assert(out@ =~= out_before + set_lines(kind, tasks@, duration, j as int));
        }
        i = i + 1;
        assert(out@ =~= head + task_lines(kind, sets@, duration, i as int));
    }
    if several > 1 {
        let last = totals_lines(kind, &totals, duration);
        out.append(last.as_str());
        assert(out@ =~= task_table(kind, sets@, duration));
    } else {
        assert(out@ =~= task_table(kind, sets@, duration));
    }
    out
}

} // verus!
