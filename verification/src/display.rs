//! The report of a load test as text: up to six tables, depending on what
//! was collected and on what is to be shown.

use crate::aggregate::{merge_codes_into, spec_merge_codes};
use crate::goose::{request_key, GooseRequest};
use crate::metrics::GooseMetrics;
use crate::ordered::sorted_codes;
use crate::report::{
    find_request, is_sorted_keys, lemma_sorted_keys_unique, position_of, push_line, request_keys,
    request_table,
    request_table_for, task_table, task_table_for, TableKind, AGGREGATED, INNER_RULE, LINE_END,
    NAME, PERCENTILES_TITLE, REQUESTS_TITLE, RULE, TASKS_TITLE, WIDE_RULE,
};
use crate::text::{
    decimal_digits, decimal_string, format_number, grouped_digits, lemma_sorted_texts_exist, row,
    sorted_strings, spec_row, spec_truncate_string, texts, texts_sorted, truncate_string,
};
use std::collections::BTreeMap;
use vstd::prelude::*;
use vstd::string::StringExecFns;

verus! {

pub const STATUS_CODES: &'static str = "Status codes";

pub const CODE_OPEN: &'static str = " [";

pub const CODE_CLOSE: &'static str = "]";

pub const COMMA: &'static str = ", ";

pub const SPACE: &'static str = " ";

/// How often a status code was seen, as in "1,234 [200]".
pub open spec fn code_entry(count: usize, code: u16) -> Seq<char> {
    grouped_digits(count as nat) + CODE_OPEN@ + decimal_digits(code as nat) + CODE_CLOSE@
}

/// How often each status code below `below` was seen, by ascending code,
/// with a comma between the codes.
pub open spec fn codes_text(counts: Map<u16, usize>, below: int) -> Seq<char>
    decreases below,
{
    if below <= 0 {
        Seq::empty()
    } else {
        let before = codes_text(counts, below - 1);
        if below - 1 <= u16::MAX && counts.contains_key((below - 1) as u16) {
            (if before.len() > 0 {
                before + COMMA@
            } else {
                before
            }) + code_entry(counts[(below - 1) as u16], (below - 1) as u16)
        } else {
            before
        }
    }
}

/// How often each status code was seen.
pub open spec fn all_codes_text(counts: Map<u16, usize>) -> Seq<char> {
    codes_text(counts, u16::MAX + 1)
}

/// Where no code lies from `a` up to `b`, the texts below both agree.
pub proof fn lemma_codes_text_gap(counts: Map<u16, usize>, a: int, b: int)
    requires
        a <= b,
        forall|k: u16| a <= k < b ==> !counts.contains_key(k),
    ensures
        codes_text(counts, b) == codes_text(counts, a),
    decreases b - a,
{
    if a < b {
        lemma_codes_text_gap(counts, a, b - 1);
    }
}

/// Builds the text of how often each status code was seen.
pub fn codes_string(counts: &BTreeMap<u16, usize>) -> (r: String)
    ensures
        r@ == all_codes_text(counts@),
{
    let keys = sorted_codes(counts);
    let mut out = String::new();
    let mut i: usize = 0;
    while i < keys.len()
        invariant
            i <= keys.len(),
            forall|k: u16| keys@.contains(k) <==> counts@.contains_key(k),
            crate::ordered::ascending_codes(keys@),
            out@ == codes_text(counts@, if i == 0 { 0 } else { keys@[i - 1] + 1 }),
        decreases keys.len() - i,
    {
        let code = keys[i];
        assert(keys@.contains(code));
        let count: usize = match counts.get(&code) {
            Some(c) => *c,
            None => 0,
        };
        proof {
            let low: int = if i == 0 { 0 } else { keys@[i - 1] + 1 };
            assert forall|k: u16| low <= k < code implies !counts@.contains_key(k) by {
                if counts@.contains_key(k) {
                    assert(keys@.contains(k));
                    let j = choose|j: int| 0 <= j < keys@.len() && keys@[j] == k;
                    if j < i {
                        if i > 0 && j < i - 1 {
                            assert(keys@[j] < keys@[i - 1]);
                        }
                    } else if j > i {
                        assert(keys@[i as int] < keys@[j]);
                    }
                }
            }
            lemma_codes_text_gap(counts@, low, code as int);
        }
        let ghost before = out@;
        if !out.as_str().is_empty() {
            out.append(COMMA);
        }
        let number = format_number(count);
        out.append(number.as_str());
        out.append(CODE_OPEN);
        let code_text = decimal_string(code as usize);
        out.append(code_text.as_str());
        out.append(CODE_CLOSE);
        assert(out@ =~= (if before.len() > 0 {
            before + COMMA@
        } else {
            before
        }) + code_entry(count, code));
        i = i + 1;
    }
    proof {
        let low: int = if i == 0 { 0 } else { keys@[i - 1] + 1 };
        assert forall|k: u16| low <= k < u16::MAX + 1 implies !counts@.contains_key(k) by {
            if counts@.contains_key(k) {
                assert(keys@.contains(k));
                let j = choose|j: int| 0 <= j < keys@.len() && keys@[j] == k;
                if i > 0 && j < i - 1 {
                    assert(keys@[j] < keys@[i - 1]);
                }
            }
        }
        lemma_codes_text_gap(counts@, low, u16::MAX + 1);
    }
    out
}

/// The widths of the columns of the table of status codes.
pub open spec fn code_widths() -> Seq<usize> {
    seq![23usize, 25usize]
}

/// The line of the request with the given key in the table of status
/// codes; nothing where there is no such request.
pub open spec fn status_line(requests: Seq<GooseRequest>, key: Seq<char>) -> Seq<char> {
    let i = position_of(requests, key, 0);
    if i < requests.len() {
        spec_row(
            seq![spec_truncate_string(key, 23), all_codes_text(requests[i].status_code_counts@)],
            code_widths(),
        ) + LINE_END@
    } else {
        Seq::empty()
    }
}

/// The lines of the requests with the first `n` keys in the table of
/// status codes.
pub open spec fn status_lines(requests: Seq<GooseRequest>, keys: Seq<Seq<char>>, n: int) -> Seq<
    char,
>
    decreases n,
{
    if n <= 0 {
        Seq::empty()
    } else {
        status_lines(requests, keys, n - 1) + status_line(requests, keys[n - 1])
    }
}

/// The status codes of the requests with the first `n` keys, merged.
pub open spec fn status_totals(requests: Seq<GooseRequest>, keys: Seq<Seq<char>>, n: int) -> Map<
    u16,
    usize,
>
    decreases n,
{
    if n <= 0 {
        Map::empty()
    } else {
        let i = position_of(requests, keys[n - 1], 0);
        if i < requests.len() {
            spec_merge_codes(status_totals(requests, keys, n - 1), requests[i].status_code_counts@)
        } else {
            status_totals(requests, keys, n - 1)
        }
    }
}

/// The table of status codes: a rule, the head, a rule, a line for each
/// key in the order of the keys, a rule, and the line of all requests
/// merged.
pub open spec fn status_codes_table(requests: Seq<GooseRequest>, keys: Seq<Seq<char>>) -> Seq<
    char,
> {
    RULE@ + LINE_END@ + spec_row(seq![NAME@, STATUS_CODES@], code_widths()) + SPACE@ + LINE_END@
        + INNER_RULE@ + LINE_END@ + status_lines(requests, keys, keys.len() as int) + RULE@
        + LINE_END@ + spec_row(
        seq![AGGREGATED@, all_codes_text(status_totals(requests, keys, keys.len() as int))],
        code_widths(),
    ) + SPACE@ + LINE_END@
}

/// Builds a line of the table of status codes, without the end of the
/// line.
pub fn code_row(name: String, codes: String) -> (r: String)
    ensures
        r@ == spec_row(seq![name@, codes@], code_widths()),
{
    let cells: Vec<String> = vec![name, codes];
    let columns: Vec<usize> = vec![23usize, 25usize];
    assert(texts(cells@) =~= seq![name@, codes@]);
    assert(columns@ =~= code_widths());
    row(&cells, &columns)
}

/// Builds the table of status codes, with a line for each of the given
/// keys in their order.
pub fn status_codes_table_for(requests: &Vec<GooseRequest>, keys: &Vec<String>) -> (r: String)
    ensures
        r@ == status_codes_table(requests@, texts(keys@)),
{
    let mut out = String::new();
    push_line(&mut out, RULE);
    let head = code_row(String::from_str(NAME), String::from_str(STATUS_CODES));
    out.append(head.as_str());
    out.append(SPACE);
    out.append(LINE_END);
    push_line(&mut out, INNER_RULE);
    let ghost top = out@;
    assert(top =~= RULE@ + LINE_END@ + spec_row(seq![NAME@, STATUS_CODES@], code_widths())
        + SPACE@ + LINE_END@ + INNER_RULE@ + LINE_END@);
    let mut totals: BTreeMap<u16, usize> = BTreeMap::new();
    let mut i: usize = 0;
    assert(out@ =~= top + status_lines(requests@, texts(keys@), 0));
    while i < keys.len()
        invariant
            i <= keys.len(),
            out@ == top + status_lines(requests@, texts(keys@), i as int),
            totals@ == status_totals(requests@, texts(keys@), i as int),
        decreases keys.len() - i,
    {
        let key = keys[i].as_str();
        assert(texts(keys@)[i as int] == key@);
        let position = find_request(requests, key);
        let ghost before = out@;
        if position < requests.len() {
            let request = &requests[position];
            let line = code_row(truncate_string(key, 23), codes_string(&request.status_code_counts));
            push_line(&mut out, line.as_str());
            merge_codes_into(&mut totals, &request.status_code_counts);
            assert(out@ =~= before + status_line(requests@, key@));
        } else {
            assert(out@ =~= before + status_line(requests@, key@));
        }
        i = i + 1;
        assert(out@ =~= top + status_lines(requests@, texts(keys@), i as int));
    }
    push_line(&mut out, RULE);
    let last = code_row(String::from_str(AGGREGATED), codes_string(&totals));
    out.append(last.as_str());
    out.append(SPACE);
    out.append(LINE_END);
    assert(out@ =~= status_codes_table(requests@, texts(keys@)));
    out
}

/// The table of how often each task ran, or nothing where there are no
/// task metrics or metrics are not shown.
pub open spec fn tasks_report(metrics: GooseMetrics) -> Seq<char> {
    if metrics.tasks@.len() == 0 || !metrics.display_metrics {
        Seq::empty()
    } else {
        TASKS_TITLE@ + LINE_END@ + task_table(TableKind::Counts, metrics.tasks@, metrics.duration)
    }
}

/// The table of how long each task ran, or nothing where there are no
/// task metrics or metrics are not shown.
pub open spec fn task_times_report(metrics: GooseMetrics) -> Seq<char> {
    if metrics.tasks@.len() == 0 || !metrics.display_metrics {
        Seq::empty()
    } else {
        RULE@ + LINE_END@ + task_table(TableKind::Times, metrics.tasks@, metrics.duration)
    }
}

/// The table of how often each request was made, or nothing where no
/// request was made.
pub open spec fn requests_report(metrics: GooseMetrics, keys: Seq<Seq<char>>) -> Seq<char> {
    if metrics.requests@.len() == 0 {
        Seq::empty()
    } else {
        REQUESTS_TITLE@ + LINE_END@ + request_table(
            TableKind::Counts,
            metrics.requests@,
            keys,
            metrics.duration,
        )
    }
}

/// The table of how long each request took, or nothing where no request
/// was made.
pub open spec fn response_times_report(metrics: GooseMetrics, keys: Seq<Seq<char>>) -> Seq<char> {
    if metrics.requests@.len() == 0 {
        Seq::empty()
    } else {
        RULE@ + LINE_END@ + request_table(
            TableKind::Times,
            metrics.requests@,
            keys,
            metrics.duration,
        )
    }
}

/// The table of the percentiles of each request, or nothing where
/// percentiles are not shown.
pub open spec fn percentiles_report(metrics: GooseMetrics, keys: Seq<Seq<char>>) -> Seq<char> {
    if !metrics.display_percentile {
        Seq::empty()
    } else {
        RULE@ + LINE_END@ + PERCENTILES_TITLE@ + LINE_END@ + WIDE_RULE@ + LINE_END@ + request_table(
            TableKind::Percentiles,
            metrics.requests@,
            keys,
            metrics.duration,
        )
    }
}

/// The table of the status codes of each request, or nothing where status
/// codes are not shown.
pub open spec fn status_codes_report(metrics: GooseMetrics, keys: Seq<Seq<char>>) -> Seq<char> {
    if !metrics.display_status_codes {
        Seq::empty()
    } else {
        status_codes_table(metrics.requests@, keys)
    }
}

/// The keys of a list of requests in ascending order, which is the order
/// of the lines of a table.
pub open spec fn sorted_keys_of(requests: Seq<GooseRequest>) -> Seq<Seq<char>> {
    choose|keys: Seq<Seq<char>>| is_sorted_keys(requests, keys)
}

/// The keys of every list of requests have an ascending order: the order
/// of the lines of a table is that of the keys, each as often as it
/// occurs among the requests, each before or with every later one.
pub proof fn lemma_sorted_keys_exist(requests: Seq<GooseRequest>)
    ensures
        is_sorted_keys(requests, sorted_keys_of(requests)),
{
    lemma_sorted_texts_exist(request_keys(requests));
    let sorted = choose|sorted: Seq<Seq<char>>|
        texts_sorted(sorted) && sorted.to_multiset() == request_keys(requests).to_multiset();
    assert(is_sorted_keys(requests, sorted));
}

/// Keys of a list of requests that are in ascending order are the keys in
/// ascending order.
pub proof fn lemma_sorted_keys_of(requests: Seq<GooseRequest>, keys: Seq<Seq<char>>)
    requires
        is_sorted_keys(requests, keys),
    ensures
        sorted_keys_of(requests) == keys,
{
    lemma_sorted_keys_unique(requests, keys, sorted_keys_of(requests));
}

/// The whole report, with the requests in the given order: the tables of
/// the tasks, then those of the requests.
pub open spec fn full_report_for(metrics: GooseMetrics, keys: Seq<Seq<char>>) -> Seq<char> {
    tasks_report(metrics) + task_times_report(metrics) + requests_report(metrics, keys)
        + response_times_report(metrics, keys) + percentiles_report(metrics, keys)
        + status_codes_report(metrics, keys)
}

/// The whole report: the tables of the tasks, then those of the requests,
/// the requests in the ascending order of their keys.
pub open spec fn full_report(metrics: GooseMetrics) -> Seq<char> {
    full_report_for(metrics, sorted_keys_of(metrics.requests@))
}

impl GooseMetrics {
    /// The keys of the requests, in ascending order: the order of the
    /// lines of a table.
    pub fn sorted_request_keys(&self) -> (keys: Vec<String>)
        ensures
            is_sorted_keys(self.requests@, texts(keys@)),
            texts(keys@) == sorted_keys_of(self.requests@),
    {
        let mut keys: Vec<String> = Vec::new();
        let mut i: usize = 0;
        while i < self.requests.len()
            invariant
                i <= self.requests.len(),
                keys@.len() == i,
                texts(keys@) == request_keys(self.requests@).take(i as int),
            decreases self.requests.len() - i,
        {
            let key = request_key(self.requests[i].method, self.requests[i].path.as_str());
            let ghost before = keys@;
            assert(key@ == self.requests@[i as int].key());
            keys.push(key);
            i = i + 1;
            assert forall|k: int| 0 <= k < i implies texts(keys@)[k] == request_keys(
                self.requests@,
            ).take(i as int)[k] by {
                if k < i - 1 {
                    assert(texts(before)[k] == request_keys(self.requests@).take(i - 1)[k]);
                    assert(keys@[k] == before[k]);
                }
            }
            assert(texts(keys@) =~= request_keys(self.requests@).take(i as int));
        }
        assert(request_keys(self.requests@).take(self.requests@.len() as int) =~= request_keys(
            self.requests@,
        ));
        let sorted = sorted_strings(&keys);
        proof {
            lemma_sorted_keys_of(self.requests@, texts(sorted@));
        }
        sorted
    }

    /// Optionally prepares a table of tasks.
    pub fn fmt_tasks(&self) -> (r: String)
        ensures
            r@ == tasks_report(*self),
    {
        if self.tasks.len() == 0 || !self.display_metrics {
            return String::new();
        }
        let mut out = String::new();
        push_line(&mut out, TASKS_TITLE);
        let table = task_table_for(TableKind::Counts, &self.tasks, self.duration);
        out.append(table.as_str());
        assert(out@ =~= tasks_report(*self));
        out
    }

    /// Optionally prepares a table of task times.
    pub fn fmt_task_times(&self) -> (r: String)
        ensures
            r@ == task_times_report(*self),
    {
        if self.tasks.len() == 0 || !self.display_metrics {
            return String::new();
        }
        let mut out = String::new();
        push_line(&mut out, RULE);
        let table = task_table_for(TableKind::Times, &self.tasks, self.duration);
        out.append(table.as_str());
        assert(out@ =~= task_times_report(*self));
        out
    }

    /// Prepares the table of requests and fails with a line for each of
    /// the given keys, in their order.
    pub fn fmt_requests_for(&self, keys: &Vec<String>) -> (r: String)
        ensures
            r@ == requests_report(*self, texts(keys@)),
    {
        if self.requests.len() == 0 {
            return String::new();
        }
        let mut out = String::new();
        push_line(&mut out, REQUESTS_TITLE);
        let table = request_table_for(TableKind::Counts, &self.requests, keys, self.duration);
        out.append(table.as_str());
        assert(out@ =~= requests_report(*self, texts(keys@)));
        out
    }

    /// Prepares the table of response times with a line for each of the
    /// given keys, in their order.
    pub fn fmt_response_times_for(&self, keys: &Vec<String>) -> (r: String)
        ensures
            r@ == response_times_report(*self, texts(keys@)),
    {
        if self.requests.len() == 0 {
            return String::new();
        }
        let mut out = String::new();
        push_line(&mut out, RULE);
        let table = request_table_for(TableKind::Times, &self.requests, keys, self.duration);
        out.append(table.as_str());
        assert(out@ =~= response_times_report(*self, texts(keys@)));
        out
    }

    /// Prepares the table of percentiles with a line for each of the given
    /// keys, in their order.
    pub fn fmt_percentiles_for(&self, keys: &Vec<String>) -> (r: String)
        ensures
            r@ == percentiles_report(*self, texts(keys@)),
    {
        if !self.display_percentile {
            return String::new();
        }
        let mut out = String::new();
        push_line(&mut out, RULE);
        push_line(&mut out, PERCENTILES_TITLE);
        push_line(&mut out, WIDE_RULE);
        let table = request_table_for(TableKind::Percentiles, &self.requests, keys, self.duration);
        out.append(table.as_str());
        assert(out@ =~= percentiles_report(*self, texts(keys@)));
        out
    }

    /// Prepares the table of status codes with a line for each of the
    /// given keys, in their order.
    pub fn fmt_status_codes_for(&self, keys: &Vec<String>) -> (r: String)
        ensures
            r@ == status_codes_report(*self, texts(keys@)),
    {
        if !self.display_status_codes {
            return String::new();
        }
        status_codes_table_for(&self.requests, keys)
    }

    /// Optionally prepares a table of requests and fails, the requests in
    /// the ascending order of their keys.
    pub fn fmt_requests(&self) -> (r: String)
        ensures
            r@ == requests_report(*self, sorted_keys_of(self.requests@)),
    {
        let keys = self.sorted_request_keys();
        self.fmt_requests_for(&keys)
    }

    /// Optionally prepares a table of response times, the requests in the
    /// ascending order of their keys.
    pub fn fmt_response_times(&self) -> (r: String)
        ensures
            r@ == response_times_report(*self, sorted_keys_of(self.requests@)),
    {
        let keys = self.sorted_request_keys();
        self.fmt_response_times_for(&keys)
    }

    /// Optionally prepares a table of the slowest response times within
    /// several percentiles, the requests in the ascending order of their
    /// keys.
    pub fn fmt_percentiles(&self) -> (r: String)
        ensures
            r@ == percentiles_report(*self, sorted_keys_of(self.requests@)),
    {
        let keys = self.sorted_request_keys();
        self.fmt_percentiles_for(&keys)
    }

    /// Optionally prepares a table of response status codes, the requests
    /// in the ascending order of their keys and the codes of each request
    /// in ascending order.
    pub fn fmt_status_codes(&self) -> (r: String)
        ensures
            r@ == status_codes_report(*self, sorted_keys_of(self.requests@)),
    {
        let keys = self.sorted_request_keys();
        self.fmt_status_codes_for(&keys)
    }

    /// The whole report as text: from zero to six tables, depending on
    /// what was collected and on what is to be shown.
    pub fn render(&self) -> (r: String)
        ensures
            r@ == full_report(*self),
    {
        let keys = self.sorted_request_keys();
        let mut out = self.fmt_tasks();
        let task_times = self.fmt_task_times();
        out.append(task_times.as_str());
        let requests = self.fmt_requests_for(&keys);
        out.append(requests.as_str());
        let response_times = self.fmt_response_times_for(&keys);
        out.append(response_times.as_str());
        let percentiles = self.fmt_percentiles_for(&keys);
        out.append(percentiles.as_str());
        let status_codes = self.fmt_status_codes_for(&keys);
        out.append(status_codes.as_str());
        assert(out@ =~= full_report_for(*self, texts(keys@)));
        out
    }
}

} // verus!
