//! The lines of the metrics file and the formats of the log files.

use crate::goose::{method_name, method_text, GooseRawRequest};
use crate::options::{FORMAT_CSV, FORMAT_JSON, FORMAT_RAW};
use crate::text::{
    bool_string, bool_text, decimal_digits, decimal_string, decimal_string_u64, texts,
};
use vstd::prelude::*;
use vstd::string::StringExecFns;

verus! {

pub const CSV_HEADER: &'static str =
    "elapsed,method,name,url,final_url,redirected,response_time,status_code,success,update,user\n";

pub const CSV_COMMA: &'static str = ",";

pub const CSV_QUOTE: &'static str = "\"";

/// The formats of a log file.
#[derive(Clone, Copy, Debug, PartialEq, Eq, Structural)]
pub enum LogFormat {
    /// One JSON object for each record.
    Json,
    /// One line of comma-separated values for each record, below a line
    /// with the names of the fields.
    Csv,
    /// Each record as the program holds it.
    Raw,
}

/// The format that a text names, if it names one.
pub open spec fn spec_log_format(format: Seq<char>) -> Option<LogFormat> {
    if format == FORMAT_JSON@ {
        Some(LogFormat::Json)
    } else if format == FORMAT_CSV@ {
        Some(LogFormat::Csv)
    } else if format == FORMAT_RAW@ {
        Some(LogFormat::Raw)
    } else {
        None
    }
}

/// The format that a text names, if it names one.
pub fn log_format(format: &str) -> (r: Option<LogFormat>)
    ensures
        r == spec_log_format(format@),
{
    if crate::options::same_text(format, FORMAT_JSON) {
        Some(LogFormat::Json)
    } else if crate::options::same_text(format, FORMAT_CSV) {
        Some(LogFormat::Csv)
    } else if crate::options::same_text(format, FORMAT_RAW) {
        Some(LogFormat::Raw)
    } else {
        None
    }
}

/// A text between quotes.
pub open spec fn quoted(s: Seq<char>) -> Seq<char> {
    CSV_QUOTE@ + s + CSV_QUOTE@
}

/// The first `n` of a list of texts, with a separator between them.
pub open spec fn spec_join(list: Seq<Seq<char>>, separator: Seq<char>, n: int) -> Seq<char>
    decreases n,
{
    if n <= 0 {
        Seq::empty()
    } else if n == 1 {
        list[0]
    } else {
        spec_join(list, separator, n - 1) + separator + list[n - 1]
    }
}

/// Joins texts with a separator between them.
pub fn join_with(list: &Vec<String>, separator: &str) -> (r: String)
    ensures
        r@ == spec_join(texts(list@), separator@, list@.len() as int),
{
    let mut out = String::new();
    let mut i: usize = 0;
    while i < list.len()
        invariant
            i <= list.len(),
            out@ == spec_join(texts(list@), separator@, i as int),
        decreases list.len() - i,
    {
        if i > 0 {
            out.append(separator);
        }
        out.append(list[i].as_str());
        assert(texts(list@)[i as int] == list@[i as int]@);
        i = i + 1;
        assert(out@ =~= spec_join(texts(list@), separator@, i as int));
    }
    out
}

/// The fields of a request in a file of comma-separated values: the
/// times and counts as numbers, the method by its name, the name and the
/// URLs between quotes, and the flags as "true" or "false".
pub open spec fn csv_fields(raw: GooseRawRequest) -> Seq<Seq<char>> {
    seq![
        decimal_digits(raw.elapsed as nat),
        method_text(raw.method),
        quoted(raw.name@),
        quoted(raw.url@),
        quoted(raw.final_url@),
        bool_text(raw.redirected),
        decimal_digits(raw.response_time as nat),
        decimal_digits(raw.status_code as nat),
        bool_text(raw.success),
        bool_text(raw.update),
        decimal_digits(raw.user as nat),
    ]
}

/// The fields of a request with commas between them.
pub open spec fn csv_body(raw: GooseRawRequest) -> Seq<char> {
    spec_join(csv_fields(raw), CSV_COMMA@, 11)
}

/// The record of a request in a file of comma-separated values: the first
/// record comes below the names of the fields.
pub open spec fn csv_record(raw: GooseRawRequest, header: bool) -> Seq<char> {
    if header {
        CSV_HEADER@ + csv_body(raw)
    } else {
        csv_body(raw)
    }
}

/// A text between quotes.
pub fn quote(s: &str) -> (r: String)
    ensures
        r@ == quoted(s@),
{
    let mut out = String::from_str(CSV_QUOTE);
    out.append(s);
    out.append(CSV_QUOTE);
    out
}

/// Helper to create CSV-formatted logs: the record of a request, below
/// the names of the fields where `header` is set, which is cleared.
pub fn prepare_csv(raw_request: &GooseRawRequest, header: &mut bool) -> (r: String)
    ensures
        r@ == csv_record(*raw_request, *old(header)),
        !*final(header),
{
    let fields: Vec<String> = vec![
        decimal_string_u64(raw_request.elapsed),
        String::from_str(method_name(raw_request.method)),
        quote(raw_request.name.as_str()),
        quote(raw_request.url.as_str()),
        quote(raw_request.final_url.as_str()),
        bool_string(raw_request.redirected),
        decimal_string_u64(raw_request.response_time),
        decimal_string(raw_request.status_code as usize),
        bool_string(raw_request.success),
        bool_string(raw_request.update),
        decimal_string(raw_request.user),
    ];
    assert(texts(fields@) =~= csv_fields(*raw_request));
    let body = join_with(&fields, CSV_COMMA);
    if *header {
        *header = false;
        let mut out = String::from_str(CSV_HEADER);
        out.append(body.as_str());
        out
    } else {
        body
    }
}

} // verus!
