//! The errors a load test can report.

use vstd::prelude::*;

verus! {

/// `std::io::Error`, carried through unread: the library never inspects it.
#[verifier::external_type_specification]
#[verifier::external_body]
pub struct ExIoError(std::io::Error);

/// `reqwest::Error`, carried through unread: the library never inspects it.
#[verifier::external_type_specification]
#[verifier::external_body]
pub struct ExReqwestError(reqwest::Error);

/// `url::ParseError`, carried through unread: the library never inspects it.
#[verifier::external_type_specification]
#[verifier::external_body]
pub struct ExUrlParseError(url::ParseError);

/// Definition of all errors a load test can return.
#[derive(Debug)]
pub enum GooseError {
    /// Contains an `io::Error`.
    Io(std::io::Error),
    /// Contains a `reqwest::Error`.
    Reqwest(reqwest::Error),
    /// A mode was requested whose support is not compiled in. The missing
    /// feature is named in `.feature`.
    FeatureNotEnabled { feature: String, detail: String },
    /// Failed to parse a hostname, found in `.host`. The lower level
    /// `url::ParseError` is contained in `.parse_error`.
    InvalidHost { host: String, detail: String, parse_error: url::ParseError },
    /// Invalid option or value specified, may only be invalid in context.
    /// The option is found in `.option`, the value in `.value`.
    InvalidOption { option: String, value: String, detail: String },
    /// Invalid wait time specified: `.min_wait` is larger than `.max_wait`.
    InvalidWaitTime { min_wait: usize, max_wait: usize, detail: String },
    /// Invalid weight specified, found in `.weight`.
    InvalidWeight { weight: usize, detail: String },
    /// The load test has no task set, or a task set without tasks.
    NoTaskSets { detail: String },
}

/// What an error says, with the text of each string and without the
/// lower level errors it may carry.
pub enum ErrorView {
    Io,
    Reqwest,
    FeatureNotEnabled { feature: Seq<char>, detail: Seq<char> },
    InvalidHost { host: Seq<char>, detail: Seq<char> },
    InvalidOption { option: Seq<char>, value: Seq<char>, detail: Seq<char> },
    InvalidWaitTime { min_wait: usize, max_wait: usize, detail: Seq<char> },
    InvalidWeight { weight: usize, detail: Seq<char> },
    NoTaskSets { detail: Seq<char> },
}

impl View for GooseError {
    type V = ErrorView;

    open spec fn view(&self) -> ErrorView {
        match *self {
            GooseError::Io(_) => ErrorView::Io,
            GooseError::Reqwest(_) => ErrorView::Reqwest,
            GooseError::FeatureNotEnabled { feature, detail } => ErrorView::FeatureNotEnabled {
                feature: feature@,
                detail: detail@,
            },
            GooseError::InvalidHost { host, detail, .. } => ErrorView::InvalidHost {
                host: host@,
                detail: detail@,
            },
            GooseError::InvalidOption { option, value, detail } => ErrorView::InvalidOption {
                option: option@,
                value: value@,
                detail: detail@,
            },
            GooseError::InvalidWaitTime { min_wait, max_wait, detail } => ErrorView::InvalidWaitTime {
                min_wait,
                max_wait,
                detail: detail@,
            },
            GooseError::InvalidWeight { weight, detail } => ErrorView::InvalidWeight {
                weight,
                detail: detail@,
            },
            GooseError::NoTaskSets { detail } => ErrorView::NoTaskSets { detail: detail@ },
        }
    }
}

/// The one-line description of each kind of error.
pub open spec fn spec_describe(e: ErrorView) -> Seq<char> {
    match e {
        ErrorView::Io => "io::Error"@,
        ErrorView::Reqwest => "reqwest::Error"@,
        ErrorView::FeatureNotEnabled { .. } => "required compile-time feature not enabled"@,
        ErrorView::InvalidHost { .. } => "failed to parse hostname"@,
        ErrorView::InvalidOption { .. } => "invalid option or value specified"@,
        ErrorView::InvalidWaitTime { .. } => "invalid wait_time specified"@,
        ErrorView::InvalidWeight { .. } => "invalid weight specified"@,
        ErrorView::NoTaskSets { .. } => "no task sets defined"@,
    }
}

/// An `InvalidOption` error, as its view.
pub open spec fn invalid_option(
    option: Seq<char>,
    value: Seq<char>,
    detail: Seq<char>,
) -> ErrorView {
    ErrorView::InvalidOption { option, value, detail }
}

/// The code that the process ends with after a load test that ended
/// without an error.
pub const EXIT_CLEAN: i32 = 0;

/// The code that the process ends with after an error of the load test.
pub const EXIT_ERROR: i32 = 1;

/// The code that the process ends with where the command line was not
/// understood.
pub const EXIT_USAGE: i32 = 2;

/// The code that the process ends with after it was interrupted.
pub const EXIT_INTERRUPTED: i32 = 130;

/// The code that the process ends with: 130 after an interrupt, else 1
/// after an error, else 0.
pub open spec fn spec_exit_code(failed: bool, interrupted: bool) -> i32 {
    if interrupted {
        EXIT_INTERRUPTED
    } else if failed {
        EXIT_ERROR
    } else {
        EXIT_CLEAN
    }
}

/// The code that the process ends with after a load test.
pub fn exit_code<T>(result: &Result<T, GooseError>, interrupted: bool) -> (r: i32)
    ensures
        r == spec_exit_code(result is Err, interrupted),
{
    if interrupted {
        EXIT_INTERRUPTED
    } else if result.is_err() {
        EXIT_ERROR
    } else {
        EXIT_CLEAN
    }
}

impl GooseError {
    /// A short description of the kind of error.
    pub fn describe(&self) -> (r: &'static str)
        ensures
            r@ == spec_describe(self@),
    {
        match *self {
            GooseError::Io(_) => "io::Error",
            GooseError::Reqwest(_) => "reqwest::Error",
            GooseError::FeatureNotEnabled { .. } => "required compile-time feature not enabled",
            GooseError::InvalidHost { .. } => "failed to parse hostname",
            GooseError::InvalidOption { .. } => "invalid option or value specified",
            GooseError::InvalidWaitTime { .. } => "invalid wait_time specified",
            GooseError::InvalidWeight { .. } => "invalid weight specified",
            GooseError::NoTaskSets { .. } => "no task sets defined",
        }
    }

    /// Builds an `InvalidOption` error from borrowed text.
    pub fn option_error(option: &str, value: &str, detail: &str) -> (e: GooseError)
        ensures
            e@ == invalid_option(option@, value@, detail@),
    {
        GooseError::InvalidOption {
            option: String::from_str(option),
            value: String::from_str(value),
            detail: String::from_str(detail),
        }
    }
}

/// Auto-convert IO errors.
impl From<std::io::Error> for GooseError {
    fn from(err: std::io::Error) -> (e: GooseError) {
        GooseError::Io(err)
    }
}

impl vstd::std_specs::convert::FromSpecImpl<std::io::Error> for GooseError {
    open spec fn obeys_from_spec() -> bool {
        true
    }

    open spec fn from_spec(err: std::io::Error) -> GooseError {
        GooseError::Io(err)
    }
}

/// Auto-convert Reqwest errors.
impl From<reqwest::Error> for GooseError {
    fn from(err: reqwest::Error) -> (e: GooseError) {
        GooseError::Reqwest(err)
    }
}

impl vstd::std_specs::convert::FromSpecImpl<reqwest::Error> for GooseError {
    open spec fn obeys_from_spec() -> bool {
        true
    }

    open spec fn from_spec(err: reqwest::Error) -> GooseError {
        GooseError::Reqwest(err)
    }
}

} // verus!
