//! Hosts: whether a text is a URL, and which host a user is given.

use crate::error::{invalid_option, ErrorView, GooseError};
use url::{Position, Url};
use vstd::prelude::*;
use vstd::string::StringExecFns;

verus! {

pub const INVALID_HOST: &'static str = "Invalid host.";

pub const OPTION_HOST_NAME: &'static str = "--host";

pub const NO_HOST_VALUE: &'static str = "";

pub const NO_HOST_START: &'static str =
    "A host must be defined via the --host option, the GooseAttack.set_default() function, or the GooseTaskSet.set_host() function (no host defined for ";

pub const NO_HOST_END: &'static str = ").";

/// Whether `url::Url::parse` takes a text as an absolute URL.
pub uninterp spec fn url_parses(input: Seq<char>) -> bool;

/// What stands before the path in the URL that `url::Url::parse` makes of
/// a text: the URL as the parser writes it, cut at
/// `url::Position::BeforePath`. It says nothing of a text that the parser
/// does not take.
pub uninterp spec fn url_before_path(input: Seq<char>) -> Seq<char>;

/// `url::Url::parse`, and of its URL the slice that ends at
/// `url::Position::BeforePath`: the call succeeds exactly on the texts
/// that the parser takes as an absolute URL, and then hands back what
/// stands before the path of the URL as the parser writes it; both depend
/// on the text alone. On any other text it hands back the parser's error.
#[verifier::external_body]
pub(crate) fn parse_url(input: &str) -> (r: Result<String, url::ParseError>)
    ensures
        r is Ok == url_parses(input@),
        r matches Ok(site) ==> site@ == url_before_path(input@),
{
    match Url::parse(input) {
        Ok(url) => Ok(url[..Position::BeforePath].to_string()),
        Err(e) => Err(e),
    }
}

/// The error that names a host which is no URL.
pub open spec fn invalid_host(host: Seq<char>) -> ErrorView {
    ErrorView::InvalidHost { host, detail: INVALID_HOST@ }
}

/// The error that tells that a task set has no host.
pub open spec fn no_host_defined(name: Seq<char>) -> ErrorView {
    invalid_option(OPTION_HOST_NAME@, NO_HOST_VALUE@, NO_HOST_START@ + name + NO_HOST_END@)
}

/// What the answer of the URL parser means for a host: a host that
/// parsed is valid, and for one that did not the error names the host and
/// carries the parser's error.
pub fn host_check(host: &str, parsed: Result<String, url::ParseError>) -> (r: Result<
    bool,
    GooseError,
>)
    ensures
        match parsed {
            Ok(_) => r == Ok::<bool, GooseError>(true),
            Err(parse_error) => (r matches Err(e) && e@ == invalid_host(host@) && (e
                matches GooseError::InvalidHost { parse_error: kept, .. } && kept == parse_error)),
        },
{
    match parsed {
        Ok(_) => Ok(true),
        Err(parse_error) => Err(
            GooseError::InvalidHost {
                host: String::from_str(host),
                detail: String::from_str(INVALID_HOST),
                parse_error,
            },
        ),
    }
}

/// Whether a host is an absolute URL; the error names a host that is not.
pub fn is_valid_host(host: &str) -> (r: Result<bool, GooseError>)
    ensures
        url_parses(host@) ==> r == Ok::<bool, GooseError>(true),
        !url_parses(host@) ==> (r matches Err(e) && e@ == invalid_host(host@)),
{
    let parsed = parse_url(host);
    host_check(host, parsed)
}

/// The host of a user: the host of its task set where it has one, else
/// the host given as an option, else the default host.
pub open spec fn chosen_host(
    task_set_host: Option<Seq<char>>,
    config_host: Option<Seq<char>>,
    default_host: Option<Seq<char>>,
) -> Option<Seq<char>> {
    match task_set_host {
        Some(host) => Some(host),
        None => match config_host {
            Some(host) => Some(host),
            None => default_host,
        },
    }
}

/// The text of an optional string.
pub open spec fn option_text(s: Option<String>) -> Option<Seq<char>> {
    match s {
        Some(text) => Some(text@),
        None => None,
    }
}

/// The base URL of a user, or why it has none: the chosen host has to be
/// there and has to be an absolute URL.
pub open spec fn base_url_outcome(
    name: Seq<char>,
    task_set_host: Option<Seq<char>>,
    config_host: Option<Seq<char>>,
    default_host: Option<Seq<char>>,
) -> Result<Seq<char>, ErrorView> {
    match chosen_host(task_set_host, config_host, default_host) {
        Some(host) => if url_parses(host) {
            Ok(host)
        } else {
            Err(invalid_host(host))
        },
        None => Err(no_host_defined(name)),
    }
}

/// The error that tells that the task set of the given name has no host.
pub fn no_host_error(name: &str) -> (e: GooseError)
    ensures
        e@ == no_host_defined(name@),
{
    let mut detail = String::from_str(NO_HOST_START);
    detail.append(name);
    detail.append(NO_HOST_END);
    GooseError::option_error(OPTION_HOST_NAME, NO_HOST_VALUE, detail.as_str())
}

/// The base URL for the users of the task set of the given name: the host
/// of the task set where it has one, else the host given as an option,
/// else the default host. The host has to be an absolute URL.
pub fn get_base_url(
    name: &str,
    task_set_host: &Option<String>,
    config_host: &Option<String>,
    default_host: &Option<String>,
) -> (r: Result<String, GooseError>)
    ensures
        match r {
            Ok(url) => base_url_outcome(
                name@,
                option_text(*task_set_host),
                option_text(*config_host),
                option_text(*default_host),
            ) == Ok::<Seq<char>, ErrorView>(url@),
            Err(e) => base_url_outcome(
                name@,
                option_text(*task_set_host),
                option_text(*config_host),
                option_text(*default_host),
            ) == Err::<Seq<char>, ErrorView>(e@),
        },
{
    let host: &String = match task_set_host {
        Some(host) => host,
        None => match config_host {
            Some(host) => host,
            None => match default_host {
                Some(host) => host,
                None => {
                    return Err(no_host_error(name));
                },
            },
        },
    };
    match is_valid_host(host.as_str()) {
        Ok(_) => Ok(host.clone()),
        Err(e) => Err(e),
    }
}

} // verus!
