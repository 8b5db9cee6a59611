//! Following a redirect: a user that is sent to another site may go on
//! there with its later requests.

use crate::hosts::{parse_url, url_before_path, url_parses};
use vstd::prelude::*;

verus! {

/// The site of a URL: what stands before its path, the scheme and the
/// authority, as the URL parser writes them; none for a text that is no
/// absolute URL.
pub open spec fn site_of(url: Seq<char>) -> Option<Seq<char>> {
    if url_parses(url) {
        Some(url_before_path(url))
    } else {
        None
    }
}

/// The base URL that a user goes on with after a request, if it changes,
/// from the site of its base URL and the site of the URL that the request
/// ended at: where redirects are followed for good and the request was
/// redirected to another site than that of the base URL, that site.
pub open spec fn spec_moved_base_url(
    sticky_follow: bool,
    redirected: bool,
    base_site: Option<Seq<char>>,
    final_site: Option<Seq<char>>,
) -> Option<Seq<char>> {
    if sticky_follow && redirected && final_site is Some && final_site != base_site {
        final_site
    } else {
        None
    }
}

/// The base URL that a user goes on with after a request, if it changes.
pub open spec fn spec_sticky_base_url(
    sticky_follow: bool,
    redirected: bool,
    base_url: Seq<char>,
    final_url: Seq<char>,
) -> Option<Seq<char>> {
    spec_moved_base_url(sticky_follow, redirected, site_of(base_url), site_of(final_url))
}

/// What a text is as an optional text.
pub open spec fn text_of(text: Option<String>) -> Option<Seq<char>> {
    match text {
        Some(t) => Some(t@),
        None => None,
    }
}

/// The site of a URL, if the text is an absolute URL.
pub fn site(url: &str) -> (r: Option<String>)
    ensures
        text_of(r) == site_of(url@),
{
    match parse_url(url) {
        Ok(found) => Some(found),
        Err(_) => None,
    }
}

/// The base URL that a user goes on with after a request, if it changes,
/// from the site of its base URL and the site of the URL that the request
/// ended at.
pub fn moved_base_url(
    sticky_follow: bool,
    redirected: bool,
    base_site: Option<String>,
    final_site: Option<String>,
) -> (r: Option<String>)
    ensures
        text_of(r) == spec_moved_base_url(
            sticky_follow,
            redirected,
            text_of(base_site),
            text_of(final_site),
        ),
{
    if !sticky_follow || !redirected {
        return None;
    }
    match final_site {
        None => None,
        Some(new_site) => {
            let same = match base_site {
                Some(old_site) => old_site == new_site,
                None => false,
            };
            if same {
                None
            } else {
                Some(new_site)
            }
        },
    }
}

/// The base URL that a user goes on with after a request, if it changes:
/// where redirects are followed for good and the request was redirected to
/// a URL of another site than the base URL has, that site.
pub fn sticky_base_url(sticky_follow: bool, redirected: bool, base_url: &str, final_url: &str) -> (r:
    Option<String>)
    ensures
        text_of(r) == spec_sticky_base_url(sticky_follow, redirected, base_url@, final_url@),
{
    if !sticky_follow || !redirected {
        return None;
    }
    let base_site = site(base_url);
    let final_site = site(final_url);
    moved_base_url(sticky_follow, redirected, base_site, final_site)
}

} // verus!
