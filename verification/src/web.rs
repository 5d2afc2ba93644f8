//! Web addresses.
//!
//! Parsing is left to the crate `url`; the function that calls it is
//! trusted.

use url::Url;
use vstd::prelude::*;

verus! {

/// What `url` finds in `text`: `None` where `text` is no absolute URL; else
/// the host of the URL, or `None` where the URL has no host.
pub uninterp spec fn url_host(text: Seq<char>) -> Option<Option<Seq<char>>>;

/// The host that was read, as text.
pub open spec fn host_text(host: Option<String>) -> Option<Seq<char>> {
    match host {
        Some(h) => Some(h@),
        None => None,
    }
}

/// Parses a URL and reads its host.
///
/// Trusted: calls `url::Url::parse` and, on the result, `Url::host_str`. The
/// contract names what was read; of a failure it keeps the text with which
/// `url` describes it, and says nothing about that text.
#[verifier::external_body]
pub(crate) fn parse_url_host(text: &str) -> (parsed: Result<Option<String>, String>)
    ensures
        match parsed {
            Ok(host) => url_host(text@) == Some(host_text(host)),
            Err(_) => url_host(text@) is None,
        },
{
    match Url::parse(text) {
        Ok(url) => Ok(url.host_str().map(|host| host.to_string())),
        Err(e) => Err(e.to_string()),
    }
}

} // verus!
