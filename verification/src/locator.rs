//! The boundary to the `url` crate.
//!
//! A URL that the crate has read is opaque here. The two wrappers state what
//! `url::Url::parse` and `url::Url::domain` are trusted to do; `host_of` puts
//! the two together.

use vstd::prelude::*;

verus! {

#[verifier::external_type_specification]
#[verifier::external_body]
pub struct ExUrl(url::Url);

#[verifier::external_type_specification]
#[verifier::external_body]
pub struct ExUrlError(url::ParseError);

/// The URL that `url::Url::parse` reads from a text, or `None` where it
/// rejects the text.
pub uninterp spec fn url_of(text: Seq<char>) -> Option<url::Url>;

/// The domain name that `url::Url::domain` finds in a URL: `None` where the
/// URL has no host or its host is an IP address.
pub uninterp spec fn domain_of(url: url::Url) -> Option<Seq<char>>;

/// Calls `url::Url::parse`. Trusted: the outcome depends on the text alone,
/// so it is the one that `url_of` names.
#[verifier::external_body]
pub(crate) fn parse_url(text: &str) -> (r: Result<url::Url, url::ParseError>)
    ensures
        match r {
            Ok(url) => url_of(text@) == Some(url),
            Err(_) => url_of(text@) is None,
        },
{
    url::Url::parse(text)
}

/// Calls `url::Url::domain`. Trusted: the name that comes back is the one
/// that `domain_of` names for this URL.
#[verifier::external_body]
pub(crate) fn domain<'a>(url: &'a url::Url) -> (r: Option<&'a str>)
    ensures
        match r {
            Some(name) => domain_of(*url) == Some(name@),
            None => domain_of(*url) is None,
        },
{
    url.domain()
}

/// The domain name in a URL's text, where the text is a URL with one.
pub open spec fn host_of(url: Seq<char>) -> Option<Seq<char>> {
    match url_of(url) {
        Some(parsed) => domain_of(parsed),
        None => None,
    }
}

} // verus!
