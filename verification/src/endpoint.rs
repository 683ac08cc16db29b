//! Addresses on the web: the entry node's endpoint and what is asked of it.

use vstd::prelude::*;

verus! {

/// Whether `url::Host::parse` takes `input` as a host: a domain name, or an
/// IP address.
pub uninterp spec fn host_accepted(input: Seq<char>) -> bool;

/// The text in which `url::Url` holds the URL that it reads from `input`;
/// nothing where it reads none.
pub uninterp spec fn url_text(input: Seq<char>) -> Option<Seq<char>>;

/// The URL that `url::Url::join` finds for `reference`, seen from the URL
/// `base`; nothing where either cannot be read.
pub uninterp spec fn url_joined(base: Seq<char>, reference: Seq<char>) -> Option<Seq<char>>;

/// The host of the URL `input`, as `url::Url::host` gives it and as it is
/// printed; nothing where the URL cannot be read or has no host.
pub uninterp spec fn url_host(input: Seq<char>) -> Option<Seq<char>>;

/// Asks `url::Host::parse` whether it takes `input`.
#[verifier::external_body]
pub(crate) fn host_parses(input: &str) -> (r: bool)
    ensures
        r == host_accepted(input@),
{
    url::Host::parse(input).is_ok()
}

/// Reads `input` with `url::Url::parse` and gives the URL's text.
#[verifier::external_body]
pub(crate) fn parse_url(input: &str) -> (r: Option<String>)
    ensures
        r.deep_view() == url_text(input@),
{
    match url::Url::parse(input) {
        Ok(url) => Some(String::from(url)),
        Err(_) => None,
    }
}

/// Reads `base`, resolves `reference` against it with `url::Url::join`, and
/// gives the text of the URL found.
#[verifier::external_body]
pub(crate) fn join_url(base: &str, reference: &str) -> (r: Option<String>)
    ensures
        r.deep_view() == url_joined(base@, reference@),
{
    match url::Url::parse(base) {
        Ok(url) => match url.join(reference) {
            Ok(joined) => Some(String::from(joined)),
            Err(_) => None,
        },
        Err(_) => None,
    }
}

/// Reads `input` and prints the host that `url::Url::host` finds in it.
#[verifier::external_body]
pub(crate) fn host_of_url(input: &str) -> (r: Option<String>)
    ensures
        r.deep_view() == url_host(input@),
{
    match url::Url::parse(input) {
        Ok(url) => url.host().map(|host| host.to_string()),
        Err(_) => None,
    }
}

/// Whether `text` is a URL in the form in which it is held.
pub open spec fn is_url(text: Seq<char>) -> bool {
    url_text(text) == Some(text)
}

/// Reads a URL and gives the text in which it is held. A text is taken only
/// where it reads back as itself.
pub fn normalize(input: &str) -> (r: Option<String>)
    ensures
        r is Some <==> (url_text(input@) matches Some(text) && is_url(text)),
        r matches Some(text) ==> Some(text@) == url_text(input@),
{
    match parse_url(input) {
        Some(text) => {
            match parse_url(text.as_str()) {
                Some(again) => {
                    if again == text {
                        Some(text)
                    } else {
                        None
                    }
                },
                None => None,
            }
        },
        None => None,
    }
}

} // verus!
