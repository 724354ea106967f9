//! URL-typed fields: a stored string is offered as a URL only when it parses
//! as an absolute URL. A malformed value resolves to absent instead of failing
//! the enclosing request.
use vstd::prelude::*;

use url::Url;

verus! {

#[verifier::external_type_specification]
#[verifier::external_body]
pub struct ExUrl(Url);

/// Whether a string parses as an absolute URL.
pub uninterp spec fn parses_as_url(s: Seq<char>) -> bool;

/// Relies on url::Url::parse: it returns `Ok` exactly when the input is an
/// absolute URL, which depends on the input string alone.
#[verifier::external_body]
fn parse_url(s: &str) -> (r: Option<Url>)
    ensures
        r is Some <==> parses_as_url(s@),
{
    Url::parse(s).ok()
}

/// A stored, possibly absent URL string, resolved with parse-or-absent
/// semantics.
pub fn resolve_url(stored: &Option<String>) -> (r: Option<Url>)
    ensures
        r is Some <==> (stored matches Some(s) && parses_as_url(s@)),
{
    match stored {
        Some(s) => parse_url(s.as_str()),
        None => None,
    }
}

} // verus!
