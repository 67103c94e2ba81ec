//! Absolute-URL construction for the headless wallet service.

use vstd::prelude::*;

verus! {

/// Error for a host that is not a valid absolute URL, or a path that cannot
/// be resolved against it.
#[derive(Clone, Copy, Debug, PartialEq, Eq, Structural)]
pub struct UrlError;

/// The absolute URL that the `url` crate resolves `path` against `host` to:
/// `Url::parse(host)` followed by `.join(path)`, rendered with `as_str`.
/// `None` where parsing or joining fails.  Both steps are deterministic
/// functions of their character input alone.
pub uninterp spec fn resolved_url(host: Seq<char>, path: Seq<char>) -> Option<Seq<char>>;

/// Builds the URL for a request from the base `host` and the `path` of the
/// operation.  It fails if either host or path are not valid.
///
/// Relies on `reqwest::Url` (the `url` crate): `Url::parse` accepts exactly
/// the valid absolute URLs, `join` resolves a path against the parsed base,
/// and `as_str` renders the result; the composition is named `resolved_url`.
#[verifier::external_body]
pub fn build_headless_url(host: &str, path: &str) -> (r: Result<String, UrlError>)
    ensures
        r is Ok <==> resolved_url(host@, path@) is Some,
        r is Ok ==> r->Ok_0@ == resolved_url(host@, path@)->Some_0,
{
    match reqwest::Url::parse(host) {
        Ok(base) => match base.join(path) {
            Ok(url) => Ok(String::from(url.as_str())),
            Err(_) => Err(UrlError),
        },
        Err(_) => Err(UrlError),
    }
}

} // verus!
