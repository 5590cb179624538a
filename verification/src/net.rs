//! Trusted view of the URL type the transport works with.
//!
//! Parsing and resolving URLs is delegated to the `url` crate (re-exported by
//! `reqwest`); a parsed URL is carried through the library as an opaque
//! value, and its canonical text rides beside it so that contracts can speak
//! about the request target.

use vstd::prelude::*;

verus! {

#[verifier::external_type_specification]
#[verifier::external_body]
pub struct ExUrl(reqwest::Url);

/// Whether `reqwest::Url::parse` accepts the string: a fixed function of the
/// characters alone, left unspecified here.
pub uninterp spec fn url_well_formed(s: Seq<char>) -> bool;

/// Whether `reqwest::Url::parse` accepts the string and yields a URL whose
/// scheme is `http` or `https` (such a URL always carries a host): a fixed
/// function of the characters alone, left unspecified here.
pub uninterp spec fn http_url(s: Seq<char>) -> bool;

/// The serialization of the URL that `reqwest::Url::parse` yields for the
/// string — meaningful only when the string is well-formed: a fixed function
/// of the characters alone, left unspecified here.
pub uninterp spec fn canonical_url(s: Seq<char>) -> Seq<char>;

/// The serialization of the URL obtained by resolving `location` against the
/// URL whose serialization is `base`, or `None` when the base does not parse
/// or the location cannot be resolved against it (`url::Url::join`): a fixed
/// function of the two strings alone, left unspecified here.
pub uninterp spec fn joined_url(base: Seq<char>, location: Seq<char>) -> Option<Seq<char>>;

/// Relies on `reqwest::Url::parse` (the `url` crate) and `Url::as_str`:
/// parsing is a pure function of the input string, succeeding exactly on
/// well-formed absolute URLs — in particular on every string that parses as
/// an http(s) URL; on success the parsed URL is returned together with its
/// canonical text; on failure the parse error's description is returned.
#[verifier::external_body]
pub(crate) fn parse_url(s: &str) -> (r: Result<(reqwest::Url, String), String>)
    ensures
        r is Ok <==> url_well_formed(s@),
        http_url(s@) ==> r is Ok,
        r matches Ok((u, t)) ==> t@ == canonical_url(s@),
{
    match reqwest::Url::parse(s) {
        Ok(u) => {
            let t = u.as_str().to_string();
            Ok((u, t))
        },
        Err(e) => Err(format!("{}", e)),
    }
}

/// Relies on `reqwest::Url::parse`, `url::Url::join` and `Url::as_str`:
/// resolves a (possibly relative) redirect location against the URL written
/// as `base_text`, handing back the resolved URL with its canonical text;
/// `None` exactly when no URL resolves — all a fixed function of the two
/// strings.
#[verifier::external_body]
pub(crate) fn join_url(base_text: &str, location: &str) -> (r: Option<(reqwest::Url, String)>)
    ensures
        r is Some <==> joined_url(base_text@, location@) is Some,
        r matches Some((u, t)) ==> joined_url(base_text@, location@) == Some(t@),
{
    let base = match reqwest::Url::parse(base_text) {
        Ok(u) => u,
        Err(_) => {
            return None;
        },
    };
    match base.join(location) {
        Ok(u) => {
            let t = u.as_str().to_string();
            Some((u, t))
        },
        Err(_) => None,
    }
}

/// Relies on the derived `Clone` of `url::Url`: the copy is the same URL.
pub assume_specification[ <reqwest::Url as Clone>::clone ](u: &reqwest::Url) -> (r: reqwest::Url)
    ensures
        r == *u,
;

} // verus!
