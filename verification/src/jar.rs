//! Trusted view of the cookie jar.
//!
//! The jar itself — storage keyed by (domain, path, name) with RFC 6265
//! matching on insertion and lookup — is `cookie_store::CookieStore`, as
//! re-exported by `reqwest_cookie_store`. The library does not restate those
//! matching rules; it tracks the jar's contents abstractly as the set of
//! (name, value) pairs the store currently holds, which is exactly what a
//! response's jar snapshot exposes.

use vstd::prelude::*;

verus! {

#[verifier::external_type_specification]
#[verifier::external_body]
pub struct ExCookieStore(reqwest_cookie_store::CookieStore);

/// The (name, value) pairs of every cookie — expired ones included — that
/// the store currently holds, over all domains and paths.
pub uninterp spec fn jar_pairs(s: reqwest_cookie_store::CookieStore) -> Set<
    (Seq<char>, Seq<char>),
>;

/// The (name, value) pair a `Set-Cookie` header value carries, or `None`
/// when `cookie::Cookie::parse` rejects it: a fixed function of the header
/// characters alone, left unspecified here.
pub uninterp spec fn parsed_set_cookie(h: Seq<char>) -> Option<(Seq<char>, Seq<char>)>;

/// The cookie names a batch of `Set-Cookie` header values carries: only
/// entries under one of these names can be touched when the batch is merged
/// into a jar.
pub open spec fn set_cookie_names(hs: Seq<Seq<char>>) -> Set<Seq<char>> {
    Set::new(
        |n: Seq<char>|
            exists|i: int|
                0 <= i < hs.len() && (#[trigger] parsed_set_cookie(hs[i]) matches Some(nv)
                    && nv.0 == n),
    )
}

/// The abstract values of a list of strings.
pub open spec fn string_views(s: Seq<String>) -> Seq<Seq<char>> {
    s.map_values(|x: String| x@)
}

/// Whether the header value parses to a cookie of this name.
pub open spec fn parses_to_name(h: Seq<char>, n: Seq<char>) -> bool {
    match parsed_set_cookie(h) {
        Some(nv) => nv.0 == n,
        None => false,
    }
}

/// Header `i` is the only one of the batch that carries the name `n`, and it
/// carries it with the value `v`.
pub open spec fn sole_header_for(hs: Seq<Seq<char>>, i: int, n: Seq<char>, v: Seq<char>) -> bool {
    &&& 0 <= i < hs.len()
    &&& parsed_set_cookie(hs[i]) == Some((n, v))
    &&& forall|j: int| 0 <= j < hs.len() && j != i ==> !parses_to_name(#[trigger] hs[j], n)
}

/// The two jar contents agree on every pair of the given name.
pub open spec fn same_entries_under(
    a: Set<(Seq<char>, Seq<char>)>,
    b: Set<(Seq<char>, Seq<char>)>,
    n: Seq<char>,
) -> bool {
    forall|p: (Seq<char>, Seq<char>)| p.0 == n ==> (a.contains(p) <==> b.contains(p))
}

/// Relies on `cookie_store::CookieStore::new`: a freshly created store holds
/// no cookies.
#[verifier::external_body]
pub(crate) fn new_jar() -> (j: reqwest_cookie_store::CookieStore)
    ensures
        jar_pairs(j) == Set::<(Seq<char>, Seq<char>)>::empty(),
{
    reqwest_cookie_store::CookieStore::new()
}

/// Relies on `reqwest::Url::parse`, `cookie::Cookie::new` (re-exported as
/// `reqwest_cookie_store::RawCookie`) and `cookie_store::CookieStore::insert_raw`:
/// inserts one explicit (name, value) cookie for the URL written as text.
/// The cookie built here carries only a name and a value — session-only,
/// never expired — so a successful insert stores it under the URL's host and
/// default path, replacing at most a cookie of the same name; insertion can
/// only touch entries of that name, and a refused insert leaves the store
/// unchanged. For a URL that parses with scheme http or https the insert
/// always succeeds: the URL then has a host, the host-only domain built from
/// it matches it, and the store's http-only guard does not apply.
#[verifier::external_body]
pub(crate) fn jar_insert(
    jar: &mut reqwest_cookie_store::CookieStore,
    name: &String,
    value: &String,
    url_text: &str,
) -> (r: Result<(), String>)
    ensures
        crate::net::http_url(url_text@) ==> r is Ok,
        r is Ok ==> jar_pairs(*final(jar)).contains((name@, value@)),
        forall|p: (Seq<char>, Seq<char>)|
            p.0 != name@ ==> (jar_pairs(*final(jar)).contains(p) <==> jar_pairs(*old(jar)).contains(
                p,
            )),
        forall|p: (Seq<char>, Seq<char>)|
            jar_pairs(*final(jar)).contains(p) ==> jar_pairs(*old(jar)).contains(p) || p == (
                name@,
                value@,
            ),
        r is Err ==> jar_pairs(*final(jar)) == jar_pairs(*old(jar)),
{
    let url = match reqwest::Url::parse(url_text) {
        Ok(u) => u,
        Err(e) => {
            return Err(format!("{}", e));
        },
    };
    let cookie = reqwest_cookie_store::RawCookie::new(name.clone(), value.clone());
    match jar.insert_raw(&cookie, &url) {
        Ok(_) => Ok(()),
        Err(e) => Err(format!("{}", e)),
    }
}

/// Relies on `cookie_store::CookieStore::parse`: parses one `Set-Cookie`
/// header value and inserts the cookie for the given URL under the store's
/// own validation rules. Every refusal returns before anything is stored, so
/// the store is then unchanged; a parsed header can only touch entries whose
/// name is the parsed name; an accepted header either stores the parsed pair
/// or — when it only expires an existing cookie in place — leaves the
/// (name, value) pairs as they were.
#[verifier::external_body]
pub(crate) fn jar_merge_set_cookie(
    jar: &mut reqwest_cookie_store::CookieStore,
    header: &String,
    url: &reqwest::Url,
) -> (r: Result<(), String>)
    ensures
        r is Ok ==> (parsed_set_cookie(header@) matches Some(nv) && (jar_pairs(
            *final(jar),
        ).contains(nv) || jar_pairs(*final(jar)) == jar_pairs(*old(jar)))),
        parsed_set_cookie(header@) is None ==> r is Err,
        r is Err ==> jar_pairs(*final(jar)) == jar_pairs(*old(jar)),
        forall|p: (Seq<char>, Seq<char>)|
            jar_pairs(*final(jar)).contains(p) ==> jar_pairs(*old(jar)).contains(p)
                || parsed_set_cookie(header@) == Some(p),
        forall|p: (Seq<char>, Seq<char>)|
            (match parsed_set_cookie(header@) {
                Some(nv) => p.0 != nv.0,
                None => true,
            }) ==> (jar_pairs(*final(jar)).contains(p) <==> jar_pairs(*old(jar)).contains(p)),
{
    match jar.parse(header.as_str(), url) {
        Ok(_) => Ok(()),
        Err(e) => Err(format!("{}", e)),
    }
}

/// Relies on `cookie_store::CookieStore::iter_any`: visits every cookie in
/// the store, expired ones included, in no fixed order; each is handed out
/// as its (name, value) pair.
#[verifier::external_body]
pub(crate) fn jar_entries(jar: &reqwest_cookie_store::CookieStore) -> (r: Vec<(String, String)>)
    ensures
        forall|i: int|
            0 <= i < r@.len() ==> jar_pairs(*jar).contains((#[trigger] r@[i].0@, r@[i].1@)),
        forall|p: (Seq<char>, Seq<char>)|
            #[trigger] jar_pairs(*jar).contains(p) ==> exists|i: int|
                0 <= i < r@.len() && r@[i].0@ == p.0 && r@[i].1@ == p.1,
{
    jar.iter_any().map(|c| (c.name().to_string(), c.value().to_string())).collect()
}

/// Relies on `cookie_store::CookieStore::get_request_values`: the (name,
/// value) pairs suitable for the `Cookie` header of a request to the URL —
/// the unexpired cookies whose domain, path and flags match it, a selection
/// from the store's contents.
#[verifier::external_body]
pub(crate) fn jar_request_values(
    jar: &reqwest_cookie_store::CookieStore,
    url: &reqwest::Url,
) -> (r: Vec<(String, String)>)
    ensures
        forall|i: int|
            0 <= i < r@.len() ==> jar_pairs(*jar).contains((#[trigger] r@[i].0@, r@[i].1@)),
{
    jar.get_request_values(url).map(|(n, v)| (n.to_string(), v.to_string())).collect()
}

} // verus!
