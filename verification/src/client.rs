//! One logical client: a transport handle, a cookie jar shared by every
//! fetch that reuses the client, and a mutable redirect-policy slot.
//!
//! A client is only ever mutated by the caller that currently holds it
//! exclusively (the pool guarantees a client is never handed to two callers
//! at once), so no locking is layered on top here.

use vstd::prelude::*;

use crate::jar::{jar_entries, jar_insert, jar_pairs, jar_request_values, new_jar};
use crate::options::Error;
use crate::policy::RedirectPolicy;

verus! {

#[verifier::external_type_specification]
#[verifier::external_body]
pub struct ExReqwestClient(reqwest::Client);

/// Relies on `reqwest::Client::builder`, `ClientBuilder::redirect` and
/// `ClientBuilder::build`: builds a transport handle with the transport's own
/// redirect following switched off (`reqwest::redirect::Policy::none`), so
/// every hop decision is taken by this library; on failure the builder
/// error's description is returned.
#[verifier::external_body]
fn build_transport() -> (r: Result<reqwest::Client, String>)
{
    match reqwest::Client::builder().redirect(reqwest::redirect::Policy::none()).build() {
        Ok(c) => Ok(c),
        Err(e) => Err(format!("{}", e)),
    }
}

/// A pooled client: transport handle, shared cookie jar, and the current
/// redirect policy.
pub struct CookieClient {
    transport: reqwest::Client,
    jar: reqwest_cookie_store::CookieStore,
    policy: RedirectPolicy,
}

impl CookieClient {
    /// The jar's contents, abstractly: the set of (name, value) pairs it
    /// holds.
    pub closed spec fn jar_model(self) -> Set<(Seq<char>, Seq<char>)> {
        jar_pairs(self.jar)
    }

    /// The redirect policy currently in the client's slot.
    pub closed spec fn policy_model(self) -> RedirectPolicy {
        self.policy
    }

    /// The transport handle, for stating that operations leave it alone.
    pub closed spec fn transport_model(self) -> reqwest::Client {
        self.transport
    }

    /// A fresh client: an empty jar and the default redirect policy.
    pub fn new() -> (r: Result<CookieClient, Error>)
        ensures
            r matches Ok(c) ==> c.jar_model() == Set::<(Seq<char>, Seq<char>)>::empty()
                && c.policy_model() == (RedirectPolicy::Limited { max: 10 }),
    {
        match build_transport() {
            Ok(transport) => Ok(
                CookieClient { transport, jar: new_jar(), policy: RedirectPolicy::default() },
            ),
            Err(message) => Err(Error::from_std_error(message)),
        }
    }

    /// Overwrites the redirect policy; the jar and the transport are
    /// untouched.
    pub fn set_redirect_policy(&mut self, p: RedirectPolicy)
        ensures
            final(self).policy_model() == p,
            final(self).jar_model() == old(self).jar_model(),
            final(self).transport_model() == old(self).transport_model(),
    {
        self.policy = p;
    }

    /// Reads the redirect policy currently in the slot.
    pub fn redirect_policy(&self) -> (p: RedirectPolicy)
        ensures
            p == self.policy_model(),
    {
        self.policy
    }

    /// The transport handle, for issuing the actual exchange.
    pub fn transport(&self) -> (t: &reqwest::Client)
        ensures
            *t == self.transport_model(),
    {
        &self.transport
    }

    /// Injects one explicit (name, value) cookie into the jar, bound to the
    /// URL written as text by the jar's own validation rules. For a URL in
    /// the http family the injection is accepted; on success the pair is in
    /// the jar; pairs of other names are untouched either way; a refusal
    /// leaves the jar as it was and is reported, not silently dropped.
    pub fn inject_cookie(&mut self, name: &String, value: &String, url_text: &str) -> (r: Result<
        (),
        Error,
    >)
        ensures
            final(self).policy_model() == old(self).policy_model(),
            final(self).transport_model() == old(self).transport_model(),
            crate::net::http_url(url_text@) ==> r is Ok,
            r is Ok ==> final(self).jar_model().contains((name@, value@)),
            forall|p: (Seq<char>, Seq<char>)|
                final(self).jar_model().contains(p) ==> old(self).jar_model().contains(p) || p
                    == (name@, value@),
            forall|p: (Seq<char>, Seq<char>)|
                p.0 != name@ ==> (final(self).jar_model().contains(p) <==> old(
                    self,
                ).jar_model().contains(p)),
            r matches Err(e) ==> final(self).jar_model() == old(self).jar_model() && e.url is None,
    {
        match jar_insert(&mut self.jar, name, value, url_text) {
            Ok(()) => Ok(()),
            Err(message) => Err(Error::from_std_error(message)),
        }
    }

    /// A snapshot of the whole jar as (name, value) entries: every entry is
    /// in the jar, and every pair the jar holds appears.
    pub fn jar_snapshot(&self) -> (r: Vec<(String, String)>)
        ensures
            forall|i: int|
                0 <= i < r@.len() ==> self.jar_model().contains((#[trigger] r@[i].0@, r@[i].1@)),
            forall|p: (Seq<char>, Seq<char>)|
                #[trigger] self.jar_model().contains(p) ==> exists|i: int|
                    0 <= i < r@.len() && r@[i].0@ == p.0 && r@[i].1@ == p.1,
    {
        jar_entries(&self.jar)
    }

    /// The (name, value) pairs the jar offers for a request to `url`: a
    /// selection from the jar's contents.
    pub fn request_cookies(&self, url: &reqwest::Url) -> (r: Vec<(String, String)>)
        ensures
            forall|i: int|
                0 <= i < r@.len() ==> self.jar_model().contains((#[trigger] r@[i].0@, r@[i].1@)),
    {
        jar_request_values(&self.jar, url)
    }

    /// Merges the `Set-Cookie` header values of one response hop into the
    /// jar, each under the jar's own validation rules; malformed or refused
    /// headers are dropped, as a transport's automatic cookie handling does.
    /// Pairs whose name none of the headers carries are untouched, and for a
    /// name that exactly one header carries, either its parsed pair is in
    /// the jar afterwards or the jar's entries under that name are exactly
    /// what they were (the header was refused, or only expired an existing
    /// cookie in place).
    pub fn merge_response_cookies(&mut self, headers: &Vec<String>, url: &reqwest::Url)
        ensures
            final(self).policy_model() == old(self).policy_model(),
            final(self).transport_model() == old(self).transport_model(),
            forall|p: (Seq<char>, Seq<char>)|
                !crate::jar::set_cookie_names(headers@.map_values(|h: String| h@)).contains(p.0)
                    ==> (final(self).jar_model().contains(p) <==> old(self).jar_model().contains(
                    p,
                )),
            forall|i: int, n: Seq<char>, v: Seq<char>|
                #[trigger] crate::jar::sole_header_for(
                    crate::jar::string_views(headers@),
                    i,
                    n,
                    v,
                ) ==> (final(self).jar_model().contains((n, v))
                    || crate::jar::same_entries_under(
                    final(self).jar_model(),
                    old(self).jar_model(),
                    n,
                )),
    {
        let ghost views = crate::jar::string_views(headers@);
        let ghost names = crate::jar::set_cookie_names(views);
        let mut k: usize = 0;
        while k < headers.len()
            invariant
                0 <= k <= headers.len(),
                self.policy == old(self).policy,
                self.transport == old(self).transport,
                views == crate::jar::string_views(headers@),
                names == crate::jar::set_cookie_names(views),
                forall|p: (Seq<char>, Seq<char>)|
                    !names.contains(p.0) ==> (jar_pairs(self.jar).contains(p) <==> jar_pairs(
                        old(self).jar,
                    ).contains(p)),
                forall|i: int, n: Seq<char>, v: Seq<char>|
                    #[trigger] crate::jar::sole_header_for(views, i, n, v) && i < k ==> (jar_pairs(
                        self.jar,
                    ).contains((n, v)) || crate::jar::same_entries_under(
                        jar_pairs(self.jar),
                        jar_pairs(old(self).jar),
                        n,
                    )),
                forall|i: int, n: Seq<char>, v: Seq<char>|
                    #[trigger] crate::jar::sole_header_for(views, i, n, v) && k <= i
                        ==> crate::jar::same_entries_under(
                        jar_pairs(self.jar),
                        jar_pairs(old(self).jar),
                        n,
                    ),
            decreases headers.len() - k,
        {
            let ghost jar_pre = jar_pairs(self.jar);
            let header = &headers[k];
            proof {
                assert(views[k as int] == header@);
            }
            let merged = crate::jar::jar_merge_set_cookie(&mut self.jar, header, url);
            proof {
                let jar_now = jar_pairs(self.jar);
                let jar_old = jar_pairs(old(self).jar);
                assert forall|i: int, n: Seq<char>, v: Seq<char>|
                    #[trigger] crate::jar::sole_header_for(views, i, n, v) && i < k + 1 implies (
                jar_now.contains((n, v)) || crate::jar::same_entries_under(
                    jar_now,
                    jar_old,
                    n,
                )) by {
                    if i == k {
                        // This very header carries (n, v), and no other one
                        // touches n.
                        assert(crate::jar::parsed_set_cookie(header@) == Some((n, v)));
                        if merged is Ok {
                            if !jar_now.contains((n, v)) {
                                assert(jar_now == jar_pre);
                                assert(crate::jar::same_entries_under(jar_now, jar_old, n));
                            }
                        } else {
                            assert(jar_now == jar_pre);
                            assert(crate::jar::same_entries_under(jar_now, jar_old, n));
                        }
                    } else {
                        // Header k does not carry n, so entries under n moved
                        // through this step untouched.
                        assert(!crate::jar::parses_to_name(views[k as int], n));
                        assert forall|p: (Seq<char>, Seq<char>)| p.0 == n implies (
                        jar_now.contains(p) <==> jar_pre.contains(p)) by {
                            assert(match crate::jar::parsed_set_cookie(header@) {
                                Some(nv) => p.0 != nv.0,
                                None => true,
                            });
                        }
                    }
                }
                assert forall|i: int, n: Seq<char>, v: Seq<char>|
                    #[trigger] crate::jar::sole_header_for(views, i, n, v) && k + 1 <= i implies
                crate::jar::same_entries_under(jar_now, jar_old, n) by {
                    assert(!crate::jar::parses_to_name(views[k as int], n));
                    assert(crate::jar::same_entries_under(jar_pre, jar_old, n));
                    assert forall|p: (Seq<char>, Seq<char>)| p.0 == n implies (jar_now.contains(p)
                        <==> jar_pre.contains(p)) by {
                        assert(match crate::jar::parsed_set_cookie(header@) {
                            Some(nv) => p.0 != nv.0,
                            None => true,
                        });
                    }
                }
            }
            k = k + 1;
        }
    }
}

/// Law: a (name, value) pair the jar holds — an explicitly injected cookie
/// in particular — appears, name and value, in every snapshot that presents
/// that jar: what one fetch wrote is visible to the next fetch on the same
/// client.
pub proof fn lemma_jar_pair_visible_in_snapshot(
    c: CookieClient,
    snapshot: Seq<(String, String)>,
    name: Seq<char>,
    value: Seq<char>,
)
    requires
        c.jar_model().contains((name, value)),
        forall|p: (Seq<char>, Seq<char>)|
            #[trigger] c.jar_model().contains(p) ==> exists|i: int|
                0 <= i < snapshot.len() && snapshot[i].0@ == p.0 && snapshot[i].1@ == p.1,
    ensures
        exists|i: int| 0 <= i < snapshot.len() && snapshot[i].0@ == name && snapshot[i].1@ == value,
{
    assert(c.jar_model().contains((name, value)));
    let i = choose|i: int|
        0 <= i < snapshot.len() && snapshot[i].0@ == (name, value).0 && snapshot[i].1@ == (
        name,
        value,
        ).1;
    assert(snapshot[i].0@ == name && snapshot[i].1@ == value);
}

/// Law: injecting (name, value) into a jar that held no cookie of that name
/// leaves exactly that pair under the name, so every snapshot entry of that
/// name carries exactly the injected value — the next fetch on the same
/// client sees the cookie with the value that was written.
pub proof fn lemma_injected_value_exact(
    pre: Set<(Seq<char>, Seq<char>)>,
    post: Set<(Seq<char>, Seq<char>)>,
    name: Seq<char>,
    value: Seq<char>,
    snapshot: Seq<(String, String)>,
)
    requires
        forall|p: (Seq<char>, Seq<char>)| p.0 == name ==> !pre.contains(p),
        post.contains((name, value)),
        forall|p: (Seq<char>, Seq<char>)|
            #[trigger] post.contains(p) ==> pre.contains(p) || p == (name, value),
        forall|i: int|
            0 <= i < snapshot.len() ==> post.contains(((#[trigger] snapshot[i]).0@, snapshot[i].1@)),
        forall|p: (Seq<char>, Seq<char>)|
            #[trigger] post.contains(p) ==> exists|i: int|
                0 <= i < snapshot.len() && snapshot[i].0@ == p.0 && snapshot[i].1@ == p.1,
    ensures
        forall|i: int|
            0 <= i < snapshot.len() && (#[trigger] snapshot[i]).0@ == name ==> snapshot[i].1@
                == value,
        exists|i: int| 0 <= i < snapshot.len() && snapshot[i].0@ == name && snapshot[i].1@ == value,
{
    assert forall|i: int|
        0 <= i < snapshot.len() && (#[trigger] snapshot[i]).0@ == name implies snapshot[i].1@
        == value by {
        let p = (snapshot[i].0@, snapshot[i].1@);
        assert(post.contains(p));
        assert(!pre.contains(p));
    }
    assert(post.contains((name, value)));
}

} // verus!
