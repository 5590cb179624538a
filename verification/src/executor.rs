//! One fetch, as a state machine over plain values.
//!
//! `begin` applies the caller's options to an acquired client (explicit
//! cookie injection, redirect-policy override) and prepares the first
//! request. The surrounding driver performs the exchange and hands the
//! outcome back: `on_reply` merges the hop's cookies into the jar and
//! decides — per the client's current redirect policy — whether the response
//! is final, is re-issued to its `Location` target, or crosses the hop
//! ceiling; `on_body` attaches the decoded body. Every decision is taken
//! here; the driver only transports bytes.

use vstd::prelude::*;

use crate::client::CookieClient;
use crate::jar::set_cookie_names;
use crate::net::{canonical_url, join_url, joined_url, parse_url, url_well_formed};
use crate::options::{
    duplicate_opt_body, opt_body_model, pairs_model, Body, BodyModel, Error, HeaderMap, Method,
    PayloadType,
};
use crate::policy::{
    is_redirect_status, spec_decide, spec_is_redirect_status, HopDecision, RedirectPolicy,
};

verus! {

/// Caller-supplied options, immutable for the duration of one fetch.
pub struct FetchOptions {
    pub response_type: PayloadType,
    pub method: Method,
    pub headers: Option<HeaderMap>,
    pub cookies: Option<Vec<(String, String)>>,
    pub redirect: Option<RedirectPolicy>,
    pub body: Option<Body>,
}

/// The structured result of one fetch: final URL, status, headers, the full
/// jar snapshot as a name-to-value association, and the optional body.
pub struct Response {
    pub url: String,
    pub status: u16,
    pub headers: HeaderMap,
    pub cookies: Vec<(String, String)>,
    pub body: Option<Body>,
}

/// What the transport reports for one completed exchange: the URL it hit,
/// the status, the response headers, every `Set-Cookie` header value, and
/// the `Location` header value if any.
pub struct TransportReply {
    pub url: String,
    pub status: u16,
    pub headers: HeaderMap,
    pub set_cookies: Vec<String>,
    pub location: Option<String>,
}

/// Everything the transport needs to issue one hop: method, target, the
/// request headers, the jar's cookies for that target, and the body.
pub struct PreparedRequest {
    pub method: Method,
    pub url: reqwest::Url,
    pub url_text: String,
    pub headers: HeaderMap,
    pub cookies: Vec<(String, String)>,
    pub body: Option<Body>,
}

/// The per-fetch state between two interactions with the transport.
pub enum FetchSession {
    /// A request was prepared; the transport's reply is awaited.
    AwaitingReply {
        mode: PayloadType,
        hops: usize,
        url: reqwest::Url,
        url_text: String,
        method: Method,
        headers: HeaderMap,
        body: Option<Body>,
    },
    /// The final response arrived; its body is being read.
    AwaitingBody { url: String, status: u16, headers: HeaderMap, cookies: Vec<(String, String)> },
    /// The fetch is over.
    Finished,
}

/// What the driver must do next.
pub enum Step {
    /// Issue this request and hand back a `TransportReply`.
    Send(PreparedRequest),
    /// Read the final response's body in this mode and hand it back.
    ReadBody(PayloadType),
    /// The fetch is over, with this outcome.
    Done(Result<Response, Error>),
}

impl FetchSession {
    pub open spec fn mode_of(self) -> PayloadType {
        match self {
            FetchSession::AwaitingReply { mode, .. } => mode,
            _ => arbitrary(),
        }
    }

    pub open spec fn hops_of(self) -> nat {
        match self {
            FetchSession::AwaitingReply { hops, .. } => hops as nat,
            _ => arbitrary(),
        }
    }

    pub open spec fn url_of(self) -> reqwest::Url {
        match self {
            FetchSession::AwaitingReply { url, .. } => url,
            _ => arbitrary(),
        }
    }

    pub open spec fn url_text_of(self) -> Seq<char> {
        match self {
            FetchSession::AwaitingReply { url_text, .. } => url_text@,
            _ => arbitrary(),
        }
    }

    pub open spec fn method_of(self) -> Method {
        match self {
            FetchSession::AwaitingReply { method, .. } => method,
            _ => arbitrary(),
        }
    }

    pub open spec fn headers_of(self) -> Seq<(Seq<char>, Seq<char>)> {
        match self {
            FetchSession::AwaitingReply { headers, .. } => headers@,
            _ => arbitrary(),
        }
    }

    pub open spec fn body_of(self) -> Option<BodyModel> {
        match self {
            FetchSession::AwaitingReply { body, .. } => opt_body_model(body),
            _ => arbitrary(),
        }
    }

    pub open spec fn saved_url(self) -> Seq<char> {
        match self {
            FetchSession::AwaitingBody { url, .. } => url@,
            _ => arbitrary(),
        }
    }

    pub open spec fn saved_status(self) -> u16 {
        match self {
            FetchSession::AwaitingBody { status, .. } => status,
            _ => arbitrary(),
        }
    }

    pub open spec fn saved_headers(self) -> Seq<(Seq<char>, Seq<char>)> {
        match self {
            FetchSession::AwaitingBody { headers, .. } => headers@,
            _ => arbitrary(),
        }
    }

    pub open spec fn saved_cookies(self) -> Vec<(String, String)> {
        match self {
            FetchSession::AwaitingBody { cookies, .. } => cookies,
            _ => arbitrary(),
        }
    }
}

/// The response decoding mode one fetch uses: the caller's choice, or raw
/// bytes when no options were given.
pub open spec fn opt_mode(options: Option<FetchOptions>) -> PayloadType {
    match options {
        Some(o) => o.response_type,
        None => PayloadType::Binary,
    }
}

/// The method one fetch uses: the caller's choice, or GET when no options
/// were given.
pub open spec fn opt_method(options: Option<FetchOptions>) -> Method {
    match options {
        Some(o) => o.method,
        None => Method::Get,
    }
}

/// The request headers one fetch carries.
pub open spec fn opt_headers(options: Option<FetchOptions>) -> Seq<(Seq<char>, Seq<char>)> {
    match options {
        Some(o) => match o.headers {
            Some(h) => h@,
            None => Seq::<(Seq<char>, Seq<char>)>::empty(),
        },
        None => Seq::<(Seq<char>, Seq<char>)>::empty(),
    }
}

/// The explicit cookie injections one fetch applies, in order.
pub open spec fn opt_injections(options: Option<FetchOptions>) -> Seq<(Seq<char>, Seq<char>)> {
    match options {
        Some(o) => match o.cookies {
            Some(cs) => pairs_model(cs@),
            None => Seq::<(Seq<char>, Seq<char>)>::empty(),
        },
        None => Seq::<(Seq<char>, Seq<char>)>::empty(),
    }
}

/// The names a list of (name, value) pairs carries.
pub open spec fn pair_names(s: Seq<(Seq<char>, Seq<char>)>) -> Set<Seq<char>> {
    Set::new(|n: Seq<char>| exists|i: int| 0 <= i < s.len() && (#[trigger] s[i]).0 == n)
}

/// The names the explicit injections touch: only jar entries under one of
/// these names can change before the request is issued.
pub open spec fn injected_names(options: Option<FetchOptions>) -> Set<Seq<char>> {
    pair_names(opt_injections(options))
}

/// The redirect-policy override the caller asked for, if any.
pub open spec fn opt_redirect(options: Option<FetchOptions>) -> Option<RedirectPolicy> {
    match options {
        Some(o) => o.redirect,
        None => None,
    }
}

/// The policy in force once the override is applied: the override when
/// given, else whatever the client's slot already held.
pub open spec fn effective_policy(
    options: Option<FetchOptions>,
    current: RedirectPolicy,
) -> RedirectPolicy {
    match opt_redirect(options) {
        Some(p) => p,
        None => current,
    }
}

/// The request body one fetch carries, abstractly.
pub open spec fn opt_req_body(options: Option<FetchOptions>) -> Option<BodyModel> {
    match options {
        Some(o) => opt_body_model(o.body),
        None => None,
    }
}

/// A 307 or 308 re-issues the original method and body; every other followed
/// redirect is re-issued as a bodyless GET (HEAD stays HEAD), as common HTTP
/// clients do.
pub open spec fn spec_keeps_payload(status: u16) -> bool {
    status == 307 || status == 308
}

/// The method of the re-issued request after a redirect with this status.
pub open spec fn spec_next_method(status: u16, m: Method) -> Method {
    if spec_keeps_payload(status) {
        m
    } else if m == Method::Head {
        Method::Head
    } else {
        Method::Get
    }
}

/// The body of the re-issued request after a redirect with this status.
pub open spec fn spec_next_body(status: u16, b: Option<BodyModel>) -> Option<BodyModel> {
    if spec_keeps_payload(status) {
        b
    } else {
        None
    }
}

fn next_method(status: u16, m: &Method) -> (r: Method)
    ensures
        r == spec_next_method(status, *m),
{
    if status == 307 || status == 308 {
        m.duplicate()
    } else {
        match m {
            Method::Head => Method::Head,
            _ => Method::Get,
        }
    }
}

fn next_body(status: u16, b: &Option<Body>) -> (r: Option<Body>)
    ensures
        opt_body_model(r) == spec_next_body(status, opt_body_model(*b)),
{
    if status == 307 || status == 308 {
        duplicate_opt_body(b)
    } else {
        None
    }
}

/// `cs` is a name-to-value association presenting the jar `jar`: every entry
/// is a pair the jar holds, every name the jar holds appears, and no name
/// appears twice.
pub open spec fn snapshot_of(cs: Seq<(String, String)>, jar: Set<(Seq<char>, Seq<char>)>) -> bool {
    &&& forall|i: int| 0 <= i < cs.len() ==> jar.contains(((#[trigger] cs[i]).0@, cs[i].1@))
    &&& forall|p: (Seq<char>, Seq<char>)|
        #[trigger] jar.contains(p) ==> exists|i: int| 0 <= i < cs.len() && cs[i].0@ == p.0
    &&& forall|i: int, j: int|
        0 <= i < j < cs.len() ==> (#[trigger] cs[i]).0@ != (#[trigger] cs[j]).0@
}

/// No cookie name appears twice in the list.
pub open spec fn names_distinct(s: Seq<(String, String)>) -> bool {
    forall|i: int, j: int| 0 <= i < j < s.len() ==> (#[trigger] s[i]).0@ != (#[trigger] s[j]).0@
}

/// Every pair of `out` is, up to its abstract value, a pair of `ent`.
pub open spec fn pairs_from(out: Seq<(String, String)>, ent: Seq<(String, String)>) -> bool {
    forall|i: int|
        0 <= i < out.len() ==> exists|t: int|
            0 <= t < ent.len() && (#[trigger] out[i]).0@ == ent[t].0@ && out[i].1@ == ent[t].1@
}

/// Every name among the first `k` pairs of `ent` appears in `out`.
pub open spec fn names_covered(out: Seq<(String, String)>, ent: Seq<(String, String)>, k: int) -> bool {
    forall|t: int|
        0 <= t < k ==> exists|i: int| 0 <= i < out.len() && out[i].0@ == (#[trigger] ent[t]).0@
}

proof fn lemma_dedup_keep(pre: Seq<(String, String)>, post: Seq<(String, String)>, ent: Seq<(String, String)>, k: int)
    requires
        0 <= k < ent.len(),
        post.len() == pre.len() + 1,
        forall|i: int| 0 <= i < pre.len() ==> #[trigger] post[i] == pre[i],
        post[pre.len() as int].0@ == ent[k].0@,
        post[pre.len() as int].1@ == ent[k].1@,
        names_distinct(pre),
        pairs_from(pre, ent),
        names_covered(pre, ent, k),
        forall|i: int| 0 <= i < pre.len() ==> (#[trigger] pre[i]).0@ != ent[k].0@,
    ensures
        names_distinct(post),
        pairs_from(post, ent),
        names_covered(post, ent, k + 1),
{
    assert forall|i: int, j: int|
        0 <= i < j < post.len() implies (#[trigger] post[i]).0@ != (#[trigger] post[j]).0@ by {
        if j < pre.len() {
            assert(post[i] == pre[i] && post[j] == pre[j]);
        } else {
            assert(post[i] == pre[i]);
            assert(post[j].0@ == ent[k].0@);
        }
    }
    assert forall|i: int|
        0 <= i < post.len() implies exists|t: int|
        0 <= t < ent.len() && (#[trigger] post[i]).0@ == ent[t].0@ && post[i].1@ == ent[t].1@ by {
        if i < pre.len() {
            assert(post[i] == pre[i]);
            let t = choose|t: int|
                0 <= t < ent.len() && pre[i].0@ == ent[t].0@ && pre[i].1@ == ent[t].1@;
            assert(post[i].0@ == ent[t].0@ && post[i].1@ == ent[t].1@);
        } else {
            assert(post[i].0@ == ent[k].0@ && post[i].1@ == ent[k].1@);
        }
    }
    assert forall|t: int|
        0 <= t < k + 1 implies exists|i: int|
        0 <= i < post.len() && post[i].0@ == (#[trigger] ent[t]).0@ by {
        if t < k {
            let i = choose|i: int| 0 <= i < pre.len() && pre[i].0@ == ent[t].0@;
            assert(post[i].0@ == ent[t].0@);
        } else {
            assert(post[pre.len() as int].0@ == ent[t].0@);
        }
    }
}

proof fn lemma_dedup_skip(pre: Seq<(String, String)>, ent: Seq<(String, String)>, k: int)
    requires
        0 <= k < ent.len(),
        names_covered(pre, ent, k),
        exists|i: int| 0 <= i < pre.len() && (#[trigger] pre[i]).0@ == ent[k].0@,
    ensures
        names_covered(pre, ent, k + 1),
{
    assert forall|t: int|
        0 <= t < k + 1 implies exists|i: int|
        0 <= i < pre.len() && pre[i].0@ == (#[trigger] ent[t]).0@ by {
        if t < k {
            assert(exists|i: int| 0 <= i < pre.len() && pre[i].0@ == ent[t].0@);
        } else {
            let i = choose|i: int| 0 <= i < pre.len() && (#[trigger] pre[i]).0@ == ent[k].0@;
            assert(pre[i].0@ == ent[t].0@);
        }
    }
}

/// Keeps the first entry of each cookie name: the result has no repeated
/// name, every kept pair comes from the input, and every input name is
/// represented.
pub fn dedup_by_name(entries: &Vec<(String, String)>) -> (r: Vec<(String, String)>)
    ensures
        names_distinct(r@),
        pairs_from(r@, entries@),
        names_covered(r@, entries@, entries@.len() as int),
{
    let mut out: Vec<(String, String)> = Vec::new();
    let mut k: usize = 0;
    while k < entries.len()
        invariant
            0 <= k <= entries.len(),
            names_distinct(out@),
            pairs_from(out@, entries@),
            names_covered(out@, entries@, k as int),
        decreases entries.len() - k,
    {
        let ghost pre = out@;
        let entry = &entries[k];
        let mut seen = false;
        let mut j: usize = 0;
        while j < out.len()
            invariant
                0 <= j <= out@.len(),
                out@ == pre,
                seen == exists|t: int| 0 <= t < j && (#[trigger] out@[t]).0@ == entry.0@,
            decreases out@.len() - j,
        {
            if out[j].0 == entry.0 {
                seen = true;
            }
            j = j + 1;
        }
        proof {
            assert(entry.0@ == entries@[k as int].0@ && entry.1@ == entries@[k as int].1@);
        }
        if !seen {
            out.push((entry.0.clone(), entry.1.clone()));
            proof {
                assert(forall|i: int| 0 <= i < pre.len() ==> #[trigger] out@[i] == pre[i]);
                assert(out@[pre.len() as int].0@ == entries@[k as int].0@);
                assert(out@[pre.len() as int].1@ == entries@[k as int].1@);
                assert(forall|i: int|
                    0 <= i < pre.len() ==> (#[trigger] pre[i]).0@ != entries@[k as int].0@);
                lemma_dedup_keep(pre, out@, entries@, k as int);
            }
        } else {
            proof {
                lemma_dedup_skip(out@, entries@, k as int);
            }
        }
        k = k + 1;
    }
    out
}

/// Law: a fetch with no options issues a plain GET — raw-byte decoding, no
/// header, no injection, no body, and the client's redirect policy left
/// alone; the response's status is then whatever the transport replied (see
/// `finalizes_to`).
pub proof fn lemma_default_options_issue_a_get()
    ensures
        opt_method(None) == Method::Get,
        opt_mode(None) == PayloadType::Binary,
        opt_headers(None) == Seq::<(Seq<char>, Seq<char>)>::empty(),
        opt_injections(None) == Seq::<(Seq<char>, Seq<char>)>::empty(),
        opt_redirect(None) == None::<RedirectPolicy>,
        opt_req_body(None) == None::<BodyModel>,
{
}

/// Law: under discard mode, a finalized fetch is complete at once and never
/// carries a body, whatever the transport sent.
pub proof fn lemma_discard_has_no_body(
    r: (FetchSession, Step),
    rep_url: Seq<char>,
    status: u16,
    hdrs: Seq<(Seq<char>, Seq<char>)>,
    jar: Set<(Seq<char>, Seq<char>)>,
)
    requires
        finalizes_to(r, PayloadType::Discard, rep_url, status, hdrs, jar),
    ensures
        r.1 matches Step::Done(res) && res matches Ok(resp) && resp.body is None && resp.status
            == status,
{
}

/// Whether the policy is consulted at all for this reply: the status is in
/// the redirection range and a `Location` target is present.
pub open spec fn spec_follow_case(reply: TransportReply) -> bool {
    spec_is_redirect_status(reply.status) && reply.location is Some
}

/// The pair (next session state, step) finalizes the reply: under discard
/// mode the response is complete at once, with no body; otherwise the body
/// is still to be read and the response parts are saved.
pub open spec fn finalizes_to(
    r: (FetchSession, Step),
    mode: PayloadType,
    rep_url: Seq<char>,
    status: u16,
    hdrs: Seq<(Seq<char>, Seq<char>)>,
    jar: Set<(Seq<char>, Seq<char>)>,
) -> bool {
    if mode == PayloadType::Discard {
        &&& r.0 is Finished
        &&& r.1 matches Step::Done(res) && res matches Ok(resp) && resp.status == status
            && resp.url@ == rep_url && resp.headers@ == hdrs && resp.body is None && snapshot_of(
            resp.cookies@,
            jar,
        )
    } else {
        &&& r.1 == Step::ReadBody(mode)
        &&& r.0 is AwaitingBody
        &&& r.0.saved_status() == status
        &&& r.0.saved_url() == rep_url
        &&& r.0.saved_headers() == hdrs
        &&& snapshot_of(r.0.saved_cookies()@, jar)
    }
}

fn finalize(
    mode: PayloadType,
    client: &CookieClient,
    url: String,
    status: u16,
    headers: HeaderMap,
) -> (r: (FetchSession, Step))
    ensures
        finalizes_to(r, mode, url@, status, headers@, client.jar_model()),
{
    let snapshot = client.jar_snapshot();
    let cookies = dedup_by_name(&snapshot);
    proof {
        assert forall|i: int|
            0 <= i < cookies@.len() implies client.jar_model().contains(
            ((#[trigger] cookies@[i]).0@, cookies@[i].1@),
        ) by {
            let t = choose|t: int|
                0 <= t < snapshot@.len() && cookies@[i].0@ == snapshot@[t].0@ && cookies@[i].1@
                    == snapshot@[t].1@;
            assert(client.jar_model().contains((snapshot@[t].0@, snapshot@[t].1@)));
        }
        assert forall|p: (Seq<char>, Seq<char>)|
            #[trigger] client.jar_model().contains(p) implies exists|i: int|
            0 <= i < cookies@.len() && cookies@[i].0@ == p.0 by {
            let si = choose|si: int|
                0 <= si < snapshot@.len() && snapshot@[si].0@ == p.0 && snapshot@[si].1@ == p.1;
            assert(exists|i: int| 0 <= i < cookies@.len() && cookies@[i].0@ == snapshot@[si].0@);
        }
        assert(snapshot_of(cookies@, client.jar_model()));
    }
    match mode {
        PayloadType::Discard => (
            FetchSession::Finished,
            Step::Done(Ok(Response { url, status, headers, cookies, body: None })),
        ),
        _ => (FetchSession::AwaitingBody { url, status, headers, cookies }, Step::ReadBody(mode)),
    }
}

fn split_options(options: Option<FetchOptions>) -> (r: (
    PayloadType,
    Method,
    HeaderMap,
    Option<Vec<(String, String)>>,
    Option<RedirectPolicy>,
    Option<Body>,
))
    ensures
        r.0 == opt_mode(options),
        r.1 == opt_method(options),
        r.2@ == opt_headers(options),
        (match r.3 {
            Some(cs) => pairs_model(cs@),
            None => Seq::<(Seq<char>, Seq<char>)>::empty(),
        }) == opt_injections(options),
        r.4 == opt_redirect(options),
        opt_body_model(r.5) == opt_req_body(options),
{
    match options {
        None => (PayloadType::Binary, Method::Get, HeaderMap::new(), None, None, None),
        Some(o) => {
            let headers = match o.headers {
                Some(h) => h,
                None => HeaderMap::new(),
            };
            (o.response_type, o.method, headers, o.cookies, o.redirect, o.body)
        },
    }
}

/// The first `f` injections stand applied: each pair among them whose name
/// is not injected again before `f` is in the jar.
pub open spec fn prefix_applied(
    jar: Set<(Seq<char>, Seq<char>)>,
    inj: Seq<(Seq<char>, Seq<char>)>,
    f: int,
) -> bool {
    forall|i: int|
        0 <= i < f && (forall|j: int| i < j < f ==> (#[trigger] inj[j]).0 != inj[i].0)
            ==> jar.contains(#[trigger] inj[i])
}

/// Injects the pairs into the client's jar in order, stopping at the first
/// refused injection; pairs already applied are not rolled back: on failure
/// the accepted prefix stays in the jar. An empty list, or a URL in the http
/// family, never fails. Only jar entries under one of the injected names can
/// change; when every injection is accepted, each pair whose name is not
/// injected again later is in the jar.
fn inject_all(client: &mut CookieClient, cs: &Vec<(String, String)>, url_text: &str) -> (r: Result<
    (),
    Error,
>)
    ensures
        final(client).transport_model() == old(client).transport_model(),
        final(client).policy_model() == old(client).policy_model(),
        cs@.len() == 0 ==> r is Ok,
        crate::net::http_url(url_text@) ==> r is Ok,
        forall|p: (Seq<char>, Seq<char>)|
            !pair_names(pairs_model(cs@)).contains(p.0) ==> (final(client).jar_model().contains(p)
                <==> old(client).jar_model().contains(p)),
        r is Ok ==> (forall|i: int|
            0 <= i < pairs_model(cs@).len() && (forall|j: int|
                i < j < pairs_model(cs@).len() ==> (#[trigger] pairs_model(cs@)[j]).0
                    != pairs_model(cs@)[i].0) ==> final(client).jar_model().contains(
                #[trigger] pairs_model(cs@)[i],
            )),
        r matches Err(e) ==> e.url is None && (exists|f: int|
            0 <= f < pairs_model(cs@).len() && prefix_applied(
                final(client).jar_model(),
                pairs_model(cs@),
                f,
            )),
{
    let ghost inj = pairs_model(cs@);
    let mut k: usize = 0;
    while k < cs.len()
        invariant
            0 <= k <= cs@.len(),
            inj == pairs_model(cs@),
            client.transport_model() == old(client).transport_model(),
            client.policy_model() == old(client).policy_model(),
            forall|p: (Seq<char>, Seq<char>)|
                !pair_names(inj).contains(p.0) ==> (client.jar_model().contains(p) <==> old(
                    client,
                ).jar_model().contains(p)),
            forall|i: int|
                0 <= i < k && (forall|j: int| i < j < k ==> (#[trigger] inj[j]).0 != inj[i].0)
                    ==> client.jar_model().contains(#[trigger] inj[i]),
        decreases cs@.len() - k,
    {
        let ghost jar_pre = client.jar_model();
        let pair = &cs[k];
        proof {
            assert(inj[k as int] == (pair.0@, pair.1@));
            assert(pair_names(inj).contains(inj[k as int].0));
        }
        match client.inject_cookie(&pair.0, &pair.1, url_text) {
            Ok(()) => {},
            Err(e) => {
                proof {
                    assert(prefix_applied(client.jar_model(), inj, k as int));
                }
                return Err(e);
            },
        }
        proof {
            assert forall|i: int|
                0 <= i < k + 1 && (forall|j: int|
                    i < j < k + 1 ==> (#[trigger] inj[j]).0 != inj[i].0)
                implies client.jar_model().contains(#[trigger] inj[i]) by {
                if i < k {
                    assert(inj[k as int].0 != inj[i].0);
                    assert(jar_pre.contains(inj[i]));
                } else {
                    assert(client.jar_model().contains((pair.0@, pair.1@)));
                }
            }
        }
        k = k + 1;
    }
    Ok(())
}

/// Starts one fetch on an acquired client: parses the URL (a malformed URL
/// is reported at once, with nothing attempted), injects the caller's
/// explicit cookies into the jar (stopping at the first refused injection;
/// earlier ones stay applied), applies the redirect-policy override, and
/// prepares the first request with the jar's cookies for that URL.
pub fn begin(client: &mut CookieClient, url: &String, options: Option<FetchOptions>) -> (r: Result<
    (FetchSession, PreparedRequest),
    Error,
>)
    ensures
        final(client).transport_model() == old(client).transport_model(),
        !url_well_formed(url@) ==> r is Err && *final(client) == *old(client),
        r is Ok ==> url_well_formed(url@),
        url_well_formed(url@) && opt_injections(options).len() == 0 ==> r is Ok,
        crate::net::http_url(url@) ==> r is Ok,
        forall|p: (Seq<char>, Seq<char>)|
            !injected_names(options).contains(p.0) ==> (final(client).jar_model().contains(p)
                <==> old(client).jar_model().contains(p)),
        r matches Err(e) ==> final(client).policy_model() == old(client).policy_model()
            && e.url is None,
        r is Err && url_well_formed(url@) ==> (exists|f: int|
            0 <= f < opt_injections(options).len() && prefix_applied(
                final(client).jar_model(),
                opt_injections(options),
                f,
            )),
        r matches Ok((session, request)) ==> {
            &&& session is AwaitingReply
            &&& session.mode_of() == opt_mode(options)
            &&& session.hops_of() == 0
            &&& session.method_of() == opt_method(options)
            &&& session.headers_of() == opt_headers(options)
            &&& session.body_of() == opt_req_body(options)
            &&& session.url_of() == request.url
            &&& session.url_text_of() == request.url_text@
            &&& request.method == opt_method(options)
            &&& request.headers@ == opt_headers(options)
            &&& request.url_text@ == canonical_url(url@)
            &&& opt_body_model(request.body) == opt_req_body(options)
            &&& final(client).policy_model() == effective_policy(
                options,
                old(client).policy_model(),
            )
            &&& (forall|i: int|
                0 <= i < opt_injections(options).len() && (forall|j: int|
                    i < j < opt_injections(options).len() ==> (#[trigger] opt_injections(options)[j]).0
                        != opt_injections(options)[i].0) ==> final(client).jar_model().contains(
                    #[trigger] opt_injections(options)[i],
                ))
            &&& (forall|i: int|
                0 <= i < request.cookies@.len() ==> final(client).jar_model().contains(
                    ((#[trigger] request.cookies@[i]).0@, request.cookies@[i].1@),
                ))
        },
{
    let (parsed, url_text) = match parse_url(url.as_str()) {
        Ok(pair) => pair,
        Err(message) => {
            return Err(Error::from_std_error(message));
        },
    };
    let (mode, method, headers, injections, redirect_opt, body) = split_options(options);
    match &injections {
        Some(cs) => {
            match inject_all(client, cs, url.as_str()) {
                Ok(()) => {},
                Err(e) => {
                    return Err(e);
                },
            }
        },
        None => {},
    }
    match redirect_opt {
        Some(p) => client.set_redirect_policy(p),
        None => {},
    }
    let cookies = client.request_cookies(&parsed);
    let req_url = parsed.clone();
    let session = FetchSession::AwaitingReply {
        mode,
        hops: 0,
        url: parsed,
        url_text: url_text.clone(),
        method: method.duplicate(),
        headers: headers.duplicate(),
        body: duplicate_opt_body(&body),
    };
    let request = PreparedRequest { method, url: req_url, url_text, headers, cookies, body };
    Ok((session, request))
}

impl FetchSession {
    /// Consumes the transport's reply for the current hop: the hop's
    /// `Set-Cookie` values are merged into the jar whatever happens next;
    /// then, for a redirect with a target, the client's current policy
    /// decides whether the reply is final (returned as-is), re-issued to the
    /// resolved target with one more hop, or refused because the hop ceiling
    /// is crossed; any other reply is final.
    pub fn on_reply(self, client: &mut CookieClient, reply: TransportReply) -> (r: (
        FetchSession,
        Step,
    ))
        requires
            self is AwaitingReply,
        ensures
            final(client).policy_model() == old(client).policy_model(),
            final(client).transport_model() == old(client).transport_model(),
            forall|p: (Seq<char>, Seq<char>)|
                !set_cookie_names(reply.set_cookies@.map_values(|h: String| h@)).contains(p.0)
                    ==> (final(client).jar_model().contains(p) <==> old(
                    client,
                ).jar_model().contains(p)),
            !spec_follow_case(reply) ==> finalizes_to(
                r,
                self.mode_of(),
                reply.url@,
                reply.status,
                reply.headers@,
                final(client).jar_model(),
            ),
            spec_follow_case(reply) ==> match spec_decide(
                old(client).policy_model(),
                self.hops_of(),
            ) {
                HopDecision::ReturnAsIs => finalizes_to(
                    r,
                    self.mode_of(),
                    reply.url@,
                    reply.status,
                    reply.headers@,
                    final(client).jar_model(),
                ),
                HopDecision::LimitExceeded => r.0 is Finished && (r.1 matches Step::Done(res)
                    && res matches Err(e) && e.url matches Some(u) && u@ == self.url_text_of()
                    && e.message@ == "redirect limit exceeded"@),
                HopDecision::Follow => (reply.location matches Some(loc) && (match joined_url(
                    self.url_text_of(),
                    loc@,
                ) {
                    Some(t) => (r.1 matches Step::Send(req) && {
                        &&& r.0 is AwaitingReply
                        &&& r.0.hops_of() == self.hops_of() + 1
                        &&& r.0.mode_of() == self.mode_of()
                        &&& r.0.method_of() == self.method_of()
                        &&& r.0.headers_of() == self.headers_of()
                        &&& r.0.body_of() == self.body_of()
                        &&& r.0.url_of() == req.url
                        &&& r.0.url_text_of() == req.url_text@
                        &&& req.url_text@ == t
                        &&& req.method == spec_next_method(reply.status, self.method_of())
                        &&& req.headers@ == self.headers_of()
                        &&& opt_body_model(req.body) == spec_next_body(
                            reply.status,
                            self.body_of(),
                        )
                        &&& (forall|i: int|
                            0 <= i < req.cookies@.len() ==> final(client).jar_model().contains(
                                ((#[trigger] req.cookies@[i]).0@, req.cookies@[i].1@),
                            ))
                    }),
                    None => (r.0 is Finished && (r.1 matches Step::Done(res) && res matches Err(e)
                        && e.url matches Some(u) && u@ == self.url_text_of() && e.message@
                        == "invalid redirect location"@)),
                })),
            },
    {
        match self {
            FetchSession::AwaitingReply { mode, hops, url, url_text, method, headers, body } => {
                client.merge_response_cookies(&reply.set_cookies, &url);
                let red = is_redirect_status(reply.status);
                if red && reply.location.is_some() {
                    let loc = match &reply.location {
                        Some(l) => l,
                        None => vstd::pervasive::unreached(),
                    };
                    match client.redirect_policy().decide(hops) {
                        HopDecision::ReturnAsIs => finalize(
                            mode,
                            client,
                            reply.url,
                            reply.status,
                            reply.headers,
                        ),
                        HopDecision::LimitExceeded => (
                            FetchSession::Finished,
                            Step::Done(
                                Err(
                                    Error {
                                        url: Some(url_text),
                                        message: "redirect limit exceeded".to_owned(),
                                    },
                                ),
                            ),
                        ),
                        HopDecision::Follow => {
                            match join_url(url_text.as_str(), loc.as_str()) {
                                None => (
                                    FetchSession::Finished,
                                    Step::Done(
                                        Err(
                                            Error {
                                                url: Some(url_text),
                                                message: "invalid redirect location".to_owned(),
                                            },
                                        ),
                                    ),
                                ),
                                Some((next, next_text)) => {
                                    let new_cookies = client.request_cookies(&next);
                                    let req = PreparedRequest {
                                        method: next_method(reply.status, &method),
                                        url: next.clone(),
                                        url_text: next_text.clone(),
                                        headers: headers.duplicate(),
                                        cookies: new_cookies,
                                        body: next_body(reply.status, &body),
                                    };
                                    (
                                        FetchSession::AwaitingReply {
                                            mode,
                                            hops: hops + 1,
                                            url: next,
                                            url_text: next_text,
                                            method,
                                            headers,
                                            body,
                                        },
                                        Step::Send(req),
                                    )
                                },
                            }
                        },
                    }
                } else {
                    finalize(mode, client, reply.url, reply.status, reply.headers)
                }
            },
            _ => vstd::pervasive::unreached(),
        }
    }

    /// Consumes the body-read outcome for the final response: a decoded body
    /// completes the response; a failed read (for example invalid text
    /// encoding) is the fetch's error.
    pub fn on_body(self, outcome: Result<Body, Error>) -> (r: (FetchSession, Step))
        requires
            self is AwaitingBody,
        ensures
            r.0 is Finished,
            outcome matches Ok(b) ==> (r.1 matches Step::Done(res) && res matches Ok(resp) && {
                &&& resp.status == self.saved_status()
                &&& resp.url@ == self.saved_url()
                &&& resp.headers@ == self.saved_headers()
                &&& resp.cookies == self.saved_cookies()
                &&& resp.body matches Some(bb) && bb@ == b@
            }),
            outcome matches Err(e) ==> (r.1 matches Step::Done(res) && res matches Err(e2) && e2
                == e),
    {
        match self {
            FetchSession::AwaitingBody { url, status, headers, cookies } => {
                match outcome {
                    Ok(b) => (
                        FetchSession::Finished,
                        Step::Done(
                            Ok(Response { url, status, headers, cookies, body: Some(b) }),
                        ),
                    ),
                    Err(e) => (FetchSession::Finished, Step::Done(Err(e))),
                }
            },
            _ => vstd::pervasive::unreached(),
        }
    }
}

} // verus!
