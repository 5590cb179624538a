use cookie_fetch::client::CookieClient;
use cookie_fetch::executor::{begin, FetchOptions, FetchSession, Step, TransportReply};
use cookie_fetch::options::{Body, HeaderMap, Method, PayloadType};
use cookie_fetch::policy::RedirectPolicy;

fn fresh_client() -> CookieClient {
    CookieClient::new().unwrap()
}

fn options(mode: PayloadType) -> FetchOptions {
    FetchOptions {
        response_type: mode,
        method: Method::Get,
        headers: None,
        cookies: None,
        redirect: None,
        body: None,
    }
}

fn reply(status: u16, location: Option<&str>) -> TransportReply {
    TransportReply {
        url: "http://example.com/".to_string(),
        status,
        headers: HeaderMap::new(),
        set_cookies: Vec::new(),
        location: location.map(|l| l.to_string()),
    }
}

#[test]
fn malformed_url_is_reported_at_once() {
    let mut c = fresh_client();
    let r = begin(&mut c, &"not a url".to_string(), None);
    let e = r.err().expect("a malformed URL must be refused");
    assert_eq!(e.url, None);
    assert!(!e.message.is_empty());
}

#[test]
fn default_options_prepare_a_get() {
    let mut c = fresh_client();
    let (_s, req) = begin(&mut c, &"HTTP://example.com".to_string(), None).unwrap();
    assert_eq!(req.method, Method::Get);
    assert_eq!(req.url_text, "http://example.com/".to_string());
    assert_eq!(req.headers.len(), 0);
    assert!(req.body.is_none());
    assert!(req.cookies.is_empty());
}

#[test]
fn plain_reply_status_is_reported() {
    let mut c = fresh_client();
    let (s, _req) = begin(&mut c, &"http://example.com/".to_string(), None).unwrap();
    let (s, step) = s.on_reply(&mut c, reply(200, None));
    match step {
        Step::ReadBody(PayloadType::Binary) => {},
        _ => panic!("a binary fetch reads the body next"),
    }
    let (_s, step) = s.on_body(Ok(Body::Binary(vec![1, 2, 3])));
    match step {
        Step::Done(Ok(resp)) => {
            assert_eq!(resp.status, 200);
            assert_eq!(resp.url, "http://example.com/".to_string());
            assert_eq!(resp.body, Some(Body::Binary(vec![1, 2, 3])));
        },
        _ => panic!("the fetch must succeed"),
    }
}

#[test]
fn injected_cookie_appears_in_snapshot() {
    let mut c = fresh_client();
    assert!(c.jar_snapshot().is_empty());
    c.inject_cookie(&"sid".to_string(), &"abc123".to_string(), "http://example.com/").unwrap();
    let url = reqwest::Url::parse("http://example.com/").unwrap();
    let snapshot = c.jar_snapshot();
    assert!(snapshot.contains(&("sid".to_string(), "abc123".to_string())));
    // The same client's next request to that URL offers the cookie.
    let offered = c.request_cookies(&url);
    assert!(offered.contains(&("sid".to_string(), "abc123".to_string())));
}

#[test]
fn injected_cookie_appears_in_next_fetch_response() {
    let mut c = fresh_client();
    let opts = FetchOptions {
        cookies: Some(vec![("sid".to_string(), "abc123".to_string())]),
        ..options(PayloadType::Discard)
    };
    let (s, req) = begin(&mut c, &"http://example.com/".to_string(), Some(opts)).unwrap();
    assert!(req.cookies.contains(&("sid".to_string(), "abc123".to_string())));
    let (_s, step) = s.on_reply(&mut c, reply(200, None));
    match step {
        Step::Done(Ok(resp)) => {
            assert!(resp.cookies.contains(&("sid".to_string(), "abc123".to_string())));
        },
        _ => panic!("a discard fetch finishes at the reply"),
    }
}

#[test]
fn cookie_injection_failure_is_reported_before_sending() {
    let mut c = fresh_client();
    let opts = FetchOptions {
        cookies: Some(vec![("sid".to_string(), "abc123".to_string())]),
        ..options(PayloadType::Binary)
    };
    // A URL without a host gives the jar nothing to bind the cookie to.
    let r = begin(&mut c, &"mailto:someone@example.com".to_string(), Some(opts));
    let e = r.err().expect("the injection must be refused");
    assert_eq!(e.url, None);
    assert!(!e.message.is_empty());
}

#[test]
fn redirect_none_returns_the_redirect_as_is() {
    let mut c = fresh_client();
    let opts = FetchOptions {
        redirect: Some(RedirectPolicy::NoFollow),
        ..options(PayloadType::Discard)
    };
    let (s, _req) = begin(&mut c, &"http://example.com/".to_string(), Some(opts)).unwrap();
    let (_s, step) = s.on_reply(&mut c, reply(302, Some("http://example.com/next")));
    match step {
        Step::Done(Ok(resp)) => {
            assert!(300 <= resp.status && resp.status <= 399);
            assert_eq!(resp.status, 302);
            assert!(resp.body.is_none());
        },
        _ => panic!("the redirect must be returned as the response"),
    }
}

#[test]
fn redirect_limit_zero_yields_an_error() {
    let mut c = fresh_client();
    let opts = FetchOptions {
        redirect: Some(RedirectPolicy::Limited { max: 0 }),
        ..options(PayloadType::Binary)
    };
    let (s, _req) = begin(&mut c, &"http://example.com/".to_string(), Some(opts)).unwrap();
    let (_s, step) = s.on_reply(&mut c, reply(302, Some("/next")));
    match step {
        Step::Done(Err(e)) => {
            assert_eq!(e.url, Some("http://example.com/".to_string()));
            assert_eq!(e.message, "redirect limit exceeded".to_string());
        },
        _ => panic!("crossing the hop ceiling must be an error"),
    }
}

#[test]
fn discard_mode_never_materializes_a_body() {
    let mut c = fresh_client();
    let (s, _req) =
        begin(&mut c, &"http://example.com/".to_string(), Some(options(PayloadType::Discard)))
            .unwrap();
    let (_s, step) = s.on_reply(&mut c, reply(200, None));
    match step {
        Step::Done(Ok(resp)) => assert!(resp.body.is_none()),
        _ => panic!("a discard fetch finishes at the reply"),
    }
}

#[test]
fn followed_redirect_resolves_relative_location() {
    let mut c = fresh_client();
    let opts = FetchOptions {
        redirect: Some(RedirectPolicy::Limited { max: 5 }),
        ..options(PayloadType::Discard)
    };
    let (s, _req) = begin(&mut c, &"http://example.com/a/b".to_string(), Some(opts)).unwrap();
    let (s, step) = s.on_reply(&mut c, reply(302, Some("/next")));
    let req2 = match step {
        Step::Send(req2) => req2,
        _ => panic!("the redirect must be followed"),
    };
    assert_eq!(req2.url_text, "http://example.com/next".to_string());
    assert_eq!(req2.method, Method::Get);
    // The second hop's 200 finishes the fetch.
    let (_s, step) = s.on_reply(&mut c, reply(200, None));
    match step {
        Step::Done(Ok(resp)) => assert_eq!(resp.status, 200),
        _ => panic!("the followed fetch must finish"),
    }
}

#[test]
fn followed_redirect_rewrites_post_to_get() {
    let mut c = fresh_client();
    let opts = FetchOptions {
        method: Method::Post,
        body: Some(Body::Text("payload".to_string())),
        redirect: Some(RedirectPolicy::Limited { max: 5 }),
        ..options(PayloadType::Discard)
    };
    let (s, req) = begin(&mut c, &"http://example.com/".to_string(), Some(opts)).unwrap();
    assert_eq!(req.method, Method::Post);
    let (_s, step) = s.on_reply(&mut c, reply(302, Some("/next")));
    match step {
        Step::Send(req2) => {
            assert_eq!(req2.method, Method::Get);
            assert!(req2.body.is_none());
        },
        _ => panic!("the redirect must be followed"),
    }
}

#[test]
fn temporary_redirect_keeps_method_and_body() {
    let mut c = fresh_client();
    let opts = FetchOptions {
        method: Method::Post,
        body: Some(Body::Text("payload".to_string())),
        redirect: Some(RedirectPolicy::Limited { max: 5 }),
        ..options(PayloadType::Discard)
    };
    let (s, _req) = begin(&mut c, &"http://example.com/".to_string(), Some(opts)).unwrap();
    let (_s, step) = s.on_reply(&mut c, reply(307, Some("/next")));
    match step {
        Step::Send(req2) => {
            assert_eq!(req2.method, Method::Post);
            assert_eq!(req2.body, Some(Body::Text("payload".to_string())));
        },
        _ => panic!("the redirect must be followed"),
    }
}

#[test]
fn hop_set_cookies_are_merged_into_the_jar() {
    let mut c = fresh_client();
    let opts = FetchOptions {
        redirect: Some(RedirectPolicy::Limited { max: 5 }),
        ..options(PayloadType::Discard)
    };
    let (s, _req) = begin(&mut c, &"http://example.com/".to_string(), Some(opts)).unwrap();
    let hop = TransportReply {
        url: "http://example.com/".to_string(),
        status: 302,
        headers: HeaderMap::new(),
        set_cookies: vec!["theme=dark; Path=/".to_string()],
        location: Some("/next".to_string()),
    };
    let (s, step) = s.on_reply(&mut c, hop);
    let req2 = match step {
        Step::Send(req2) => req2,
        _ => panic!("the redirect must be followed"),
    };
    // The cookie set on the intermediate hop is already offered on the next
    // hop and visible in the final snapshot.
    assert!(req2.cookies.contains(&("theme".to_string(), "dark".to_string())));
    let (_s, step) = s.on_reply(&mut c, reply(200, None));
    match step {
        Step::Done(Ok(resp)) => {
            assert!(resp.cookies.contains(&("theme".to_string(), "dark".to_string())));
        },
        _ => panic!("the followed fetch must finish"),
    }
}

#[test]
fn body_read_failure_becomes_the_fetch_error() {
    let mut c = fresh_client();
    let (s, _req) =
        begin(&mut c, &"http://example.com/".to_string(), Some(options(PayloadType::Text)))
            .unwrap();
    let (s, step) = s.on_reply(&mut c, reply(200, None));
    match step {
        Step::ReadBody(PayloadType::Text) => {},
        _ => panic!("a text fetch reads the body next"),
    }
    let e = cookie_fetch::options::Error {
        url: Some("http://example.com/".to_string()),
        message: "invalid text encoding".to_string(),
    };
    let (_s, step) = s.on_body(Err(e.clone()));
    match step {
        Step::Done(Err(got)) => assert_eq!(got, e),
        _ => panic!("a failed body read must fail the fetch"),
    }
}

#[test]
fn policy_override_persists_on_the_client() {
    let mut c = fresh_client();
    let opts = FetchOptions {
        redirect: Some(RedirectPolicy::NoFollow),
        ..options(PayloadType::Discard)
    };
    let _ = begin(&mut c, &"http://example.com/".to_string(), Some(opts)).unwrap();
    assert_eq!(c.redirect_policy(), RedirectPolicy::NoFollow);
    // A later fetch without an override finds the slot unchanged.
    let _ = begin(&mut c, &"http://example.com/".to_string(), None).unwrap();
    assert_eq!(c.redirect_policy(), RedirectPolicy::NoFollow);
}

#[test]
fn session_state_is_consumed_in_order() {
    let mut c = fresh_client();
    let (s, _req) = begin(&mut c, &"http://example.com/".to_string(), None).unwrap();
    match &s {
        FetchSession::AwaitingReply { hops, .. } => assert_eq!(*hops, 0),
        _ => panic!("a fresh session awaits the first reply"),
    }
    let (s, _step) = s.on_reply(&mut c, reply(200, None));
    match &s {
        FetchSession::AwaitingBody { status, .. } => assert_eq!(*status, 200),
        _ => panic!("after a plain reply the body is awaited"),
    }
    let (s, _step) = s.on_body(Ok(Body::Text("hi".to_string())));
    match s {
        FetchSession::Finished => {},
        _ => panic!("after the body the session is finished"),
    }
}
