use cookie_fetch::executor::dedup_by_name;
use cookie_fetch::options::{default_method, Error, HeaderMap, Method};
use cookie_fetch::policy::{is_redirect_status, HopDecision, RedirectPolicy};
use cookie_fetch::pool::{Acquired, CookieClientPool};
use cookie_fetch::client::CookieClient;

#[test]
fn default_method_is_get() {
    assert_eq!(default_method(), Method::Get);
}

#[test]
fn error_from_std_error_has_no_url() {
    let e = Error::from_std_error("boom".to_string());
    assert_eq!(e.url, None);
    assert_eq!(e.message, "boom".to_string());
}

#[test]
fn header_map_keeps_every_occurrence() {
    let mut h = HeaderMap::new();
    assert_eq!(h.len(), 0);
    h.append("accept".to_string(), "text/html".to_string());
    h.append("accept".to_string(), "application/json".to_string());
    assert_eq!(h.len(), 2);
    let entries = h.entries();
    assert_eq!(entries[0], ("accept".to_string(), "text/html".to_string()));
    assert_eq!(entries[1], ("accept".to_string(), "application/json".to_string()));
}

#[test]
fn no_follow_policy_always_returns_as_is() {
    let p = RedirectPolicy::NoFollow;
    assert_eq!(p.decide(0), HopDecision::ReturnAsIs);
    assert_eq!(p.decide(7), HopDecision::ReturnAsIs);
}

#[test]
fn limited_policy_follows_until_ceiling() {
    let p = RedirectPolicy::Limited { max: 2 };
    assert_eq!(p.decide(0), HopDecision::Follow);
    assert_eq!(p.decide(1), HopDecision::Follow);
    assert_eq!(p.decide(2), HopDecision::LimitExceeded);
    assert_eq!(p.decide(3), HopDecision::LimitExceeded);
}

#[test]
fn zero_ceiling_refuses_first_redirect() {
    let p = RedirectPolicy::Limited { max: 0 };
    assert_eq!(p.decide(0), HopDecision::LimitExceeded);
}

#[test]
fn default_policy_is_limited_ten() {
    assert_eq!(RedirectPolicy::default(), RedirectPolicy::Limited { max: 10 });
}

#[test]
fn redirect_status_range() {
    assert!(!is_redirect_status(299));
    assert!(is_redirect_status(300));
    assert!(is_redirect_status(302));
    assert!(is_redirect_status(399));
    assert!(!is_redirect_status(400));
}

#[test]
fn dedup_keeps_first_entry_per_name() {
    let entries = vec![
        ("a".to_string(), "1".to_string()),
        ("b".to_string(), "2".to_string()),
        ("a".to_string(), "3".to_string()),
    ];
    let out = dedup_by_name(&entries);
    assert_eq!(
        out,
        vec![("a".to_string(), "1".to_string()), ("b".to_string(), "2".to_string())]
    );
}

#[test]
fn pool_grants_each_client_once() {
    let mut pool = CookieClientPool::new();
    pool.add_client(CookieClient::new().unwrap());
    pool.add_client(CookieClient::new().unwrap());
    assert_eq!(pool.len(), 2);

    let (i0, c0) = match pool.acquire() {
        Acquired::Granted(i, c) => (i, c),
        Acquired::Queued(_) => panic!("expected a grant"),
    };
    let (i1, c1) = match pool.acquire() {
        Acquired::Granted(i, c) => (i, c),
        Acquired::Queued(_) => panic!("expected a grant"),
    };
    assert_ne!(i0, i1);

    // Both clients are out: further acquirers queue up, in order.
    let t0 = match pool.acquire() {
        Acquired::Queued(t) => t,
        Acquired::Granted(..) => panic!("expected to queue"),
    };
    let t1 = match pool.acquire() {
        Acquired::Queued(t) => t,
        Acquired::Granted(..) => panic!("expected to queue"),
    };
    assert!(t0 < t1);

    // A release hands the client straight to the earliest waiter.
    let (served, c0_back) = pool.release(i0, c0).expect("a waiter should be served");
    assert_eq!(served, t0);
    let (served2, c1_back) = pool.release(i0, c0_back).expect("a waiter should be served");
    assert_eq!(served2, t1);

    // Nobody waits any more: clients come to rest and can be granted again.
    assert!(pool.release(i0, c1_back).is_none());
    assert!(pool.release(i1, c1).is_none());
    match pool.acquire() {
        Acquired::Granted(i, _) => assert_eq!(i, 0),
        Acquired::Queued(_) => panic!("expected a grant"),
    }
}
