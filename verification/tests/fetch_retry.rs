use in_scraper::errors::ScrapeError;
use in_scraper::fetch::{classify, decide, simulate_fetch, FetchEvent, FetchStep, RetryPolicy};

fn policy(max_retries: u32, base_delay_ms: u64) -> RetryPolicy {
    RetryPolicy { max_retries, base_delay_ms, min_content_len: 1000 }
}

fn ok_response() -> FetchEvent {
    FetchEvent::Response { status: 200, body_len: 5000 }
}

#[test]
fn classify_success_needs_long_body() {
    let p = policy(3, 1000);
    assert_eq!(classify(p.min_content_len, &ok_response()), Ok(()));
}

#[test]
fn short_success_body_is_content_too_short() {
    // a 2xx response below the threshold is a suspected block page, not a success
    let p = policy(3, 1000);
    let r = classify(p.min_content_len, &FetchEvent::Response { status: 200, body_len: 120 });
    assert_eq!(r, Err(ScrapeError::ContentTooShort(120)));
}

#[test]
fn status_classes_map_to_the_taxonomy() {
    let p = policy(3, 1000);
    assert_eq!(
        classify(p.min_content_len, &FetchEvent::Response { status: 429, body_len: 0 }),
        Err(ScrapeError::RateLimited)
    );
    assert_eq!(
        classify(p.min_content_len, &FetchEvent::Response { status: 503, body_len: 0 }),
        Err(ScrapeError::ServerFailure(503))
    );
    assert_eq!(
        classify(p.min_content_len, &FetchEvent::Response { status: 404, body_len: 0 }),
        Err(ScrapeError::ClientFailure(404))
    );
    assert_eq!(
        classify(p.min_content_len, &FetchEvent::TransportError),
        Err(ScrapeError::TransportFailure)
    );
}

#[test]
fn rate_limited_then_success_takes_three_attempts() {
    let p = policy(3, 100);
    let events = vec![
        FetchEvent::Response { status: 429, body_len: 0 },
        FetchEvent::Response { status: 429, body_len: 0 },
        ok_response(),
        ok_response(),
    ];
    let log = simulate_fetch(&p, &events);
    assert_eq!(log.attempts, 3);
    assert_eq!(log.outcome, Ok(2));
    assert_eq!(log.delays, vec![100, 200]);
    for w in log.delays.windows(2) {
        assert!(w[0] <= w[1]);
    }
}

#[test]
fn persistent_server_errors_exhaust_the_budget() {
    let p = policy(3, 50);
    let events = vec![FetchEvent::Response { status: 500, body_len: 0 }; 4];
    let log = simulate_fetch(&p, &events);
    assert_eq!(log.attempts, 4);
    assert_eq!(log.outcome, Err(ScrapeError::ServerFailure(500)));
}

#[test]
fn client_error_gives_up_at_once() {
    let p = policy(3, 50);
    let events = vec![FetchEvent::Response { status: 403, body_len: 0 }, ok_response(), ok_response(), ok_response()];
    let log = simulate_fetch(&p, &events);
    assert_eq!(log.attempts, 1);
    assert_eq!(log.outcome, Err(ScrapeError::ClientFailure(403)));
}

#[test]
fn rate_limit_decision_rotates_the_proxy() {
    let p = policy(3, 100);
    let step = decide(&p, 1, &FetchEvent::Response { status: 429, body_len: 0 });
    assert_eq!(step, FetchStep::RetryAfter { delay_ms: 100, rotate_proxy: true });
    let step = decide(&p, 2, &FetchEvent::Response { status: 500, body_len: 0 });
    assert_eq!(step, FetchStep::RetryAfter { delay_ms: 200, rotate_proxy: false });
    let step = decide(&p, 4, &FetchEvent::Response { status: 500, body_len: 0 });
    assert_eq!(step, FetchStep::GiveUp(ScrapeError::ServerFailure(500)));
}

#[test]
fn policy_check_rejects_overflowing_backoff() {
    let p = policy(3, u64::MAX / 2);
    assert!(!p.check());
    let p = policy(3, 1000);
    assert!(p.check());
}
