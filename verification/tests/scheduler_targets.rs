use in_scraper::scheduler::CrawlState;
use in_scraper::strutil::canonical_url;
use in_scraper::target::Request;

fn req(url: &str) -> Request {
    Request::new(url.to_string())
}

#[test]
fn canonical_form_strips_the_query() {
    assert_eq!(canonical_url("https://x.test/jobs?start=25").as_str(), "https://x.test/jobs");
    assert_eq!(canonical_url("https://x.test/jobs").as_str(), "https://x.test/jobs");
}

#[test]
fn volatile_query_parameters_deduplicate_to_one_target() {
    // two follow-ups that differ only in a volatile query parameter share
    // one canonical path, so only the first is enqueued
    let mut s = CrawlState::new(vec![req("https://x.test/p/1")], 2);
    let _t = s.dispatch();
    s.complete(vec![
        req("https://x.test/p/2?tracking=abc"),
        req("https://x.test/p/2?tracking=def"),
    ]);
    assert_eq!(s.queue.len(), 1);
    assert_eq!(s.queue[0].url.as_str(), "https://x.test/p/2?tracking=abc");
}

#[test]
fn seeds_with_one_canonical_path_collapse() {
    let s = CrawlState::new(
        vec![req("https://x.test/a?v=1"), req("https://x.test/a?v=2"), req("https://x.test/b")],
        1,
    );
    assert_eq!(s.queue.len(), 2);
}

#[test]
fn concurrency_limit_caps_in_flight_work() {
    let urls: Vec<Request> = (0..10).map(|i| req(&format!("https://x.test/{i}"))).collect();
    let mut s = CrawlState::new(urls, 3);
    let mut running = 0usize;
    let mut max_seen = 0usize;
    let mut done = 0usize;
    while !s.is_done() {
        while s.can_dispatch() {
            let _t = s.dispatch();
            running += 1;
            if running > max_seen {
                max_seen = running;
            }
        }
        assert!(s.in_flight <= 3);
        s.complete(vec![]);
        running -= 1;
        done += 1;
    }
    assert_eq!(done, 10);
    assert_eq!(max_seen, 3);
}

#[test]
fn failure_releases_the_permit_and_adds_nothing() {
    let mut s = CrawlState::new(vec![req("https://x.test/a")], 1);
    let _t = s.dispatch();
    assert_eq!(s.in_flight, 1);
    s.fail();
    assert_eq!(s.in_flight, 0);
    assert!(s.is_done());
}

#[test]
fn meta_annotations_shadow_by_key() {
    let r = Request::new("https://x.test".to_string())
        .with_meta("page".to_string(), "1".to_string())
        .with_meta("page".to_string(), "2".to_string())
        .with_meta("kind".to_string(), "seed".to_string());
    assert_eq!(r.meta_get("page"), Some("2".to_string()));
    assert_eq!(r.meta_get("kind"), Some("seed".to_string()));
    assert_eq!(r.meta_get("missing"), None);
}
