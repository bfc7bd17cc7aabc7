use in_scraper::config::Config;
use in_scraper::httpclient::HttpClient;
use in_scraper::middleware::{LinkedinDownloaderMiddleware, LinkedinSpiderMiddleware};
use in_scraper::models::{Company, Job, Person};
use in_scraper::proxy::ProxyRotator;
use in_scraper::urlenc::{jobs_search_url, people_search_url, profile_url, employees_url};
use in_scraper::validator::ProxyValidator;

#[test]
fn the_stock_configuration_matches_the_documented_defaults() {
    let c = Config::default();
    assert_eq!(c.concurrent_requests, 1);
    assert_eq!(c.max_retries, 3);
    assert_eq!(c.retry_delay_ms, 1000);
    assert_eq!(c.request_timeout, 30);
    assert_eq!(c.output_dir.as_str(), "data");
    assert!(!c.has_proxies());
    let p = c.retry_policy();
    assert!(p.check());
    assert_eq!(p.min_content_len, 1000);
}

#[test]
fn rotation_walks_the_pool_in_order_and_wraps() {
    let mut r = ProxyRotator::new(vec![
        "http://p1".to_string(),
        "   ".to_string(),
        "http://p2".to_string(),
    ]);
    assert!(r.has_proxies());
    assert_eq!(r.proxy_count(), 2);
    assert_eq!(r.get_next_proxy(), Some("http://p1".to_string()));
    assert_eq!(r.get_next_proxy(), Some("http://p2".to_string()));
    assert_eq!(r.get_next_proxy(), Some("http://p1".to_string()));
    assert_eq!(r.get_current_proxy(), Some("http://p2".to_string()));
    r.reset_rotation();
    assert_eq!(r.get_current_proxy(), Some("http://p1".to_string()));
    assert_eq!(r.get_all_proxies(), vec!["http://p1".to_string(), "http://p2".to_string()]);
}

#[test]
fn an_empty_pool_hands_out_nothing() {
    let mut r = ProxyRotator::new(vec!["".to_string()]);
    assert!(!r.has_proxies());
    assert_eq!(r.get_next_proxy(), None);
    assert_eq!(r.get_current_proxy(), None);
}

#[test]
fn the_client_builds_a_pool_only_when_proxies_are_named() {
    let mut c = Config::default();
    let client = HttpClient::new(c.duplicate()).unwrap();
    assert!(!client.has_proxies());
    assert_eq!(client.proxy_count(), 0);
    c.proxies = vec!["http://p1".to_string()];
    let mut client = HttpClient::new(c).unwrap();
    assert!(client.has_proxies());
    assert_eq!(client.proxy_count(), 1);
    assert_eq!(client.get_next_proxy(), Some("http://p1".to_string()));
}

#[test]
fn search_urls_percent_encode_their_arguments() {
    let u = people_search_url("ann example", Some("berlin area"));
    assert_eq!(
        u.as_str(),
        "https://www.linkedin.com/search/results/people/?keywords=ann%20example&geoUrn=berlin%20area"
    );
    let u = jobs_search_url("rust dev", None);
    assert_eq!(u.as_str(), "https://www.linkedin.com/jobs/search/?keywords=rust%20dev");
    assert_eq!(profile_url("ann").as_str(), "https://www.linkedin.com/in/ann/");
    assert_eq!(
        employees_url("https://x.test/company/acme").as_str(),
        "https://x.test/company/acme/people"
    );
}

#[test]
fn middleware_and_validator_carry_their_settings() {
    let m = LinkedinDownloaderMiddleware::new();
    assert_eq!(m.request_delay_ms(), 1000);
    let m = LinkedinDownloaderMiddleware::with_delay(250);
    assert_eq!(m.request_delay_ms(), 250);
    let sm = LinkedinSpiderMiddleware::new();
    let passed = sm.process_spider_output(vec![1, 2, 3]);
    assert_eq!(passed, vec![1, 2, 3]);
    let v = ProxyValidator::new()
        .with_test_url("https://probe.test".to_string())
        .with_timeout(5);
    assert_eq!(v.test_url.as_str(), "https://probe.test");
    assert_eq!(v.timeout_secs, 5);
    assert!(v.classify_probe(Some(204)));
    assert!(!v.classify_probe(Some(503)));
    assert!(!v.classify_probe(None));
}

#[test]
fn fresh_entities_carry_only_their_source_url() {
    let p = Person::new("https://x.test/in/ann".to_string());
    assert_eq!(p.linkedin_url.as_str(), "https://x.test/in/ann");
    assert!(p.name.is_none() && p.experiences.is_empty() && !p.open_to_work);
    let c = Company::new("https://x.test/company/acme".to_string());
    assert!(c.name.is_none() && c.employees.is_empty() && c.founded.is_none());
    let j = Job::new("https://x.test/jobs/view/1".to_string());
    assert!(j.title.is_none() && j.applicant_count.is_none());
}
