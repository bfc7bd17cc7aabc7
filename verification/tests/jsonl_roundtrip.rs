use in_scraper::items::JobListing;
use in_scraper::jsonl::{emit_job_listing, escape, parse_job_listing};

fn sample() -> JobListing {
    JobListing {
        job_title: "Senior \"Rust\" Engineer".to_string(),
        job_detail_url: "https://x.test/jobs/view/1?ref=a\\b".to_string(),
        job_listed: "2 days ago".to_string(),
        company_name: "Acme\nCorp".to_string(),
        company_link: "https://x.test/company/acme".to_string(),
        company_location: "Berlin, Germany".to_string(),
    }
}

#[test]
fn a_record_written_and_read_back_is_unchanged() {
    let x = sample();
    let line = emit_job_listing(&x);
    let y = parse_job_listing(line.as_str()).expect("the emitted line must parse");
    assert_eq!(y.job_title, x.job_title);
    assert_eq!(y.job_detail_url, x.job_detail_url);
    assert_eq!(y.job_listed, x.job_listed);
    assert_eq!(y.company_name, x.company_name);
    assert_eq!(y.company_link, x.company_link);
    assert_eq!(y.company_location, x.company_location);
}

#[test]
fn the_emitted_line_is_real_json() {
    let x = sample();
    let line = emit_job_listing(&x);
    let v: serde_json::Value = serde_json::from_str(line.as_str()).expect("valid JSON");
    assert_eq!(v.get("job_title").and_then(|t| t.as_str()), Some(x.job_title.as_str()));
    assert_eq!(v.get("company_name").and_then(|t| t.as_str()), Some(x.company_name.as_str()));
}

#[test]
fn escaping_marks_quotes_backslashes_and_controls() {
    assert_eq!(escape("a\"b").as_str(), "a\\\"b");
    assert_eq!(escape("a\\b").as_str(), "a\\\\b");
    assert_eq!(escape("a\nb").as_str(), "a\\u000ab");
    assert_eq!(escape("plain").as_str(), "plain");
}

#[test]
fn a_malformed_line_parses_to_nothing() {
    assert_eq!(parse_job_listing("{\"job_title\":\"x\"}").map(|j| j.job_title), None);
    assert_eq!(parse_job_listing("").map(|j| j.job_title), None);
}
