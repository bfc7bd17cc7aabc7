use in_scraper::duration::{is_blank, parse_duration};
use in_scraper::numparse::{parse_applicant_count, parse_founded_year};
use in_scraper::strutil::{
    absolutize_url, canonical_url, contains_str, join_space, parse_usize, remove_all, str_eq,
    usize_to_string, vec_contains_str,
};

#[test]
fn duration_with_closed_range_splits() {
    let (from, to, dur) = parse_duration("Jan 2020 - Mar 2021 \u{b7} 1 yr 3 mos");
    assert_eq!(from, Some("Jan 2020".to_string()));
    assert_eq!(to, Some("Mar 2021".to_string()));
    assert_eq!(dur, Some("1 yr 3 mos".to_string()));
}

#[test]
fn duration_with_en_dash_and_open_end() {
    let (from, to, dur) = parse_duration("Feb 2019 \u{2013} Present");
    assert_eq!(from, Some("Feb 2019".to_string()));
    assert_eq!(to, Some("Present".to_string()));
    assert_eq!(dur, None);
}

#[test]
fn text_without_a_date_range_stays_whole() {
    let (from, to, dur) = parse_duration("Full-time");
    assert_eq!(from, None);
    assert_eq!(to, None);
    assert_eq!(dur, Some("Full-time".to_string()));
}

#[test]
fn applicant_count_reads_the_first_digit_run() {
    assert_eq!(parse_applicant_count("Over 200 applicants"), Some(200));
    assert_eq!(parse_applicant_count("no digits here"), None);
    assert_eq!(parse_applicant_count("99999999999999999999 applicants"), None);
}

#[test]
fn founded_year_wants_exactly_four_bounded_digits() {
    assert_eq!(parse_founded_year("Founded in 1999"), Some(1999));
    assert_eq!(parse_founded_year("12345"), None);
    assert_eq!(parse_founded_year("since 2004, privately held"), Some(2004));
    assert_eq!(parse_founded_year("none"), None);
}

#[test]
fn urls_normalize_as_the_engine_promises() {
    assert_eq!(canonical_url("https://a.test/x?q=1&r=2").as_str(), "https://a.test/x");
    assert_eq!(absolutize_url("/in/ann").as_str(), "https://linkedin.com/in/ann");
    assert_eq!(absolutize_url("https://b.test/p").as_str(), "https://b.test/p");
}

#[test]
fn decimal_writing_and_reading_agree() {
    assert_eq!(usize_to_string(0).as_str(), "0");
    assert_eq!(usize_to_string(1234).as_str(), "1234");
    assert_eq!(parse_usize("1234"), Some(1234));
    assert_eq!(parse_usize(""), None);
    assert_eq!(parse_usize("12a"), None);
    assert_eq!(parse_usize(&usize_to_string(usize::MAX)), Some(usize::MAX));
}

#[test]
fn substring_search_is_exact() {
    assert!(contains_str("Mid-Senior level role", "Mid-Senior level"));
    assert!(!contains_str("Senior", "Mid-Senior"));
    assert!(contains_str("abc", ""));
}

#[test]
fn marker_words_are_removed_everywhere() {
    assert_eq!(remove_all("1,234 followers", " followers").as_str(), "1,234");
    assert_eq!(remove_all("aXbXc", "X").as_str(), "abc");
    assert_eq!(remove_all("plain", "X").as_str(), "plain");
}

#[test]
fn joining_and_blank_tests_behave() {
    let parts = vec!["BSc".to_string(), "Computer".to_string(), "Science".to_string()];
    assert_eq!(join_space(&parts).as_str(), "BSc Computer Science");
    assert_eq!(join_space(&vec![]).as_str(), "");
    assert!(is_blank("   \t"));
    assert!(!is_blank(" x "));
    assert!(str_eq("abc", "abc"));
    assert!(!str_eq("abc", "abd"));
    assert!(vec_contains_str(&vec!["a".to_string(), "b".to_string()], "b"));
    assert!(!vec_contains_str(&vec!["a".to_string()], "b"));
}

#[test]
fn a_five_digit_run_before_the_dash_is_no_date() {
    let (from, to, dur) = parse_duration("Jan 20205 - Mar 2021");
    assert_eq!(from, None);
    assert_eq!(to, None);
    assert_eq!(dur, Some("Jan 20205 - Mar 2021".to_string()));
}

#[test]
fn the_left_date_takes_the_whole_word_run() {
    let (from, to, _dur) = parse_duration("joined Jan 2020 - Mar 2021");
    assert_eq!(from, Some("Jan 2020".to_string()));
    assert_eq!(to, Some("Mar 2021".to_string()));
}

#[test]
fn a_dash_without_a_right_date_is_skipped() {
    let (from, to, _dur) = parse_duration("full-time Jan 2020 - Mar 2021");
    assert_eq!(from, Some("Jan 2020".to_string()));
    assert_eq!(to, Some("Mar 2021".to_string()));
}
