use in_scraper::errors::ScrapeError;
use in_scraper::extract::{
    extract_employment_type, extract_experiences, parse_company, parse_job, parse_person,
};
use in_scraper::patterns::validate_pattern_tables;
use in_scraper::resolver::{extract_attribute, extract_text, resolve, validate_patterns};

fn person_page() -> String {
    let mut h = String::new();
    h.push_str("<html><body>");
    h.push_str("<h1 class=\"text-heading-xlarge\">Ann Example</h1>");
    h.push_str("<section id=\"experience\"><ul class=\"pvs-list\">");
    h.push_str("<li class=\"pvs-list__paged-list-item\">");
    h.push_str("<span class=\"t-bold\"><span>Engineer</span></span>");
    h.push_str("<span class=\"t-normal\"><span>hidden</span></span>");
    h.push_str("<span class=\"t-normal\"><span>Acme</span></span>");
    h.push_str("<span class=\"t-black--light\"><span>Jan 2020 - Mar 2021</span></span>");
    h.push_str("<span class=\"t-black--light\"><span>Berlin</span></span>");
    h.push_str("<a href=\"/company/acme\">Acme</a>");
    h.push_str("</li></ul></section>");
    h.push_str("</body></html>");
    h
}

#[test]
fn resolution_falls_back_to_the_second_candidate() {
    // only candidate B matches, so resolution lands on index 1
    let html = "<html><body><h2 class=\"b\">Text from B</h2></body></html>";
    let cands = vec![".only-in-variant-a".to_string(), "h2.b".to_string()];
    assert_eq!(resolve(html, &cands), Ok(1));
    assert_eq!(extract_text(html, &cands), Some("Text from B".to_string()));
}

#[test]
fn exhausted_candidates_are_a_local_error() {
    let html = "<html><body><p>nothing here</p></body></html>";
    let cands = vec![".missing-a".to_string(), ".missing-b".to_string()];
    assert_eq!(resolve(html, &cands), Err(ScrapeError::SelectorExhausted));
    assert_eq!(extract_text(html, &cands), None);
}

#[test]
fn a_missing_optional_field_stays_absent() {
    // the fixture has a name but no headline: the entity parses with the
    // field absent instead of failing
    let html = person_page();
    let p = parse_person("https://x.test/in/ann", html.as_str());
    assert_eq!(p.name, Some("Ann Example".to_string()));
    assert_eq!(p.headline, None);
    assert_eq!(p.about, None);
}

#[test]
fn experiences_parse_with_dates_and_absolute_links() {
    let html = person_page();
    let exps = extract_experiences(html.as_str());
    assert_eq!(exps.len(), 1);
    let e = &exps[0];
    assert_eq!(e.title, Some("Engineer".to_string()));
    assert_eq!(e.company, Some("Acme".to_string()));
    assert_eq!(e.from_date, Some("Jan 2020".to_string()));
    assert_eq!(e.to_date, Some("Mar 2021".to_string()));
    assert_eq!(e.location, Some("Berlin".to_string()));
    assert_eq!(e.company_linkedin_url, Some("https://linkedin.com/company/acme".to_string()));
}

#[test]
fn attribute_extraction_reads_the_first_matching_node() {
    let html = "<html><body><a class=\"w\" href=\"https://acme.test\">site</a></body></html>";
    let cands = vec!["a.w".to_string()];
    assert_eq!(extract_attribute(html, &cands, "href"), Some("https://acme.test".to_string()));
    assert_eq!(extract_attribute(html, &cands, "title"), None);
}

#[test]
fn job_pages_surface_type_level_and_count() {
    let mut h = String::new();
    h.push_str("<html><body>");
    h.push_str("<h1 class=\"jobs-unified-top-card__job-title\">Rust Dev</h1>");
    h.push_str("<span class=\"num-applicants__caption\">Over 37 applicants</span>");
    h.push_str("<ul class=\"jobs-unified-top-card__job-insight\">");
    h.push_str("<li>Full-time</li><li>Mid-Senior level</li></ul>");
    h.push_str("</body></html>");
    let j = parse_job("https://x.test/jobs/view/1", h.as_str());
    assert_eq!(j.title, Some("Rust Dev".to_string()));
    assert_eq!(j.applicant_count, Some(37));
    assert_eq!(j.employment_type, Some("Full-time".to_string()));
    assert_eq!(j.seniority_level, Some("Mid-Senior level".to_string()));
    assert_eq!(extract_employment_type(h.as_str()), Some("Full-time".to_string()));
}

#[test]
fn company_pages_parse_year_and_specialties() {
    let mut h = String::new();
    h.push_str("<html><body>");
    h.push_str("<h1 class=\"org-top-card-summary__title\">Acme</h1>");
    h.push_str("<dd data-test-data-tracking-control-name=\"founded\">Founded in 1999</dd>");
    h.push_str("<span class=\"org-about-company-module__specialties-item\">Robots</span>");
    h.push_str("<span class=\"org-about-company-module__specialties-item\">Lasers</span>");
    h.push_str("</body></html>");
    let c = parse_company("https://x.test/company/acme", h.as_str());
    assert_eq!(c.name, Some("Acme".to_string()));
    assert_eq!(c.founded, Some(1999));
    assert_eq!(c.specialties, vec!["Robots".to_string(), "Lasers".to_string()]);
    assert_eq!(c.employees.len(), 0);
}

#[test]
fn pattern_tables_validate_at_startup() {
    assert_eq!(validate_pattern_tables(), Ok(()));
    let bad = vec!["h1".to_string(), "li:nth-child(".to_string()];
    assert_eq!(validate_patterns(&bad), Err(ScrapeError::SelectorInvalid));
}

#[test]
fn search_pages_yield_cards_or_a_clean_error() {
    let mut h = String::new();
    h.push_str("<html><body>");
    h.push_str("<div class=\"job-search-card\">");
    h.push_str("<a class=\"app-aware-link\" href=\"/jobs/view/7\">Rust Dev</a>");
    h.push_str("<div class=\"job-search-card__subtitle\">Acme</div>");
    h.push_str("<time class=\"job-search-card__listdate\">3 days ago</time>");
    h.push_str("<div class=\"job-search-card__location\">Berlin</div>");
    h.push_str("</div></body></html>");
    let jobs = in_scraper::extract::extract_job_listings(h.as_str()).unwrap();
    assert_eq!(jobs.len(), 1);
    assert_eq!(jobs[0].title, Some("Rust Dev".to_string()));
    assert_eq!(jobs[0].linkedin_url.as_str(), "https://linkedin.com/jobs/view/7");
    assert_eq!(jobs[0].company, Some("Acme".to_string()));
    let empty = "<html><body><p>none</p></body></html>";
    assert!(matches!(
        in_scraper::extract::extract_job_listings(empty),
        Err(ScrapeError::SelectorExhausted)
    ));
}

#[test]
fn employee_cards_need_a_name_and_title() {
    let mut h = String::new();
    h.push_str("<html><body>");
    h.push_str("<div class=\"org-people-profile-card\">");
    h.push_str("<div class=\"org-people-profile-card__profile-title\">Bea Sample</div>");
    h.push_str("<div class=\"org-people-profile-card__profile-info\">Engineer</div>");
    h.push_str("<a href=\"/in/bea\">profile</a>");
    h.push_str("</div>");
    h.push_str("<div class=\"org-people-profile-card\"><p>bare card</p></div>");
    h.push_str("</body></html>");
    let emps = in_scraper::extract::extract_employees(h.as_str());
    assert_eq!(emps.len(), 1);
    assert_eq!(emps[0].name.as_str(), "Bea Sample");
    assert_eq!(emps[0].title, Some("Engineer".to_string()));
    assert_eq!(emps[0].linkedin_url, Some("https://linkedin.com/in/bea".to_string()));
}

#[test]
fn person_search_cards_need_their_link() {
    let mut h = String::new();
    h.push_str("<html><body><div class=\"reusable-search__result-container\">");
    h.push_str("<a class=\"app-aware-link\" href=\"/in/cara\">Cara Sample</a>");
    h.push_str("<div class=\"entity-result__primary-subtitle\">Engineer</div>");
    h.push_str("<div class=\"entity-result__secondary-subtitle\">Berlin</div>");
    h.push_str("</div></body></html>");
    let people = in_scraper::extract::extract_people_listings(h.as_str()).unwrap();
    assert_eq!(people.len(), 1);
    assert_eq!(people[0].name, Some("Cara Sample".to_string()));
    assert_eq!(people[0].linkedin_url.as_str(), "https://linkedin.com/in/cara");
    assert_eq!(people[0].headline, Some("Engineer".to_string()));
    assert_eq!(people[0].location, Some("Berlin".to_string()));
}
