use in_scraper::config::Config;
use in_scraper::spiders::company_profile::CompanyProfileSpider;
use in_scraper::spiders::jobs::JobsSpider;
use in_scraper::spiders::people_profile::{
    extract_location_followers_connections, PeopleProfileSpider,
};
use in_scraper::target::Request;

#[test]
fn jobs_spider_seeds_page_zero() {
    let s = JobsSpider::new(Config::default(), "rust".to_string(), "Berlin".to_string()).unwrap();
    assert_eq!(s.get_keywords(), "rust");
    assert_eq!(s.get_location(), "Berlin");
    let seeds = s.start_requests();
    assert_eq!(seeds.len(), 1);
    assert!(seeds[0].url.ends_with("&start=0"));
    assert!(seeds[0].url.contains("keywords=rust"));
    assert_eq!(seeds[0].meta_get("first_job_on_page"), Some("0".to_string()));
}

#[test]
fn jobs_spider_pages_forward_while_cards_remain() {
    let s = JobsSpider::new(Config::default(), "rust".to_string(), "Berlin".to_string()).unwrap();
    let mut page = String::new();
    page.push_str("<html><body><ul><li>");
    page.push_str("<h3>Rust Dev</h3>");
    page.push_str("<a class=\"base-card__full-link\" href=\"https://x.test/jobs/view/1\">go</a>");
    page.push_str("<time>2 days ago</time>");
    page.push_str("<h4><a href=\"https://x.test/company/acme\">Acme</a></h4>");
    page.push_str("<div class=\"job-search-card__location\">Berlin</div>");
    page.push_str("</li></ul></body></html>");
    let req = Request::new("u".to_string()).with_meta(
        "first_job_on_page".to_string(),
        "25".to_string(),
    );
    let (items, nexts) = s.parse(page.as_str(), &req).unwrap();
    assert_eq!(items.len(), 1);
    assert_eq!(items[0].job_title, "Rust Dev");
    assert_eq!(items[0].job_detail_url, "https://x.test/jobs/view/1");
    assert_eq!(items[0].job_listed, "2 days ago");
    assert_eq!(items[0].company_name, "Acme");
    assert_eq!(items[0].company_link, "https://x.test/company/acme");
    assert_eq!(items[0].company_location, "Berlin");
    assert_eq!(nexts.len(), 1);
    assert!(nexts[0].url.ends_with("&start=50"));
    assert_eq!(nexts[0].meta_get("first_job_on_page"), Some("50".to_string()));
}

#[test]
fn jobs_spider_stops_on_an_empty_page() {
    let s = JobsSpider::new(Config::default(), "rust".to_string(), "Berlin".to_string()).unwrap();
    let req = Request::new("u".to_string());
    let (items, nexts) = s.parse("<html><body><p>empty</p></body></html>", &req).unwrap();
    assert_eq!(items.len(), 0);
    assert_eq!(nexts.len(), 0);
}

#[test]
fn listing_cards_mark_missing_fields() {
    let s = JobsSpider::new(Config::default(), "q".to_string(), "l".to_string()).unwrap();
    let page = "<html><body><ul><li><h3>Only title</h3></li></ul></body></html>";
    let (items, _nexts) = s.parse(page, &Request::new("u".to_string())).unwrap();
    assert_eq!(items.len(), 1);
    assert_eq!(items[0].job_title, "Only title");
    assert_eq!(items[0].job_detail_url, "not-found");
    assert_eq!(items[0].company_name, "not-found");
}

#[test]
fn company_profile_spider_reads_fixed_detail_cards() {
    let s = CompanyProfileSpider::new(
        Config::default(),
        vec!["https://x.test/company/acme".to_string()],
    ).unwrap();
    assert_eq!(s.name(), "linkedin_company_profile");
    let seeds = s.start_requests();
    assert_eq!(seeds.len(), 1);
    assert_eq!(seeds[0].meta_get("company_index"), Some("0".to_string()));
    let mut page = String::new();
    page.push_str("<html><body>");
    page.push_str("<div class=\"top-card-layout__entity-info\"><h1>Acme</h1>");
    page.push_str("<h4><span>Robots for all</span></h4></div>");
    page.push_str("<div class=\"core-section-container__content\">");
    for label_value in [
        ("Website", "acme.test"),
        ("Industry", "Robotics"),
        ("Company size", "51-200"),
        ("Headquarters", "Berlin"),
        ("Type", "Private"),
        ("Founded", "1999"),
    ] {
        page.push_str("<div class=\"mb-2\">");
        page.push_str(&format!("<span class=\"text-md\">{}</span>", label_value.0));
        page.push_str(&format!("<span class=\"text-md\">{}</span>", label_value.1));
        page.push_str("</div>");
    }
    page.push_str("</div></body></html>");
    let (items, nexts) = s.parse(page.as_str(), &seeds[0]).unwrap();
    assert_eq!(nexts.len(), 0);
    assert_eq!(items.len(), 1);
    let c = &items[0];
    assert_eq!(c.name, "Acme");
    assert_eq!(c.summary, "Robots for all");
    assert_eq!(c.industry, Some("Robotics".to_string()));
    assert_eq!(c.size, Some("51-200".to_string()));
    assert_eq!(c.founded, Some("1999".to_string()));
}

#[test]
fn people_profile_spider_reads_the_top_card() {
    let s = PeopleProfileSpider::new(Config::default(), vec!["ann".to_string()]).unwrap();
    assert_eq!(s.name(), "linkedin_people_profile");
    let seeds = s.start_requests();
    assert_eq!(seeds.len(), 1);
    assert_eq!(seeds[0].url.as_str(), "https://www.linkedin.com/in/ann/");
    assert_eq!(seeds[0].meta_get("profile"), Some("ann".to_string()));
    let mut page = String::new();
    page.push_str("<html><body><section class=\"top-card-layout\">");
    page.push_str("<h1 class=\"top-card-layout__title\">Ann Example</h1>");
    page.push_str("<span class=\"top-card-link__description\">Engineer</span>");
    page.push_str("<span class=\"top-card__subline-item\">Berlin</span>");
    page.push_str("<span class=\"top-card__subline-item\">500 followers</span>");
    page.push_str("<span class=\"top-card__subline-item\">200 connections</span>");
    page.push_str("</section></body></html>");
    let (items, nexts) = s.parse(page.as_str(), &seeds[0]).unwrap();
    assert_eq!(nexts.len(), 0);
    assert_eq!(items.len(), 1);
    let p = &items[0];
    assert_eq!(p.profile, "ann");
    assert_eq!(p.url, "https://www.linkedin.com/in/ann/");
    assert_eq!(p.name, "Ann Example");
    assert_eq!(p.description, "Engineer");
    assert_eq!(p.location, Some("Berlin".to_string()));
    assert_eq!(p.followers, Some("500".to_string()));
    assert_eq!(p.connections, Some("200".to_string()));
}

#[test]
fn subline_items_fill_the_open_slots() {
    let mut frag = String::new();
    frag.push_str("<section class=\"top-card-layout\">");
    frag.push_str("<span class=\"top-card__subline-item\">900 followers</span>");
    frag.push_str("<span class=\"top-card__subline-item\">Hamburg</span>");
    frag.push_str("</section>");
    let (location, followers, connections) =
        extract_location_followers_connections(frag.as_str());
    assert_eq!(location, Some("Hamburg".to_string()));
    assert_eq!(followers, Some("900".to_string()));
    assert_eq!(connections, None);
}
