use vstd::prelude::*;
use vstd::string::*;
use crate::dom::sel_ok;
use crate::resolver::validate_patterns;

verus! {

// The static field-to-candidate pattern tables of the extraction engine,
// one ordered list per field, tried in priority order by the resolver. The
// spec function of each table names the exact pattern texts that the
// extraction contracts speak of; the exec function builds the same list for
// the resolver, and `validate_pattern_tables` checks every table once at
// startup.
fn pat1(a: &str) -> (r: Vec<String>)
    ensures
        r.deep_view() =~= seq![a@],
{
    let mut v: Vec<String> = Vec::new();
    v.push(a.to_owned());
    proof {
        assert(v.deep_view() =~= seq![a@]);
    }
    v
}

fn pat2(a: &str, b: &str) -> (r: Vec<String>)
    ensures
        r.deep_view() =~= seq![a@, b@],
{
    let mut v: Vec<String> = Vec::new();
    v.push(a.to_owned());
    v.push(b.to_owned());
    proof {
        assert(v.deep_view() =~= seq![a@, b@]);
    }
    v
}

fn pat3(a: &str, b: &str, c: &str) -> (r: Vec<String>)
    ensures
        r.deep_view() =~= seq![a@, b@, c@],
{
    let mut v: Vec<String> = Vec::new();
    v.push(a.to_owned());
    v.push(b.to_owned());
    v.push(c.to_owned());
    proof {
        assert(v.deep_view() =~= seq![a@, b@, c@]);
    }
    v
}

pub open spec fn spec_person_name_pats() -> Seq<Seq<char>> {
    seq!["h1.top-card-layout__title"@, "h1.text-heading-xlarge"@, "h1.inline.t-24"@]
}

pub fn person_name_patterns() -> (r: Vec<String>)
    ensures
        r.deep_view() == spec_person_name_pats(),
{
    pat3("h1.top-card-layout__title", "h1.text-heading-xlarge", "h1.inline.t-24")
}

pub open spec fn spec_person_headline_pats() -> Seq<Seq<char>> {
    seq![".top-card-layout__headline"@, ".text-body-medium.break-words"@]
}

pub fn person_headline_patterns() -> (r: Vec<String>)
    ensures
        r.deep_view() == spec_person_headline_pats(),
{
    pat2(".top-card-layout__headline", ".text-body-medium.break-words")
}

pub open spec fn spec_person_location_pats() -> Seq<Seq<char>> {
    seq!["span.top-card__subline-item--bullet"@, ".pv-text-details__left-panel .t-black--light"@]
}

pub fn person_location_patterns() -> (r: Vec<String>)
    ensures
        r.deep_view() == spec_person_location_pats(),
{
    pat2("span.top-card__subline-item--bullet", ".pv-text-details__left-panel .t-black--light")
}

pub open spec fn spec_person_about_pats() -> Seq<Seq<char>> {
    seq!["section[id='about'] div.pv-shared-text"@, "#about ~ div .pv-shared-text"@]
}

pub fn person_about_patterns() -> (r: Vec<String>)
    ensures
        r.deep_view() == spec_person_about_pats(),
{
    pat2("section[id='about'] div.pv-shared-text", "#about ~ div .pv-shared-text")
}

pub open spec fn spec_person_open_to_work_pats() -> Seq<Seq<char>> {
    seq![".profile-photo-edit__preview"@, "img[alt*='Open to work']"@]
}

pub fn person_open_to_work_patterns() -> (r: Vec<String>)
    ensures
        r.deep_view() == spec_person_open_to_work_pats(),
{
    pat2(".profile-photo-edit__preview", "img[alt*='Open to work']")
}

pub open spec fn spec_experience_section_pats() -> Seq<Seq<char>> {
    seq!["section[id='experience'] ul.pvs-list"@, "#experience + section ul.pvs-list"@]
}

pub fn experience_section_patterns() -> (r: Vec<String>)
    ensures
        r.deep_view() == spec_experience_section_pats(),
{
    pat2("section[id='experience'] ul.pvs-list", "#experience + section ul.pvs-list")
}

pub open spec fn spec_experience_items_pats() -> Seq<Seq<char>> {
    seq!["li.pvs-list__paged-list-item"@, "li.artdeco-list__item"@]
}

pub fn experience_items_patterns() -> (r: Vec<String>)
    ensures
        r.deep_view() == spec_experience_items_pats(),
{
    pat2("li.pvs-list__paged-list-item", "li.artdeco-list__item")
}

pub open spec fn spec_experience_titles_pats() -> Seq<Seq<char>> {
    seq!["li span.t-bold span"@]
}

pub fn experience_titles_patterns() -> (r: Vec<String>)
    ensures
        r.deep_view() == spec_experience_titles_pats(),
{
    pat1("li span.t-bold span")
}

pub open spec fn spec_experience_companies_pats() -> Seq<Seq<char>> {
    seq!["li span.t-normal span"@]
}

pub fn experience_companies_patterns() -> (r: Vec<String>)
    ensures
        r.deep_view() == spec_experience_companies_pats(),
{
    pat1("li span.t-normal span")
}

pub open spec fn spec_experience_info_pats() -> Seq<Seq<char>> {
    seq!["li span.t-black--light span"@]
}

pub fn experience_info_patterns() -> (r: Vec<String>)
    ensures
        r.deep_view() == spec_experience_info_pats(),
{
    pat1("li span.t-black--light span")
}

pub open spec fn spec_experience_company_links_pats() -> Seq<Seq<char>> {
    seq!["a[href*='/company/']"@]
}

pub fn experience_company_links_patterns() -> (r: Vec<String>)
    ensures
        r.deep_view() == spec_experience_company_links_pats(),
{
    pat1("a[href*='/company/']")
}

pub open spec fn spec_education_section_pats() -> Seq<Seq<char>> {
    seq!["section[id='education'] ul.pvs-list"@]
}

pub fn education_section_patterns() -> (r: Vec<String>)
    ensures
        r.deep_view() == spec_education_section_pats(),
{
    pat1("section[id='education'] ul.pvs-list")
}

pub open spec fn spec_education_items_pats() -> Seq<Seq<char>> {
    seq!["li.pvs-list__paged-list-item"@]
}

pub fn education_items_patterns() -> (r: Vec<String>)
    ensures
        r.deep_view() == spec_education_items_pats(),
{
    pat1("li.pvs-list__paged-list-item")
}

pub open spec fn spec_education_schools_pats() -> Seq<Seq<char>> {
    seq!["li .t-bold span"@]
}

pub fn education_schools_patterns() -> (r: Vec<String>)
    ensures
        r.deep_view() == spec_education_schools_pats(),
{
    pat1("li .t-bold span")
}

pub open spec fn spec_education_degrees_pats() -> Seq<Seq<char>> {
    seq!["li .t-normal span"@]
}

pub fn education_degrees_patterns() -> (r: Vec<String>)
    ensures
        r.deep_view() == spec_education_degrees_pats(),
{
    pat1("li .t-normal span")
}

pub open spec fn spec_education_durations_pats() -> Seq<Seq<char>> {
    seq!["li .t-black--light span"@]
}

pub fn education_durations_patterns() -> (r: Vec<String>)
    ensures
        r.deep_view() == spec_education_durations_pats(),
{
    pat1("li .t-black--light span")
}

pub open spec fn spec_education_school_links_pats() -> Seq<Seq<char>> {
    seq!["a[href*='/school/']"@]
}

pub fn education_school_links_patterns() -> (r: Vec<String>)
    ensures
        r.deep_view() == spec_education_school_links_pats(),
{
    pat1("a[href*='/school/']")
}

pub open spec fn spec_person_search_cards_pats() -> Seq<Seq<char>> {
    seq![".reusable-search__result-container"@, ".search-results-container .entity-result"@]
}

pub fn person_search_cards_patterns() -> (r: Vec<String>)
    ensures
        r.deep_view() == spec_person_search_cards_pats(),
{
    pat2(".reusable-search__result-container", ".search-results-container .entity-result")
}

pub open spec fn spec_person_search_titles_pats() -> Seq<Seq<char>> {
    seq!["a.app-aware-link[href*='/in/']"@]
}

pub fn person_search_titles_patterns() -> (r: Vec<String>)
    ensures
        r.deep_view() == spec_person_search_titles_pats(),
{
    pat1("a.app-aware-link[href*='/in/']")
}

pub open spec fn spec_person_search_headlines_pats() -> Seq<Seq<char>> {
    seq![".entity-result__primary-subtitle"@]
}

pub fn person_search_headlines_patterns() -> (r: Vec<String>)
    ensures
        r.deep_view() == spec_person_search_headlines_pats(),
{
    pat1(".entity-result__primary-subtitle")
}

pub open spec fn spec_person_search_locations_pats() -> Seq<Seq<char>> {
    seq![".entity-result__secondary-subtitle"@]
}

pub fn person_search_locations_patterns() -> (r: Vec<String>)
    ensures
        r.deep_view() == spec_person_search_locations_pats(),
{
    pat1(".entity-result__secondary-subtitle")
}

pub open spec fn spec_company_name_pats() -> Seq<Seq<char>> {
    seq!["h1.org-top-card-summary__title"@, "h1.top-card-layout__title"@]
}

pub fn company_name_patterns() -> (r: Vec<String>)
    ensures
        r.deep_view() == spec_company_name_pats(),
{
    pat2("h1.org-top-card-summary__title", "h1.top-card-layout__title")
}

pub open spec fn spec_company_about_pats() -> Seq<Seq<char>> {
    seq!["div.org-details__description"@, ".org-about-company-module__company-description"@]
}

pub fn company_about_patterns() -> (r: Vec<String>)
    ensures
        r.deep_view() == spec_company_about_pats(),
{
    pat2("div.org-details__description", ".org-about-company-module__company-description")
}

pub open spec fn spec_company_website_pats() -> Seq<Seq<char>> {
    seq!["a[data-control-name='page_details_module_website_external_link']"@, ".org-about-us__card-spacing a[href^='http']"@]
}

pub fn company_website_patterns() -> (r: Vec<String>)
    ensures
        r.deep_view() == spec_company_website_pats(),
{
    pat2("a[data-control-name='page_details_module_website_external_link']", ".org-about-us__card-spacing a[href^='http']")
}

pub open spec fn spec_company_headquarters_pats() -> Seq<Seq<char>> {
    seq!["dd[data-test-data-tracking-control-name='headquarters']"@, ".org-location-card__content"@]
}

pub fn company_headquarters_patterns() -> (r: Vec<String>)
    ensures
        r.deep_view() == spec_company_headquarters_pats(),
{
    pat2("dd[data-test-data-tracking-control-name='headquarters']", ".org-location-card__content")
}

pub open spec fn spec_company_founded_pats() -> Seq<Seq<char>> {
    seq!["dd[data-test-data-tracking-control-name='founded']"@, ".org-founded-card__content"@]
}

pub fn company_founded_patterns() -> (r: Vec<String>)
    ensures
        r.deep_view() == spec_company_founded_pats(),
{
    pat2("dd[data-test-data-tracking-control-name='founded']", ".org-founded-card__content")
}

pub open spec fn spec_company_size_pats() -> Seq<Seq<char>> {
    seq![".org-page-details__employees-on-linkedin-count"@, ".org-about-company-module__company-size-definition-text"@]
}

pub fn company_size_patterns() -> (r: Vec<String>)
    ensures
        r.deep_view() == spec_company_size_pats(),
{
    pat2(".org-page-details__employees-on-linkedin-count", ".org-about-company-module__company-size-definition-text")
}

pub open spec fn spec_company_industry_pats() -> Seq<Seq<char>> {
    seq!["dd[data-test-data-tracking-control-name='industry']"@, ".org-top-card-summary__industry"@]
}

pub fn company_industry_patterns() -> (r: Vec<String>)
    ensures
        r.deep_view() == spec_company_industry_pats(),
{
    pat2("dd[data-test-data-tracking-control-name='industry']", ".org-top-card-summary__industry")
}

pub open spec fn spec_company_specialties_items_pats() -> Seq<Seq<char>> {
    seq![".org-about-company-module__specialties-item"@]
}

pub fn company_specialties_items_patterns() -> (r: Vec<String>)
    ensures
        r.deep_view() == spec_company_specialties_items_pats(),
{
    pat1(".org-about-company-module__specialties-item")
}

pub open spec fn spec_employee_cards_pats() -> Seq<Seq<char>> {
    seq![".org-people-profile-card"@, ".list-style-none li"@]
}

pub fn employee_cards_patterns() -> (r: Vec<String>)
    ensures
        r.deep_view() == spec_employee_cards_pats(),
{
    pat2(".org-people-profile-card", ".list-style-none li")
}

pub open spec fn spec_employee_names_pats() -> Seq<Seq<char>> {
    seq![".org-people-profile-card__profile-title"@, ".t-bold"@]
}

pub fn employee_names_patterns() -> (r: Vec<String>)
    ensures
        r.deep_view() == spec_employee_names_pats(),
{
    pat2(".org-people-profile-card__profile-title", ".t-bold")
}

pub open spec fn spec_employee_titles_pats() -> Seq<Seq<char>> {
    seq![".org-people-profile-card__profile-info"@, ".t-black--light"@]
}

pub fn employee_titles_patterns() -> (r: Vec<String>)
    ensures
        r.deep_view() == spec_employee_titles_pats(),
{
    pat2(".org-people-profile-card__profile-info", ".t-black--light")
}

pub open spec fn spec_employee_links_pats() -> Seq<Seq<char>> {
    seq!["a[href*='/in/']"@]
}

pub fn employee_links_patterns() -> (r: Vec<String>)
    ensures
        r.deep_view() == spec_employee_links_pats(),
{
    pat1("a[href*='/in/']")
}

pub open spec fn spec_job_title_pats() -> Seq<Seq<char>> {
    seq!["h1.job-details-jobs-unified-top-card__job-title"@, "h1.jobs-unified-top-card__job-title"@]
}

pub fn job_title_patterns() -> (r: Vec<String>)
    ensures
        r.deep_view() == spec_job_title_pats(),
{
    pat2("h1.job-details-jobs-unified-top-card__job-title", "h1.jobs-unified-top-card__job-title")
}

pub open spec fn spec_job_company_pats() -> Seq<Seq<char>> {
    seq![".job-details-jobs-unified-top-card__company-name"@, ".jobs-unified-top-card__company-name"@, ".top-card-layout__second-subline span"@]
}

pub fn job_company_patterns() -> (r: Vec<String>)
    ensures
        r.deep_view() == spec_job_company_pats(),
{
    pat3(".job-details-jobs-unified-top-card__company-name", ".jobs-unified-top-card__company-name", ".top-card-layout__second-subline span")
}

pub open spec fn spec_job_location_pats() -> Seq<Seq<char>> {
    seq![".job-details-jobs-unified-top-card__bullet"@, ".jobs-unified-top-card__bullet"@]
}

pub fn job_location_patterns() -> (r: Vec<String>)
    ensures
        r.deep_view() == spec_job_location_pats(),
{
    pat2(".job-details-jobs-unified-top-card__bullet", ".jobs-unified-top-card__bullet")
}

pub open spec fn spec_job_description_pats() -> Seq<Seq<char>> {
    seq!["div.jobs-description__container"@, "div.jobs-box__html-content"@, "#job-details"@]
}

pub fn job_description_patterns() -> (r: Vec<String>)
    ensures
        r.deep_view() == spec_job_description_pats(),
{
    pat3("div.jobs-description__container", "div.jobs-box__html-content", "#job-details")
}

pub open spec fn spec_job_posted_date_pats() -> Seq<Seq<char>> {
    seq![".job-details-jobs-unified-top-card__posted-date"@, ".jobs-unified-top-card__posted-date"@, ".posted-time-ago__text"@]
}

pub fn job_posted_date_patterns() -> (r: Vec<String>)
    ensures
        r.deep_view() == spec_job_posted_date_pats(),
{
    pat3(".job-details-jobs-unified-top-card__posted-date", ".jobs-unified-top-card__posted-date", ".posted-time-ago__text")
}

pub open spec fn spec_job_applicant_count_pats() -> Seq<Seq<char>> {
    seq![".job-details-jobs-unified-top-card__applicant-count"@, ".jobs-unified-top-card__applicant-count"@, ".num-applicants__caption"@]
}

pub fn job_applicant_count_patterns() -> (r: Vec<String>)
    ensures
        r.deep_view() == spec_job_applicant_count_pats(),
{
    pat3(".job-details-jobs-unified-top-card__applicant-count", ".jobs-unified-top-card__applicant-count", ".num-applicants__caption")
}

pub open spec fn spec_job_company_link_pats() -> Seq<Seq<char>> {
    seq![".job-details-jobs-unified-top-card__company-name a"@, "a.topcard__org-name-link"@]
}

pub fn job_company_link_patterns() -> (r: Vec<String>)
    ensures
        r.deep_view() == spec_job_company_link_pats(),
{
    pat2(".job-details-jobs-unified-top-card__company-name a", "a.topcard__org-name-link")
}

pub open spec fn spec_job_insights_pats() -> Seq<Seq<char>> {
    seq!["ul.job-details-jobs-unified-top-card__job-insight-value-list li"@, "ul.jobs-unified-top-card__job-insight li"@]
}

pub fn job_insights_patterns() -> (r: Vec<String>)
    ensures
        r.deep_view() == spec_job_insights_pats(),
{
    pat2("ul.job-details-jobs-unified-top-card__job-insight-value-list li", "ul.jobs-unified-top-card__job-insight li")
}

pub open spec fn spec_job_search_cards_pats() -> Seq<Seq<char>> {
    seq![".job-search-card"@, ".jobs-search-results__list-item"@]
}

pub fn job_search_cards_patterns() -> (r: Vec<String>)
    ensures
        r.deep_view() == spec_job_search_cards_pats(),
{
    pat2(".job-search-card", ".jobs-search-results__list-item")
}

pub open spec fn spec_job_search_titles_pats() -> Seq<Seq<char>> {
    seq!["h3 a.job-search-card__title"@, "a.app-aware-link[href*='/jobs/view']"@]
}

pub fn job_search_titles_patterns() -> (r: Vec<String>)
    ensures
        r.deep_view() == spec_job_search_titles_pats(),
{
    pat2("h3 a.job-search-card__title", "a.app-aware-link[href*='/jobs/view']")
}

pub open spec fn spec_job_search_companies_pats() -> Seq<Seq<char>> {
    seq![".job-search-card__subtitle"@, ".job-search-card__subtitle-link"@]
}

pub fn job_search_companies_patterns() -> (r: Vec<String>)
    ensures
        r.deep_view() == spec_job_search_companies_pats(),
{
    pat2(".job-search-card__subtitle", ".job-search-card__subtitle-link")
}

pub open spec fn spec_job_search_locations_pats() -> Seq<Seq<char>> {
    seq![".job-search-card__location"@]
}

pub fn job_search_locations_patterns() -> (r: Vec<String>)
    ensures
        r.deep_view() == spec_job_search_locations_pats(),
{
    pat1(".job-search-card__location")
}

pub open spec fn spec_job_search_posted_dates_pats() -> Seq<Seq<char>> {
    seq!["time.job-search-card__listdate"@, "time.job-posted-date"@]
}

pub fn job_search_posted_dates_patterns() -> (r: Vec<String>)
    ensures
        r.deep_view() == spec_job_search_posted_dates_pats(),
{
    pat2("time.job-search-card__listdate", "time.job-posted-date")
}

pub open spec fn spec_job_search_company_links_pats() -> Seq<Seq<char>> {
    seq!["a[href*='/company/']"@]
}

pub fn job_search_company_links_patterns() -> (r: Vec<String>)
    ensures
        r.deep_view() == spec_job_search_company_links_pats(),
{
    pat1("a[href*='/company/']")
}

pub open spec fn spec_listing_job_item_pats() -> Seq<Seq<char>> {
    seq!["li"@]
}

pub fn listing_job_item_patterns() -> (r: Vec<String>)
    ensures
        r.deep_view() == spec_listing_job_item_pats(),
{
    pat1("li")
}

pub open spec fn spec_listing_job_title_pats() -> Seq<Seq<char>> {
    seq!["h3"@]
}

pub fn listing_job_title_patterns() -> (r: Vec<String>)
    ensures
        r.deep_view() == spec_listing_job_title_pats(),
{
    pat1("h3")
}

pub open spec fn spec_listing_job_url_pats() -> Seq<Seq<char>> {
    seq![".base-card__full-link"@]
}

pub fn listing_job_url_patterns() -> (r: Vec<String>)
    ensures
        r.deep_view() == spec_listing_job_url_pats(),
{
    pat1(".base-card__full-link")
}

pub open spec fn spec_listing_job_time_pats() -> Seq<Seq<char>> {
    seq!["time"@]
}

pub fn listing_job_time_patterns() -> (r: Vec<String>)
    ensures
        r.deep_view() == spec_listing_job_time_pats(),
{
    pat1("time")
}

pub open spec fn spec_listing_company_name_pats() -> Seq<Seq<char>> {
    seq!["h4 a"@]
}

pub fn listing_company_name_patterns() -> (r: Vec<String>)
    ensures
        r.deep_view() == spec_listing_company_name_pats(),
{
    pat1("h4 a")
}

pub open spec fn spec_listing_job_location_pats() -> Seq<Seq<char>> {
    seq![".job-search-card__location"@]
}

pub fn listing_job_location_patterns() -> (r: Vec<String>)
    ensures
        r.deep_view() == spec_listing_job_location_pats(),
{
    pat1(".job-search-card__location")
}

pub open spec fn spec_profile_company_name_pats() -> Seq<Seq<char>> {
    seq![".top-card-layout__entity-info h1"@]
}

pub fn profile_company_name_patterns() -> (r: Vec<String>)
    ensures
        r.deep_view() == spec_profile_company_name_pats(),
{
    pat1(".top-card-layout__entity-info h1")
}

pub open spec fn spec_profile_company_summary_pats() -> Seq<Seq<char>> {
    seq![".top-card-layout__entity-info h4 span"@]
}

pub fn profile_company_summary_patterns() -> (r: Vec<String>)
    ensures
        r.deep_view() == spec_profile_company_summary_pats(),
{
    pat1(".top-card-layout__entity-info h4 span")
}

pub open spec fn spec_profile_company_details_pats() -> Seq<Seq<char>> {
    seq![".core-section-container__content .mb-2"@]
}

pub fn profile_company_details_patterns() -> (r: Vec<String>)
    ensures
        r.deep_view() == spec_profile_company_details_pats(),
{
    pat1(".core-section-container__content .mb-2")
}

pub open spec fn spec_profile_text_md_pats() -> Seq<Seq<char>> {
    seq![".text-md"@]
}

pub fn profile_text_md_patterns() -> (r: Vec<String>)
    ensures
        r.deep_view() == spec_profile_text_md_pats(),
{
    pat1(".text-md")
}

pub open spec fn spec_pp_top_card_pats() -> Seq<Seq<char>> {
    seq!["section.top-card-layout"@]
}

pub fn pp_top_card_patterns() -> (r: Vec<String>)
    ensures
        r.deep_view() == spec_pp_top_card_pats(),
{
    pat1("section.top-card-layout")
}

pub open spec fn spec_pp_name_pats() -> Seq<Seq<char>> {
    seq!["h1.top-card-layout__title"@]
}

pub fn pp_name_patterns() -> (r: Vec<String>)
    ensures
        r.deep_view() == spec_pp_name_pats(),
{
    pat1("h1.top-card-layout__title")
}

pub open spec fn spec_pp_description_pats() -> Seq<Seq<char>> {
    seq!["span.top-card-link__description"@]
}

pub fn pp_description_patterns() -> (r: Vec<String>)
    ensures
        r.deep_view() == spec_pp_description_pats(),
{
    pat1("span.top-card-link__description")
}

pub open spec fn spec_pp_location_pats() -> Seq<Seq<char>> {
    seq![".profile-info-subheader span:first-child"@]
}

pub fn pp_location_patterns() -> (r: Vec<String>)
    ensures
        r.deep_view() == spec_pp_location_pats(),
{
    pat1(".profile-info-subheader span:first-child")
}

pub open spec fn spec_pp_followers_pats() -> Seq<Seq<char>> {
    seq![".not-first-middot span:first-child"@]
}

pub fn pp_followers_patterns() -> (r: Vec<String>)
    ensures
        r.deep_view() == spec_pp_followers_pats(),
{
    pat1(".not-first-middot span:first-child")
}

pub open spec fn spec_pp_connections_pats() -> Seq<Seq<char>> {
    seq![".not-first-middot span:last-child"@]
}

pub fn pp_connections_patterns() -> (r: Vec<String>)
    ensures
        r.deep_view() == spec_pp_connections_pats(),
{
    pat1(".not-first-middot span:last-child")
}

pub open spec fn spec_pp_subline_item_pats() -> Seq<Seq<char>> {
    seq!["span.top-card__subline-item"@]
}

pub fn pp_subline_item_patterns() -> (r: Vec<String>)
    ensures
        r.deep_view() == spec_pp_subline_item_pats(),
{
    pat1("span.top-card__subline-item")
}

pub open spec fn spec_pp_experience_item_pats() -> Seq<Seq<char>> {
    seq!["li.profile-section-card"@]
}

pub fn pp_experience_item_patterns() -> (r: Vec<String>)
    ensures
        r.deep_view() == spec_pp_experience_item_pats(),
{
    pat1("li.profile-section-card")
}

pub open spec fn spec_pp_experience_title_pats() -> Seq<Seq<char>> {
    seq!["h4 > p:first-child"@]
}

pub fn pp_experience_title_patterns() -> (r: Vec<String>)
    ensures
        r.deep_view() == spec_pp_experience_title_pats(),
{
    pat1("h4 > p:first-child")
}

pub open spec fn spec_pp_experience_location_pats() -> Seq<Seq<char>> {
    seq!["div.text-color-text-low-emphasis"@]
}

pub fn pp_experience_location_patterns() -> (r: Vec<String>)
    ensures
        r.deep_view() == spec_pp_experience_location_pats(),
{
    pat1("div.text-color-text-low-emphasis")
}

pub open spec fn spec_pp_desc_more_pats() -> Seq<Seq<char>> {
    seq!["p.show-more-less-text__text--more"@]
}

pub fn pp_desc_more_patterns() -> (r: Vec<String>)
    ensures
        r.deep_view() == spec_pp_desc_more_pats(),
{
    pat1("p.show-more-less-text__text--more")
}

pub open spec fn spec_pp_desc_less_pats() -> Seq<Seq<char>> {
    seq!["p.show-more-less-text__text--less"@]
}

pub fn pp_desc_less_patterns() -> (r: Vec<String>)
    ensures
        r.deep_view() == spec_pp_desc_less_pats(),
{
    pat1("p.show-more-less-text__text--less")
}

pub open spec fn spec_pp_date_time_pats() -> Seq<Seq<char>> {
    seq!["span.date-range time"@]
}

pub fn pp_date_time_patterns() -> (r: Vec<String>)
    ensures
        r.deep_view() == spec_pp_date_time_pats(),
{
    pat1("span.date-range time")
}

pub open spec fn spec_pp_duration_pats() -> Seq<Seq<char>> {
    seq!["span.date-range__duration"@]
}

pub fn pp_duration_patterns() -> (r: Vec<String>)
    ensures
        r.deep_view() == spec_pp_duration_pats(),
{
    pat1("span.date-range__duration")
}

pub open spec fn spec_pp_company_logo_pats() -> Seq<Seq<char>> {
    seq!["li.profile-section-card img.profile-section-card__image"@]
}

pub fn pp_company_logo_patterns() -> (r: Vec<String>)
    ensures
        r.deep_view() == spec_pp_company_logo_pats(),
{
    pat1("li.profile-section-card img.profile-section-card__image")
}

pub open spec fn spec_pp_company_name_pats() -> Seq<Seq<char>> {
    seq!["li.profile-section-card h3"@]
}

pub fn pp_company_name_patterns() -> (r: Vec<String>)
    ensures
        r.deep_view() == spec_pp_company_name_pats(),
{
    pat1("li.profile-section-card h3")
}

pub open spec fn spec_pp_education_item_pats() -> Seq<Seq<char>> {
    seq!["li.profile-section-card"@]
}

pub fn pp_education_item_patterns() -> (r: Vec<String>)
    ensures
        r.deep_view() == spec_pp_education_item_pats(),
{
    pat1("li.profile-section-card")
}

pub open spec fn spec_pp_education_org_pats() -> Seq<Seq<char>> {
    seq!["h3"@]
}

pub fn pp_education_org_patterns() -> (r: Vec<String>)
    ensures
        r.deep_view() == spec_pp_education_org_pats(),
{
    pat1("h3")
}

pub open spec fn spec_pp_education_link_pats() -> Seq<Seq<char>> {
    seq!["a"@]
}

pub fn pp_education_link_patterns() -> (r: Vec<String>)
    ensures
        r.deep_view() == spec_pp_education_link_pats(),
{
    pat1("a")
}

pub open spec fn spec_pp_education_details_pats() -> Seq<Seq<char>> {
    seq!["h4 > p:first-child"@]
}

pub fn pp_education_details_patterns() -> (r: Vec<String>)
    ensures
        r.deep_view() == spec_pp_education_details_pats(),
{
    pat1("h4 > p:first-child")
}

pub open spec fn spec_pp_education_desc_pats() -> Seq<Seq<char>> {
    seq!["div.text-color-text-low-emphasis"@]
}

pub fn pp_education_desc_patterns() -> (r: Vec<String>)
    ensures
        r.deep_view() == spec_pp_education_desc_pats(),
{
    pat1("div.text-color-text-low-emphasis")
}

pub open spec fn spec_pp_education_date_time_pats() -> Seq<Seq<char>> {
    seq!["span.date-range time"@]
}

pub fn pp_education_date_time_patterns() -> (r: Vec<String>)
    ensures
        r.deep_view() == spec_pp_education_date_time_pats(),
{
    pat1("span.date-range time")
}

pub open spec fn spec_pp_projects_items_pats() -> Seq<Seq<char>> {
    seq!["section.projects ul.projects__list > li.profile-section-card"@]
}

pub fn pp_projects_items_patterns() -> (r: Vec<String>)
    ensures
        r.deep_view() == spec_pp_projects_items_pats(),
{
    pat1("section.projects ul.projects__list > li.profile-section-card")
}

pub open spec fn spec_pp_languages_items_pats() -> Seq<Seq<char>> {
    seq!["section.languages ul > li.profile-section-card"@]
}

pub fn pp_languages_items_patterns() -> (r: Vec<String>)
    ensures
        r.deep_view() == spec_pp_languages_items_pats(),
{
    pat1("section.languages ul > li.profile-section-card")
}

pub open spec fn spec_pp_activities_items_pats() -> Seq<Seq<char>> {
    seq!["section.activities ul[data-test-id='activities__list'] > li"@]
}

pub fn pp_activities_items_patterns() -> (r: Vec<String>)
    ensures
        r.deep_view() == spec_pp_activities_items_pats(),
{
    pat1("section.activities ul[data-test-id='activities__list'] > li")
}


/// Whether every pattern of one table is well formed.
pub open spec fn spec_table_ok(t: Seq<Seq<char>>) -> bool {
    forall|j: int| 0 <= j < t.len() ==> sel_ok(#[trigger] t[j])
}

/// Whether every static pattern table of the extraction engine is well
/// formed.
pub open spec fn spec_all_tables_valid() -> bool {
    &&& spec_table_ok(spec_person_name_pats())
    &&& spec_table_ok(spec_person_headline_pats())
    &&& spec_table_ok(spec_person_location_pats())
    &&& spec_table_ok(spec_person_about_pats())
    &&& spec_table_ok(spec_person_open_to_work_pats())
    &&& spec_table_ok(spec_experience_section_pats())
    &&& spec_table_ok(spec_experience_items_pats())
    &&& spec_table_ok(spec_experience_titles_pats())
    &&& spec_table_ok(spec_experience_companies_pats())
    &&& spec_table_ok(spec_experience_info_pats())
    &&& spec_table_ok(spec_experience_company_links_pats())
    &&& spec_table_ok(spec_education_section_pats())
    &&& spec_table_ok(spec_education_items_pats())
    &&& spec_table_ok(spec_education_schools_pats())
    &&& spec_table_ok(spec_education_degrees_pats())
    &&& spec_table_ok(spec_education_durations_pats())
    &&& spec_table_ok(spec_education_school_links_pats())
    &&& spec_table_ok(spec_person_search_cards_pats())
    &&& spec_table_ok(spec_person_search_titles_pats())
    &&& spec_table_ok(spec_person_search_headlines_pats())
    &&& spec_table_ok(spec_person_search_locations_pats())
    &&& spec_table_ok(spec_company_name_pats())
    &&& spec_table_ok(spec_company_about_pats())
    &&& spec_table_ok(spec_company_website_pats())
    &&& spec_table_ok(spec_company_headquarters_pats())
    &&& spec_table_ok(spec_company_founded_pats())
    &&& spec_table_ok(spec_company_size_pats())
    &&& spec_table_ok(spec_company_industry_pats())
    &&& spec_table_ok(spec_company_specialties_items_pats())
    &&& spec_table_ok(spec_employee_cards_pats())
    &&& spec_table_ok(spec_employee_names_pats())
    &&& spec_table_ok(spec_employee_titles_pats())
    &&& spec_table_ok(spec_employee_links_pats())
    &&& spec_table_ok(spec_job_title_pats())
    &&& spec_table_ok(spec_job_company_pats())
    &&& spec_table_ok(spec_job_location_pats())
    &&& spec_table_ok(spec_job_description_pats())
    &&& spec_table_ok(spec_job_posted_date_pats())
    &&& spec_table_ok(spec_job_applicant_count_pats())
    &&& spec_table_ok(spec_job_company_link_pats())
    &&& spec_table_ok(spec_job_insights_pats())
    &&& spec_table_ok(spec_job_search_cards_pats())
    &&& spec_table_ok(spec_job_search_titles_pats())
    &&& spec_table_ok(spec_job_search_companies_pats())
    &&& spec_table_ok(spec_job_search_locations_pats())
    &&& spec_table_ok(spec_job_search_posted_dates_pats())
    &&& spec_table_ok(spec_job_search_company_links_pats())
    &&& spec_table_ok(spec_listing_job_item_pats())
    &&& spec_table_ok(spec_listing_job_title_pats())
    &&& spec_table_ok(spec_listing_job_url_pats())
    &&& spec_table_ok(spec_listing_job_time_pats())
    &&& spec_table_ok(spec_listing_company_name_pats())
    &&& spec_table_ok(spec_listing_job_location_pats())
    &&& spec_table_ok(spec_profile_company_name_pats())
    &&& spec_table_ok(spec_profile_company_summary_pats())
    &&& spec_table_ok(spec_profile_company_details_pats())
    &&& spec_table_ok(spec_profile_text_md_pats())
    &&& spec_table_ok(spec_pp_top_card_pats())
    &&& spec_table_ok(spec_pp_name_pats())
    &&& spec_table_ok(spec_pp_description_pats())
    &&& spec_table_ok(spec_pp_location_pats())
    &&& spec_table_ok(spec_pp_followers_pats())
    &&& spec_table_ok(spec_pp_connections_pats())
    &&& spec_table_ok(spec_pp_subline_item_pats())
    &&& spec_table_ok(spec_pp_experience_item_pats())
    &&& spec_table_ok(spec_pp_experience_title_pats())
    &&& spec_table_ok(spec_pp_experience_location_pats())
    &&& spec_table_ok(spec_pp_desc_more_pats())
    &&& spec_table_ok(spec_pp_desc_less_pats())
    &&& spec_table_ok(spec_pp_date_time_pats())
    &&& spec_table_ok(spec_pp_duration_pats())
    &&& spec_table_ok(spec_pp_company_logo_pats())
    &&& spec_table_ok(spec_pp_company_name_pats())
    &&& spec_table_ok(spec_pp_education_item_pats())
    &&& spec_table_ok(spec_pp_education_org_pats())
    &&& spec_table_ok(spec_pp_education_link_pats())
    &&& spec_table_ok(spec_pp_education_details_pats())
    &&& spec_table_ok(spec_pp_education_desc_pats())
    &&& spec_table_ok(spec_pp_education_date_time_pats())
    &&& spec_table_ok(spec_pp_projects_items_pats())
    &&& spec_table_ok(spec_pp_languages_items_pats())
    &&& spec_table_ok(spec_pp_activities_items_pats())
}

/// Validates every static pattern table once at startup: `SelectorInvalid`
/// exactly when some table holds a malformed pattern, so that a bad table
/// fails fast instead of surfacing mid-crawl.
pub fn validate_pattern_tables() -> (r: Result<(), crate::errors::ScrapeError>)
    ensures
        r is Ok <==> spec_all_tables_valid(),
        r is Err ==> r->Err_0 == crate::errors::ScrapeError::SelectorInvalid,
{
    if let Err(e) = validate_patterns(&person_name_patterns()) {
        return Err(e);
    }
    if let Err(e) = validate_patterns(&person_headline_patterns()) {
        return Err(e);
    }
    if let Err(e) = validate_patterns(&person_location_patterns()) {
        return Err(e);
    }
    if let Err(e) = validate_patterns(&person_about_patterns()) {
        return Err(e);
    }
    if let Err(e) = validate_patterns(&person_open_to_work_patterns()) {
        return Err(e);
    }
    if let Err(e) = validate_patterns(&experience_section_patterns()) {
        return Err(e);
    }
    if let Err(e) = validate_patterns(&experience_items_patterns()) {
        return Err(e);
    }
    if let Err(e) = validate_patterns(&experience_titles_patterns()) {
        return Err(e);
    }
    if let Err(e) = validate_patterns(&experience_companies_patterns()) {
        return Err(e);
    }
    if let Err(e) = validate_patterns(&experience_info_patterns()) {
        return Err(e);
    }
    if let Err(e) = validate_patterns(&experience_company_links_patterns()) {
        return Err(e);
    }
    if let Err(e) = validate_patterns(&education_section_patterns()) {
        return Err(e);
    }
    if let Err(e) = validate_patterns(&education_items_patterns()) {
        return Err(e);
    }
    if let Err(e) = validate_patterns(&education_schools_patterns()) {
        return Err(e);
    }
    if let Err(e) = validate_patterns(&education_degrees_patterns()) {
        return Err(e);
    }
    if let Err(e) = validate_patterns(&education_durations_patterns()) {
        return Err(e);
    }
    if let Err(e) = validate_patterns(&education_school_links_patterns()) {
        return Err(e);
    }
    if let Err(e) = validate_patterns(&person_search_cards_patterns()) {
        return Err(e);
    }
    if let Err(e) = validate_patterns(&person_search_titles_patterns()) {
        return Err(e);
    }
    if let Err(e) = validate_patterns(&person_search_headlines_patterns()) {
        return Err(e);
    }
    if let Err(e) = validate_patterns(&person_search_locations_patterns()) {
        return Err(e);
    }
    if let Err(e) = validate_patterns(&company_name_patterns()) {
        return Err(e);
    }
    if let Err(e) = validate_patterns(&company_about_patterns()) {
        return Err(e);
    }
    if let Err(e) = validate_patterns(&company_website_patterns()) {
        return Err(e);
    }
    if let Err(e) = validate_patterns(&company_headquarters_patterns()) {
        return Err(e);
    }
    if let Err(e) = validate_patterns(&company_founded_patterns()) {
        return Err(e);
    }
    if let Err(e) = validate_patterns(&company_size_patterns()) {
        return Err(e);
    }
    if let Err(e) = validate_patterns(&company_industry_patterns()) {
        return Err(e);
    }
    if let Err(e) = validate_patterns(&company_specialties_items_patterns()) {
        return Err(e);
    }
    if let Err(e) = validate_patterns(&employee_cards_patterns()) {
        return Err(e);
    }
    if let Err(e) = validate_patterns(&employee_names_patterns()) {
        return Err(e);
    }
    if let Err(e) = validate_patterns(&employee_titles_patterns()) {
        return Err(e);
    }
    if let Err(e) = validate_patterns(&employee_links_patterns()) {
        return Err(e);
    }
    if let Err(e) = validate_patterns(&job_title_patterns()) {
        return Err(e);
    }
    if let Err(e) = validate_patterns(&job_company_patterns()) {
        return Err(e);
    }
    if let Err(e) = validate_patterns(&job_location_patterns()) {
        return Err(e);
    }
    if let Err(e) = validate_patterns(&job_description_patterns()) {
        return Err(e);
    }
    if let Err(e) = validate_patterns(&job_posted_date_patterns()) {
        return Err(e);
    }
    if let Err(e) = validate_patterns(&job_applicant_count_patterns()) {
        return Err(e);
    }
    if let Err(e) = validate_patterns(&job_company_link_patterns()) {
        return Err(e);
    }
    if let Err(e) = validate_patterns(&job_insights_patterns()) {
        return Err(e);
    }
    if let Err(e) = validate_patterns(&job_search_cards_patterns()) {
        return Err(e);
    }
    if let Err(e) = validate_patterns(&job_search_titles_patterns()) {
        return Err(e);
    }
    if let Err(e) = validate_patterns(&job_search_companies_patterns()) {
        return Err(e);
    }
    if let Err(e) = validate_patterns(&job_search_locations_patterns()) {
        return Err(e);
    }
    if let Err(e) = validate_patterns(&job_search_posted_dates_patterns()) {
        return Err(e);
    }
    if let Err(e) = validate_patterns(&job_search_company_links_patterns()) {
        return Err(e);
    }
    if let Err(e) = validate_patterns(&listing_job_item_patterns()) {
        return Err(e);
    }
    if let Err(e) = validate_patterns(&listing_job_title_patterns()) {
        return Err(e);
    }
    if let Err(e) = validate_patterns(&listing_job_url_patterns()) {
        return Err(e);
    }
    if let Err(e) = validate_patterns(&listing_job_time_patterns()) {
        return Err(e);
    }
    if let Err(e) = validate_patterns(&listing_company_name_patterns()) {
        return Err(e);
    }
    if let Err(e) = validate_patterns(&listing_job_location_patterns()) {
        return Err(e);
    }
    if let Err(e) = validate_patterns(&profile_company_name_patterns()) {
        return Err(e);
    }
    if let Err(e) = validate_patterns(&profile_company_summary_patterns()) {
        return Err(e);
    }
    if let Err(e) = validate_patterns(&profile_company_details_patterns()) {
        return Err(e);
    }
    if let Err(e) = validate_patterns(&profile_text_md_patterns()) {
        return Err(e);
    }
    if let Err(e) = validate_patterns(&pp_top_card_patterns()) {
        return Err(e);
    }
    if let Err(e) = validate_patterns(&pp_name_patterns()) {
        return Err(e);
    }
    if let Err(e) = validate_patterns(&pp_description_patterns()) {
        return Err(e);
    }
    if let Err(e) = validate_patterns(&pp_location_patterns()) {
        return Err(e);
    }
    if let Err(e) = validate_patterns(&pp_followers_patterns()) {
        return Err(e);
    }
    if let Err(e) = validate_patterns(&pp_connections_patterns()) {
        return Err(e);
    }
    if let Err(e) = validate_patterns(&pp_subline_item_patterns()) {
        return Err(e);
    }
    if let Err(e) = validate_patterns(&pp_experience_item_patterns()) {
        return Err(e);
    }
    if let Err(e) = validate_patterns(&pp_experience_title_patterns()) {
        return Err(e);
    }
    if let Err(e) = validate_patterns(&pp_experience_location_patterns()) {
        return Err(e);
    }
    if let Err(e) = validate_patterns(&pp_desc_more_patterns()) {
        return Err(e);
    }
    if let Err(e) = validate_patterns(&pp_desc_less_patterns()) {
        return Err(e);
    }
    if let Err(e) = validate_patterns(&pp_date_time_patterns()) {
        return Err(e);
    }
    if let Err(e) = validate_patterns(&pp_duration_patterns()) {
        return Err(e);
    }
    if let Err(e) = validate_patterns(&pp_company_logo_patterns()) {
        return Err(e);
    }
    if let Err(e) = validate_patterns(&pp_company_name_patterns()) {
        return Err(e);
    }
    if let Err(e) = validate_patterns(&pp_education_item_patterns()) {
        return Err(e);
    }
    if let Err(e) = validate_patterns(&pp_education_org_patterns()) {
        return Err(e);
    }
    if let Err(e) = validate_patterns(&pp_education_link_patterns()) {
        return Err(e);
    }
    if let Err(e) = validate_patterns(&pp_education_details_patterns()) {
        return Err(e);
    }
    if let Err(e) = validate_patterns(&pp_education_desc_patterns()) {
        return Err(e);
    }
    if let Err(e) = validate_patterns(&pp_education_date_time_patterns()) {
        return Err(e);
    }
    if let Err(e) = validate_patterns(&pp_projects_items_patterns()) {
        return Err(e);
    }
    if let Err(e) = validate_patterns(&pp_languages_items_patterns()) {
        return Err(e);
    }
    if let Err(e) = validate_patterns(&pp_activities_items_patterns()) {
        return Err(e);
    }
    Ok(())
}

} // verus!
