use vstd::prelude::*;
use vstd::string::*;
use crate::errors::ScrapeError;
use crate::models::{
    Person, PersonView, Company, CompanyView, Job, JobView, Employee, EmployeeView, Experience,
    ExperienceView, Education, EducationView,
};
use crate::patterns::{
    spec_person_name_pats, spec_person_headline_pats, spec_person_location_pats,
    spec_person_about_pats, spec_person_open_to_work_pats, spec_experience_section_pats,
    spec_experience_items_pats, spec_experience_titles_pats, spec_experience_companies_pats,
    spec_experience_info_pats, spec_experience_company_links_pats, spec_education_section_pats,
    spec_education_items_pats, spec_education_schools_pats, spec_education_degrees_pats,
    spec_education_durations_pats, spec_education_school_links_pats, person_name_patterns,
    person_headline_patterns, person_location_patterns, person_about_patterns,
    person_open_to_work_patterns, experience_section_patterns, experience_items_patterns,
    experience_titles_patterns, experience_companies_patterns, experience_info_patterns,
    experience_company_links_patterns, education_section_patterns, education_items_patterns,
    education_schools_patterns, education_degrees_patterns, education_durations_patterns,
    education_school_links_patterns, spec_employee_cards_pats, spec_employee_names_pats,
    spec_employee_titles_pats, spec_employee_links_pats, employee_cards_patterns,
    employee_names_patterns, employee_titles_patterns, employee_links_patterns,
    spec_company_name_pats, spec_company_about_pats, spec_company_website_pats,
    spec_company_headquarters_pats, spec_company_founded_pats, spec_company_size_pats,
    spec_company_industry_pats, spec_company_specialties_items_pats, company_name_patterns,
    company_about_patterns, company_website_patterns, company_headquarters_patterns,
    company_founded_patterns, company_size_patterns, company_industry_patterns,
    company_specialties_items_patterns, spec_job_title_pats, spec_job_company_pats,
    spec_job_location_pats, spec_job_description_pats, spec_job_posted_date_pats,
    spec_job_applicant_count_pats, spec_job_company_link_pats, spec_job_insights_pats,
    job_title_patterns, job_company_patterns, job_location_patterns, job_description_patterns,
    job_posted_date_patterns, job_applicant_count_patterns, job_company_link_patterns,
    job_insights_patterns, spec_person_search_cards_pats, spec_person_search_titles_pats,
    spec_person_search_headlines_pats, spec_person_search_locations_pats,
    person_search_cards_patterns, person_search_titles_patterns, person_search_headlines_patterns,
    person_search_locations_patterns, spec_job_search_cards_pats, spec_job_search_titles_pats,
    spec_job_search_companies_pats, spec_job_search_locations_pats,
    spec_job_search_posted_dates_pats, spec_job_search_company_links_pats,
    job_search_cards_patterns, job_search_titles_patterns, job_search_companies_patterns,
    job_search_locations_patterns, job_search_posted_dates_patterns,
    job_search_company_links_patterns,
};
use crate::resolver::{
    spec_extract_text, spec_nth_text, spec_last_text, spec_extract_attribute,
    spec_extract_all_text, spec_extract_fragments, spec_resolve_frag, extract_text, nth_text,
    last_text, extract_attribute, extract_all_text, extract_fragments, resolve_frag,
};
use crate::strutil::{spec_absolutize, spec_contains_seq, absolutize_url, contains_str};
use crate::duration::spec_parse_duration;
use crate::duration::parse_duration;
use crate::numparse::{spec_first_count, spec_founded_year, parse_applicant_count,
    parse_founded_year};

verus! {

/// The text of an optional field, or the empty text.
pub open spec fn opt_or_empty(o: Option<Seq<char>>) -> Seq<char> {
    match o {
        Some(t) => t,
        None => Seq::empty(),
    }
}

/// An optional link made absolute.
pub open spec fn opt_absolutize(o: Option<Seq<char>>) -> Option<Seq<char>> {
    match o {
        Some(h) => Some(spec_absolutize(h)),
        None => None,
    }
}

/// One experience entry parsed from its scoped fragment: title and company
/// from their field patterns, the company link made absolute, the location
/// from the last info node, and the dates split out of the first info node.
pub open spec fn spec_parse_experience(f: Seq<char>) -> ExperienceView {
    let dates = spec_parse_duration(opt_or_empty(spec_nth_text(f, spec_experience_info_pats(), 0)));
    ExperienceView {
        title: spec_nth_text(f, spec_experience_titles_pats(), 0),
        company: spec_nth_text(f, spec_experience_companies_pats(), 1),
        company_linkedin_url: opt_absolutize(
            spec_extract_attribute(f, spec_experience_company_links_pats(), "href"@),
        ),
        location: spec_last_text(f, spec_experience_info_pats()),
        from_date: dates.0,
        to_date: dates.1,
        duration: dates.2,
        description: None,
    }
}

/// Parses one experience fragment.
pub fn parse_experience_item(frag: &str) -> (e: Experience)
    ensures
        e.deep_view() == spec_parse_experience(frag@),
{
    let title = nth_text(frag, &experience_titles_patterns(), 0);
    let company = nth_text(frag, &experience_companies_patterns(), 1);
    let duration_text = nth_text(frag, &experience_info_patterns(), 0);
    let location = last_text(frag, &experience_info_patterns());
    let href = extract_attribute(frag, &experience_company_links_patterns(), "href");
    let company_linkedin_url = match href {
        Some(h) => Some(absolutize_url(h.as_str())),
        None => None,
    };
    let dtext = match duration_text {
        Some(t) => t,
        None => String::new(),
    };
    let (from_date, to_date, duration) = parse_duration(dtext.as_str());
    Experience {
        title,
        company,
        company_linkedin_url,
        location,
        from_date,
        to_date,
        duration,
        description: None,
    }
}

/// The experience entries of a sequence of item fragments, in order.
pub open spec fn spec_experiences_of(frags: Seq<Seq<char>>) -> Seq<ExperienceView>
    decreases frags.len(),
{
    if frags.len() == 0 {
        Seq::empty()
    } else {
        seq![spec_parse_experience(frags[0])] + spec_experiences_of(frags.drop_first())
    }
}

/// The experiences a profile page carries: the items scoped to the first
/// experience section, each parsed as an entry; none without a section.
pub open spec fn spec_extract_experiences(h: Seq<char>) -> Seq<ExperienceView> {
    let secs = spec_extract_fragments(h, spec_experience_section_pats());
    if secs.len() == 0 {
        Seq::empty()
    } else {
        spec_experiences_of(spec_extract_fragments(secs[0], spec_experience_items_pats()))
    }
}

/// Extracts the experience entries of a profile page.
pub fn extract_experiences(html: &str) -> (v: Vec<Experience>)
    ensures
        v.deep_view() == spec_extract_experiences(html@),
{
    let secs = extract_fragments(html, &experience_section_patterns());
    if secs.len() == 0 {
        let r: Vec<Experience> = Vec::new();
        proof {
            assert(secs.deep_view().len() == secs@.len());
            assert(r.deep_view() =~= spec_extract_experiences(html@));
        }
        return r;
    }
    proof {
        assert(secs.deep_view().len() == secs@.len());
        assert(secs.deep_view()[0] == secs@[0]@);
    }
    let items = extract_fragments(secs[0].as_str(), &experience_items_patterns());
    let n = items.len();
    let ghost all = items.deep_view();
    let mut out: Vec<Experience> = Vec::new();
    let mut i: usize = 0;
    proof {
        assert(all.subrange(0, n as int) =~= all);
        assert(out.deep_view() =~= Seq::<ExperienceView>::empty());
        assert(Seq::<ExperienceView>::empty() + spec_experiences_of(all) =~= spec_experiences_of(
            all,
        ));
    }
    while i < n
        invariant
            n == items@.len(),
            all == items.deep_view(),
            all.len() == n,
            0 <= i <= n,
            out.deep_view() + spec_experiences_of(all.subrange(i as int, n as int))
                == spec_experiences_of(all),
        decreases n - i,
    {
        let ghost out0 = out.deep_view();
        let ghost rest = all.subrange(i as int, n as int);
        proof {
            assert(rest[0] == all[i as int]);
            assert(rest.drop_first() =~= all.subrange(i + 1, n as int));
            assert(items.deep_view()[i as int] == items@[i as int]@);
        }
        let e = parse_experience_item(items[i].as_str());
        out.push(e);
        proof {
            assert(out.deep_view() =~= out0 + seq![spec_parse_experience(all[i as int])]);
            assert(out0 + (seq![spec_parse_experience(rest[0])] + spec_experiences_of(
                rest.drop_first(),
            )) =~= (out0 + seq![spec_parse_experience(rest[0])]) + spec_experiences_of(
                rest.drop_first(),
            ));
        }
        i = i + 1;
    }
    proof {
        assert(all.subrange(n as int, n as int) =~= Seq::<Seq<char>>::empty());
        assert(out.deep_view() + Seq::<ExperienceView>::empty() =~= out.deep_view());
    }
    out
}

/// One education entry parsed from its scoped fragment.
pub open spec fn spec_parse_education(f: Seq<char>) -> EducationView {
    let dates = spec_parse_duration(
        opt_or_empty(spec_nth_text(f, spec_education_durations_pats(), 0)),
    );
    EducationView {
        school: spec_nth_text(f, spec_education_schools_pats(), 0),
        school_linkedin_url: opt_absolutize(
            spec_extract_attribute(f, spec_education_school_links_pats(), "href"@),
        ),
        degree: spec_nth_text(f, spec_education_degrees_pats(), 0),
        field_of_study: None,
        from_date: dates.0,
        to_date: dates.1,
        description: None,
    }
}

/// Parses one education fragment.
pub fn parse_education_item(frag: &str) -> (e: Education)
    ensures
        e.deep_view() == spec_parse_education(frag@),
{
    let school = nth_text(frag, &education_schools_patterns(), 0);
    let degree = nth_text(frag, &education_degrees_patterns(), 0);
    let duration_text = nth_text(frag, &education_durations_patterns(), 0);
    let href = extract_attribute(frag, &education_school_links_patterns(), "href");
    let school_linkedin_url = match href {
        Some(h) => Some(absolutize_url(h.as_str())),
        None => None,
    };
    let dtext = match duration_text {
        Some(t) => t,
        None => String::new(),
    };
    let (from_date, to_date, _duration) = parse_duration(dtext.as_str());
    Education {
        school,
        school_linkedin_url,
        degree,
        field_of_study: None,
        from_date,
        to_date,
        description: None,
    }
}

/// The education entries of a sequence of item fragments, in order.
pub open spec fn spec_educations_of(frags: Seq<Seq<char>>) -> Seq<EducationView>
    decreases frags.len(),
{
    if frags.len() == 0 {
        Seq::empty()
    } else {
        seq![spec_parse_education(frags[0])] + spec_educations_of(frags.drop_first())
    }
}

/// The educations a profile page carries, scoped to the first education
/// section.
pub open spec fn spec_extract_educations(h: Seq<char>) -> Seq<EducationView> {
    let secs = spec_extract_fragments(h, spec_education_section_pats());
    if secs.len() == 0 {
        Seq::empty()
    } else {
        spec_educations_of(spec_extract_fragments(secs[0], spec_education_items_pats()))
    }
}

/// Extracts the education entries of a profile page.
pub fn extract_educations(html: &str) -> (v: Vec<Education>)
    ensures
        v.deep_view() == spec_extract_educations(html@),
{
    let secs = extract_fragments(html, &education_section_patterns());
    if secs.len() == 0 {
        let r: Vec<Education> = Vec::new();
        proof {
            assert(secs.deep_view().len() == secs@.len());
            assert(r.deep_view() =~= spec_extract_educations(html@));
        }
        return r;
    }
    proof {
        assert(secs.deep_view().len() == secs@.len());
        assert(secs.deep_view()[0] == secs@[0]@);
    }
    let items = extract_fragments(secs[0].as_str(), &education_items_patterns());
    let n = items.len();
    let ghost all = items.deep_view();
    let mut out: Vec<Education> = Vec::new();
    let mut i: usize = 0;
    proof {
        assert(all.subrange(0, n as int) =~= all);
        assert(out.deep_view() =~= Seq::<EducationView>::empty());
        assert(Seq::<EducationView>::empty() + spec_educations_of(all) =~= spec_educations_of(all));
    }
    while i < n
        invariant
            n == items@.len(),
            all == items.deep_view(),
            all.len() == n,
            0 <= i <= n,
            out.deep_view() + spec_educations_of(all.subrange(i as int, n as int))
                == spec_educations_of(all),
        decreases n - i,
    {
        let ghost out0 = out.deep_view();
        let ghost rest = all.subrange(i as int, n as int);
        proof {
            assert(rest[0] == all[i as int]);
            assert(rest.drop_first() =~= all.subrange(i + 1, n as int));
            assert(items.deep_view()[i as int] == items@[i as int]@);
        }
        let e = parse_education_item(items[i].as_str());
        out.push(e);
        proof {
            assert(out.deep_view() =~= out0 + seq![spec_parse_education(all[i as int])]);
            assert(out0 + (seq![spec_parse_education(rest[0])] + spec_educations_of(
                rest.drop_first(),
            )) =~= (out0 + seq![spec_parse_education(rest[0])]) + spec_educations_of(
                rest.drop_first(),
            ));
        }
        i = i + 1;
    }
    proof {
        assert(all.subrange(n as int, n as int) =~= Seq::<Seq<char>>::empty());
        assert(out.deep_view() + Seq::<EducationView>::empty() =~= out.deep_view());
    }
    out
}

/// The person a profile page describes: each top-card field resolved
/// through its candidate table, the open-to-work flag read off the badge
/// attribute, and the experience and education lists scoped to their
/// sections. Parsing is a function of the page text alone.
pub open spec fn spec_parse_person(url: Seq<char>, h: Seq<char>) -> PersonView {
    PersonView {
        linkedin_url: url,
        name: spec_extract_text(h, spec_person_name_pats()),
        headline: spec_extract_text(h, spec_person_headline_pats()),
        location: spec_extract_text(h, spec_person_location_pats()),
        about: spec_extract_text(h, spec_person_about_pats()),
        experiences: spec_extract_experiences(h),
        educations: spec_extract_educations(h),
        interests: Seq::empty(),
        accomplishments: Seq::empty(),
        contacts: Seq::empty(),
        open_to_work: spec_extract_attribute(h, spec_person_open_to_work_pats(), "title"@)
            is Some,
    }
}

/// Parses a person profile page into a person record; a field whose
/// candidates are exhausted is absent, and never aborts the entity.
pub fn parse_person(linkedin_url: &str, html: &str) -> (p: Person)
    ensures
        p.deep_view() == spec_parse_person(linkedin_url@, html@),
{
    let mut person = Person::new(linkedin_url.to_owned());
    person.name = extract_text(html, &person_name_patterns());
    person.headline = extract_text(html, &person_headline_patterns());
    person.location = extract_text(html, &person_location_patterns());
    person.about = extract_text(html, &person_about_patterns());
    let badge = extract_attribute(html, &person_open_to_work_patterns(), "title");
    person.open_to_work = match badge {
        Some(_) => true,
        None => false,
    };
    person.experiences = extract_experiences(html);
    person.educations = extract_educations(html);
    proof {
        assert(person.interests.deep_view() =~= Seq::<crate::models::InterestView>::empty());
        assert(person.accomplishments.deep_view() =~= Seq::<
            crate::models::AccomplishmentView,
        >::empty());
        assert(person.contacts.deep_view() =~= Seq::<crate::models::ContactView>::empty());
    }
    person
}


/// One employee card parsed from its scoped fragment: a card without a
/// working name or title pattern yields nothing; the profile link is
/// optional and made absolute.
pub open spec fn spec_parse_employee(f: Seq<char>) -> Option<EmployeeView> {
    match (
        spec_nth_text(f, spec_employee_names_pats(), 0),
        spec_nth_text(f, spec_employee_titles_pats(), 0),
    ) {
        (Some(n), Some(t)) => Some(
            EmployeeView {
                name: n,
                title: Some(t),
                linkedin_url: opt_absolutize(
                    spec_extract_attribute(f, spec_employee_links_pats(), "href"@),
                ),
            },
        ),
        _ => None,
    }
}

/// Parses one employee card fragment.
pub fn parse_employee_item(frag: &str) -> (e: Option<Employee>)
    ensures
        e.deep_view() == spec_parse_employee(frag@),
{
    let name = nth_text(frag, &employee_names_patterns(), 0);
    let title = nth_text(frag, &employee_titles_patterns(), 0);
    match (name, title) {
        (Some(n), Some(t)) => {
            let href = extract_attribute(frag, &employee_links_patterns(), "href");
            let linkedin_url = match href {
                Some(h) => Some(absolutize_url(h.as_str())),
                None => None,
            };
            Some(Employee { name: n, title: Some(t), linkedin_url })
        },
        _ => None,
    }
}

/// The employees among a sequence of card fragments, in order, dropping
/// cards that carry no usable name or title.
pub open spec fn spec_employees_of(frags: Seq<Seq<char>>) -> Seq<EmployeeView>
    decreases frags.len(),
{
    if frags.len() == 0 {
        Seq::empty()
    } else {
        let rest = spec_employees_of(frags.drop_first());
        match spec_parse_employee(frags[0]) {
            Some(e) => seq![e] + rest,
            None => rest,
        }
    }
}

/// The employees a page carries, over the first working card pattern; a
/// page without cards has none.
pub open spec fn spec_extract_employees(h: Seq<char>) -> Seq<EmployeeView> {
    spec_employees_of(spec_extract_fragments(h, spec_employee_cards_pats()))
}

/// Extracts the employee cards of a company or people page; a missing
/// employee section degrades to an empty list rather than aborting the
/// surrounding entity.
pub fn extract_employees(html: &str) -> (v: Vec<Employee>)
    ensures
        v.deep_view() == spec_extract_employees(html@),
{
    let cards = extract_fragments(html, &employee_cards_patterns());
    let n = cards.len();
    let ghost all = cards.deep_view();
    let mut out: Vec<Employee> = Vec::new();
    let mut i: usize = 0;
    proof {
        assert(all.subrange(0, n as int) =~= all);
        assert(out.deep_view() =~= Seq::<EmployeeView>::empty());
        assert(Seq::<EmployeeView>::empty() + spec_employees_of(all) =~= spec_employees_of(all));
    }
    while i < n
        invariant
            n == cards@.len(),
            all == cards.deep_view(),
            all.len() == n,
            0 <= i <= n,
            out.deep_view() + spec_employees_of(all.subrange(i as int, n as int))
                == spec_employees_of(all),
        decreases n - i,
    {
        let ghost out0 = out.deep_view();
        let ghost rest = all.subrange(i as int, n as int);
        proof {
            assert(rest[0] == all[i as int]);
            assert(rest.drop_first() =~= all.subrange(i + 1, n as int));
            assert(cards.deep_view()[i as int] == cards@[i as int]@);
        }
        match parse_employee_item(cards[i].as_str()) {
            Some(e) => {
                out.push(e);
                proof {
                    assert(out.deep_view() =~= out0 + seq![
                        spec_parse_employee(all[i as int])->Some_0,
                    ]);
                    assert(out0 + (seq![spec_parse_employee(rest[0])->Some_0]
                        + spec_employees_of(rest.drop_first())) =~= (out0 + seq![
                        spec_parse_employee(rest[0])->Some_0,
                    ]) + spec_employees_of(rest.drop_first()));
                }
            },
            None => {},
        }
        i = i + 1;
    }
    proof {
        assert(all.subrange(n as int, n as int) =~= Seq::<Seq<char>>::empty());
        assert(out.deep_view() + Seq::<EmployeeView>::empty() =~= out.deep_view());
    }
    out
}

/// The company a company page describes: every field resolved through its
/// candidate table, the founding year read as the first bounded four-digit
/// run, the specialties as the non-empty texts of their items, and the
/// employee cards parsed from the same page.
pub open spec fn spec_parse_company(url: Seq<char>, h: Seq<char>) -> CompanyView {
    CompanyView {
        linkedin_url: url,
        name: spec_extract_text(h, spec_company_name_pats()),
        about: spec_extract_text(h, spec_company_about_pats()),
        website: spec_extract_attribute(h, spec_company_website_pats(), "href"@),
        phone: None,
        headquarters: spec_extract_text(h, spec_company_headquarters_pats()),
        founded: match spec_extract_text(h, spec_company_founded_pats()) {
            Some(t) => spec_founded_year(t),
            None => None,
        },
        industry: spec_extract_text(h, spec_company_industry_pats()),
        company_type: None,
        company_size: spec_extract_text(h, spec_company_size_pats()),
        specialties: spec_extract_all_text(h, spec_company_specialties_items_pats()),
        employees: spec_extract_employees(h),
        follower_count: None,
    }
}

/// Parses a company page into a company record; absent fields degrade to
/// `None` and never abort the entity.
pub fn parse_company(linkedin_url: &str, html: &str) -> (c: Company)
    ensures
        c.deep_view() == spec_parse_company(linkedin_url@, html@),
{
    let mut company = Company::new(linkedin_url.to_owned());
    company.name = extract_text(html, &company_name_patterns());
    company.about = extract_text(html, &company_about_patterns());
    company.website = extract_attribute(html, &company_website_patterns(), "href");
    company.headquarters = extract_text(html, &company_headquarters_patterns());
    company.industry = extract_text(html, &company_industry_patterns());
    company.company_size = extract_text(html, &company_size_patterns());
    let founded_text = extract_text(html, &company_founded_patterns());
    company.founded = match founded_text {
        Some(t) => parse_founded_year(t.as_str()),
        None => None,
    };
    company.specialties = extract_all_text(html, &company_specialties_items_patterns());
    company.employees = extract_employees(html);
    company
}

/// Whether an insight text names an employment type.
pub open spec fn spec_is_employment_text(t: Seq<char>) -> bool {
    ||| spec_contains_seq(t, "Full-time"@)
    ||| spec_contains_seq(t, "Part-time"@)
    ||| spec_contains_seq(t, "Contract"@)
    ||| spec_contains_seq(t, "Temporary"@)
    ||| spec_contains_seq(t, "Internship"@)
}

/// Whether an insight text names a seniority level.
pub open spec fn spec_is_seniority_text(t: Seq<char>) -> bool {
    ||| spec_contains_seq(t, "Entry level"@)
    ||| spec_contains_seq(t, "Associate"@)
    ||| spec_contains_seq(t, "Mid-Senior level"@)
    ||| spec_contains_seq(t, "Director"@)
    ||| spec_contains_seq(t, "Executive"@)
}

/// The first insight text at or after `i` naming an employment type.
pub open spec fn spec_find_employment(ts: Seq<Seq<char>>, i: int) -> Option<Seq<char>>
    decreases ts.len() - i,
{
    if i < 0 || i >= ts.len() {
        None
    } else if spec_is_employment_text(ts[i]) {
        Some(ts[i])
    } else {
        spec_find_employment(ts, i + 1)
    }
}

/// The first insight text at or after `i` naming a seniority level.
pub open spec fn spec_find_seniority(ts: Seq<Seq<char>>, i: int) -> Option<Seq<char>>
    decreases ts.len() - i,
{
    if i < 0 || i >= ts.len() {
        None
    } else if spec_is_seniority_text(ts[i]) {
        Some(ts[i])
    } else {
        spec_find_seniority(ts, i + 1)
    }
}

/// The employment type a job page names among its insight texts.
pub open spec fn spec_extract_employment_type(h: Seq<char>) -> Option<Seq<char>> {
    spec_find_employment(spec_extract_all_text(h, spec_job_insights_pats()), 0)
}

/// The seniority level a job page names among its insight texts.
pub open spec fn spec_extract_seniority_level(h: Seq<char>) -> Option<Seq<char>> {
    spec_find_seniority(spec_extract_all_text(h, spec_job_insights_pats()), 0)
}

/// Finds the first insight text naming an employment type.
pub fn extract_employment_type(html: &str) -> (r: Option<String>)
    ensures
        r.deep_view() == spec_extract_employment_type(html@),
{
    let ts = extract_all_text(html, &job_insights_patterns());
    let n = ts.len();
    let ghost all = ts.deep_view();
    let mut i: usize = 0;
    while i < n
        invariant
            n == ts@.len(),
            all == ts.deep_view(),
            all.len() == n,
            0 <= i <= n,
            all == spec_extract_all_text(html@, spec_job_insights_pats()),
            spec_find_employment(all, 0) == spec_find_employment(all, i as int),
        decreases n - i,
    {
        proof {
            assert(ts.deep_view()[i as int] == ts@[i as int]@);
        }
        let t = &ts[i];
        if contains_str(t.as_str(), "Full-time") || contains_str(t.as_str(), "Part-time")
            || contains_str(t.as_str(), "Contract") || contains_str(t.as_str(), "Temporary")
            || contains_str(t.as_str(), "Internship") {
            return Some(t.clone());
        }
        i = i + 1;
    }
    None
}

/// Finds the first insight text naming a seniority level.
pub fn extract_seniority_level(html: &str) -> (r: Option<String>)
    ensures
        r.deep_view() == spec_extract_seniority_level(html@),
{
    let ts = extract_all_text(html, &job_insights_patterns());
    let n = ts.len();
    let ghost all = ts.deep_view();
    let mut i: usize = 0;
    while i < n
        invariant
            n == ts@.len(),
            all == ts.deep_view(),
            all.len() == n,
            0 <= i <= n,
            all == spec_extract_all_text(html@, spec_job_insights_pats()),
            spec_find_seniority(all, 0) == spec_find_seniority(all, i as int),
        decreases n - i,
    {
        proof {
            assert(ts.deep_view()[i as int] == ts@[i as int]@);
        }
        let t = &ts[i];
        if contains_str(t.as_str(), "Entry level") || contains_str(t.as_str(), "Associate")
            || contains_str(t.as_str(), "Mid-Senior level") || contains_str(
            t.as_str(),
            "Director",
        ) || contains_str(t.as_str(), "Executive") {
            return Some(t.clone());
        }
        i = i + 1;
    }
    None
}

/// The job a job page describes: every field resolved through its
/// candidate table, the applicant count read as the first run of digits,
/// and the employment type and seniority level found among the insight
/// texts.
pub open spec fn spec_parse_job(url: Seq<char>, h: Seq<char>) -> JobView {
    JobView {
        linkedin_url: url,
        title: spec_extract_text(h, spec_job_title_pats()),
        company: spec_extract_text(h, spec_job_company_pats()),
        company_linkedin_url: spec_extract_attribute(h, spec_job_company_link_pats(), "href"@),
        location: spec_extract_text(h, spec_job_location_pats()),
        posted_date: spec_extract_text(h, spec_job_posted_date_pats()),
        applicant_count: match spec_extract_text(h, spec_job_applicant_count_pats()) {
            Some(t) => spec_first_count(t),
            None => None,
        },
        description: spec_extract_text(h, spec_job_description_pats()),
        benefits: None,
        employment_type: spec_extract_employment_type(h),
        seniority_level: spec_extract_seniority_level(h),
    }
}

/// Parses a job page into a job record; absent fields degrade to `None`.
pub fn parse_job(linkedin_url: &str, html: &str) -> (j: Job)
    ensures
        j.deep_view() == spec_parse_job(linkedin_url@, html@),
{
    let mut job = Job::new(linkedin_url.to_owned());
    job.title = extract_text(html, &job_title_patterns());
    job.company = extract_text(html, &job_company_patterns());
    job.location = extract_text(html, &job_location_patterns());
    job.description = extract_text(html, &job_description_patterns());
    job.posted_date = extract_text(html, &job_posted_date_patterns());
    let applicant_text = extract_text(html, &job_applicant_count_patterns());
    job.applicant_count = match applicant_text {
        Some(t) => parse_applicant_count(t.as_str()),
        None => None,
    };
    job.company_linkedin_url = extract_attribute(html, &job_company_link_patterns(), "href");
    job.employment_type = extract_employment_type(html);
    job.seniority_level = extract_seniority_level(html);
    job
}

/// One person search card: the card is kept only when its title, headline
/// and location patterns all work and the title node carries a link; the
/// link, made absolute, becomes the person's canonical URL.
pub open spec fn spec_parse_person_card(f: Seq<char>) -> Option<PersonView> {
    match (
        spec_nth_text(f, spec_person_search_titles_pats(), 0),
        spec_nth_text(f, spec_person_search_headlines_pats(), 0),
        spec_nth_text(f, spec_person_search_locations_pats(), 0),
        spec_extract_attribute(f, spec_person_search_titles_pats(), "href"@),
    ) {
        (Some(nm), Some(hd), Some(lc), Some(href)) => Some(
            PersonView {
                linkedin_url: spec_absolutize(href),
                name: Some(nm),
                headline: Some(hd),
                location: Some(lc),
                about: None,
                experiences: Seq::empty(),
                educations: Seq::empty(),
                interests: Seq::empty(),
                accomplishments: Seq::empty(),
                contacts: Seq::empty(),
                open_to_work: false,
            },
        ),
        _ => None,
    }
}

/// Parses one person search card fragment.
pub fn parse_person_card(frag: &str) -> (p: Option<Person>)
    ensures
        p.deep_view() == spec_parse_person_card(frag@),
{
    let name = nth_text(frag, &person_search_titles_patterns(), 0);
    let headline = nth_text(frag, &person_search_headlines_patterns(), 0);
    let location = nth_text(frag, &person_search_locations_patterns(), 0);
    let href = extract_attribute(frag, &person_search_titles_patterns(), "href");
    match (name, headline, location, href) {
        (Some(nm), Some(hd), Some(lc), Some(hr)) => {
            let mut person = Person::new(absolutize_url(hr.as_str()));
            person.name = Some(nm);
            person.headline = Some(hd);
            person.location = Some(lc);
            proof {
                assert(person.experiences.deep_view() =~= Seq::<ExperienceView>::empty());
                assert(person.educations.deep_view() =~= Seq::<EducationView>::empty());
                assert(person.interests.deep_view() =~= Seq::<
                    crate::models::InterestView,
                >::empty());
                assert(person.accomplishments.deep_view() =~= Seq::<
                    crate::models::AccomplishmentView,
                >::empty());
                assert(person.contacts.deep_view() =~= Seq::<
                    crate::models::ContactView,
                >::empty());
            }
            Some(person)
        },
        _ => None,
    }
}

/// The people among a sequence of search card fragments, in order.
pub open spec fn spec_people_of(frags: Seq<Seq<char>>) -> Seq<PersonView>
    decreases frags.len(),
{
    if frags.len() == 0 {
        Seq::empty()
    } else {
        let rest = spec_people_of(frags.drop_first());
        match spec_parse_person_card(frags[0]) {
            Some(p) => seq![p] + rest,
            None => rest,
        }
    }
}

/// Extracts the person cards of a search page: the cards under the first
/// working card pattern, each parsed; `SelectorExhausted` when no card
/// pattern matches at all.
pub fn extract_people_listings(html: &str) -> (r: Result<Vec<Person>, ScrapeError>)
    ensures
        match r {
            Ok(v) => spec_resolve_frag(html@, spec_person_search_cards_pats()) is Some
                && v.deep_view() == spec_people_of(
                spec_extract_fragments(html@, spec_person_search_cards_pats()),
            ),
            Err(e) => e == ScrapeError::SelectorExhausted && spec_resolve_frag(
                html@,
                spec_person_search_cards_pats(),
            ) is None,
        },
{
    let pats = person_search_cards_patterns();
    match resolve_frag(html, &pats) {
        Ok(_) => {
            let cards = extract_fragments(html, &pats);
            let n = cards.len();
            let ghost all = cards.deep_view();
            let mut out: Vec<Person> = Vec::new();
            let mut i: usize = 0;
            proof {
                assert(all.subrange(0, n as int) =~= all);
                assert(out.deep_view() =~= Seq::<PersonView>::empty());
                assert(Seq::<PersonView>::empty() + spec_people_of(all) =~= spec_people_of(all));
            }
            while i < n
                invariant
                    n == cards@.len(),
                    all == cards.deep_view(),
                    all.len() == n,
                    0 <= i <= n,
                    out.deep_view() + spec_people_of(all.subrange(i as int, n as int))
                        == spec_people_of(all),
                decreases n - i,
            {
                let ghost out0 = out.deep_view();
                let ghost rest = all.subrange(i as int, n as int);
                proof {
                    assert(rest[0] == all[i as int]);
                    assert(rest.drop_first() =~= all.subrange(i + 1, n as int));
                    assert(cards.deep_view()[i as int] == cards@[i as int]@);
                }
                match parse_person_card(cards[i].as_str()) {
                    Some(p) => {
                        out.push(p);
                        proof {
                            assert(out.deep_view() =~= out0 + seq![
                                spec_parse_person_card(all[i as int])->Some_0,
                            ]);
                            assert(out0 + (seq![spec_parse_person_card(rest[0])->Some_0]
                                + spec_people_of(rest.drop_first())) =~= (out0 + seq![
                                spec_parse_person_card(rest[0])->Some_0,
                            ]) + spec_people_of(rest.drop_first()));
                        }
                    },
                    None => {},
                }
                i = i + 1;
            }
            proof {
                assert(all.subrange(n as int, n as int) =~= Seq::<Seq<char>>::empty());
                assert(out.deep_view() + Seq::<PersonView>::empty() =~= out.deep_view());
            }
            Ok(out)
        },
        Err(e) => Err(e),
    }
}

/// One job search card: kept only when its title, company and posted-date
/// patterns all work and the title node carries a link; the location and
/// the company link are optional.
pub open spec fn spec_parse_job_card(f: Seq<char>) -> Option<JobView> {
    match (
        spec_nth_text(f, spec_job_search_titles_pats(), 0),
        spec_nth_text(f, spec_job_search_companies_pats(), 0),
        spec_nth_text(f, spec_job_search_posted_dates_pats(), 0),
        spec_extract_attribute(f, spec_job_search_titles_pats(), "href"@),
    ) {
        (Some(t), Some(co), Some(pd), Some(href)) => Some(
            JobView {
                linkedin_url: spec_absolutize(href),
                title: Some(t),
                company: Some(co),
                company_linkedin_url: opt_absolutize(
                    spec_extract_attribute(f, spec_job_search_company_links_pats(), "href"@),
                ),
                location: spec_nth_text(f, spec_job_search_locations_pats(), 0),
                posted_date: Some(pd),
                applicant_count: None,
                description: None,
                benefits: None,
                employment_type: None,
                seniority_level: None,
            },
        ),
        _ => None,
    }
}

/// Parses one job search card fragment.
pub fn parse_job_card(frag: &str) -> (j: Option<Job>)
    ensures
        j.deep_view() == spec_parse_job_card(frag@),
{
    let title = nth_text(frag, &job_search_titles_patterns(), 0);
    let company = nth_text(frag, &job_search_companies_patterns(), 0);
    let posted = nth_text(frag, &job_search_posted_dates_patterns(), 0);
    let href = extract_attribute(frag, &job_search_titles_patterns(), "href");
    match (title, company, posted, href) {
        (Some(t), Some(co), Some(pd), Some(hr)) => {
            let mut job = Job::new(absolutize_url(hr.as_str()));
            job.title = Some(t);
            job.company = Some(co);
            let clink = extract_attribute(frag, &job_search_company_links_patterns(), "href");
            job.company_linkedin_url = match clink {
                Some(h) => Some(absolutize_url(h.as_str())),
                None => None,
            };
            job.location = nth_text(frag, &job_search_locations_patterns(), 0);
            job.posted_date = Some(pd);
            Some(job)
        },
        _ => None,
    }
}

/// The jobs among a sequence of search card fragments, in order.
pub open spec fn spec_jobs_of(frags: Seq<Seq<char>>) -> Seq<JobView>
    decreases frags.len(),
{
    if frags.len() == 0 {
        Seq::empty()
    } else {
        let rest = spec_jobs_of(frags.drop_first());
        match spec_parse_job_card(frags[0]) {
            Some(j) => seq![j] + rest,
            None => rest,
        }
    }
}

/// Extracts the job cards of a search page: the cards under the first
/// working card pattern, each parsed; `SelectorExhausted` when no card
/// pattern matches at all.
pub fn extract_job_listings(html: &str) -> (r: Result<Vec<Job>, ScrapeError>)
    ensures
        match r {
            Ok(v) => spec_resolve_frag(html@, spec_job_search_cards_pats()) is Some
                && v.deep_view() == spec_jobs_of(
                spec_extract_fragments(html@, spec_job_search_cards_pats()),
            ),
            Err(e) => e == ScrapeError::SelectorExhausted && spec_resolve_frag(
                html@,
                spec_job_search_cards_pats(),
            ) is None,
        },
{
    let pats = job_search_cards_patterns();
    match resolve_frag(html, &pats) {
        Ok(_) => {
            let cards = extract_fragments(html, &pats);
            let n = cards.len();
            let ghost all = cards.deep_view();
            let mut out: Vec<Job> = Vec::new();
            let mut i: usize = 0;
            proof {
                assert(all.subrange(0, n as int) =~= all);
                assert(out.deep_view() =~= Seq::<JobView>::empty());
                assert(Seq::<JobView>::empty() + spec_jobs_of(all) =~= spec_jobs_of(all));
            }
            while i < n
                invariant
                    n == cards@.len(),
                    all == cards.deep_view(),
                    all.len() == n,
                    0 <= i <= n,
                    out.deep_view() + spec_jobs_of(all.subrange(i as int, n as int))
                        == spec_jobs_of(all),
                decreases n - i,
            {
                let ghost out0 = out.deep_view();
                let ghost rest = all.subrange(i as int, n as int);
                proof {
                    assert(rest[0] == all[i as int]);
                    assert(rest.drop_first() =~= all.subrange(i + 1, n as int));
                    assert(cards.deep_view()[i as int] == cards@[i as int]@);
                }
                match parse_job_card(cards[i].as_str()) {
                    Some(j) => {
                        out.push(j);
                        proof {
                            assert(out.deep_view() =~= out0 + seq![
                                spec_parse_job_card(all[i as int])->Some_0,
                            ]);
                            assert(out0 + (seq![spec_parse_job_card(rest[0])->Some_0]
                                + spec_jobs_of(rest.drop_first())) =~= (out0 + seq![
                                spec_parse_job_card(rest[0])->Some_0,
                            ]) + spec_jobs_of(rest.drop_first()));
                        }
                    },
                    None => {},
                }
                i = i + 1;
            }
            proof {
                assert(all.subrange(n as int, n as int) =~= Seq::<Seq<char>>::empty());
                assert(out.deep_view() + Seq::<JobView>::empty() =~= out.deep_view());
            }
            Ok(out)
        },
        Err(e) => Err(e),
    }
}

} // verus!
