use vstd::prelude::*;
use vstd::string::*;

verus! {

/// The percent-encoded form of a text, as `urlencoding::encode` computes
/// it.
pub uninterp spec fn url_encoded(s: Seq<char>) -> Seq<char>;

/// Relies on urlencoding::encode: percent-encodes every byte except ASCII
/// alphanumerics and `-`, `_`, `.`, `~`; the result depends on the text
/// alone, and an empty text stays empty.
#[verifier::external_body]
pub(crate) fn url_encode(s: &str) -> (r: String)
    ensures
        r@ == url_encoded(s@),
        s@.len() == 0 ==> r@.len() == 0,
{
    urlencoding::encode(s).into_owned()
}

/// The search URL for people: the keywords always, the location only when
/// given, both percent-encoded.
pub open spec fn spec_people_search_url(q: Seq<char>, loc: Option<Seq<char>>) -> Seq<char> {
    let base = "https://www.linkedin.com/search/results/people/?keywords="@ + url_encoded(q);
    match loc {
        Some(l) => base + "&geoUrn="@ + url_encoded(l),
        None => base,
    }
}

/// Builds the people-search URL for a query and an optional location.
pub fn people_search_url(query: &str, location: Option<&str>) -> (r: String)
    ensures
        r@ == spec_people_search_url(query@, location.deep_view()),
{
    let enc = url_encode(query);
    let base = String::from_str("https://www.linkedin.com/search/results/people/?keywords=")
        .concat(enc.as_str());
    match location {
        Some(l) => {
            let encl = url_encode(l);
            base.concat("&geoUrn=").concat(encl.as_str())
        },
        None => base,
    }
}

/// The search URL for jobs: keywords always, location only when given.
pub open spec fn spec_jobs_search_url(q: Seq<char>, loc: Option<Seq<char>>) -> Seq<char> {
    let base = "https://www.linkedin.com/jobs/search/?keywords="@ + url_encoded(q);
    match loc {
        Some(l) => base + "&location="@ + url_encoded(l),
        None => base,
    }
}

/// Builds the job-search URL for a query and an optional location.
pub fn jobs_search_url(query: &str, location: Option<&str>) -> (r: String)
    ensures
        r@ == spec_jobs_search_url(query@, location.deep_view()),
{
    let enc = url_encode(query);
    let base = String::from_str("https://www.linkedin.com/jobs/search/?keywords=").concat(
        enc.as_str(),
    );
    match location {
        Some(l) => {
            let encl = url_encode(l);
            base.concat("&location=").concat(encl.as_str())
        },
        None => base,
    }
}

/// The guest API endpoint that pages job search results; a page offset is
/// appended to it when a request is built.
pub open spec fn spec_jobs_api_url(k: Seq<char>, l: Seq<char>) -> Seq<char> {
    "https://www.linkedin.com/jobs-guest/jobs/api/seeMoreJobPostings/search?keywords="@
        + url_encoded(k) + "&location="@ + url_encoded(l) + "&start="@
}

/// Builds the paged job-search API prefix for keywords and location.
pub fn jobs_api_url(keywords: &str, location: &str) -> (r: String)
    ensures
        r@ == spec_jobs_api_url(keywords@, location@),
{
    let enck = url_encode(keywords);
    let encl = url_encode(location);
    String::from_str(
        "https://www.linkedin.com/jobs-guest/jobs/api/seeMoreJobPostings/search?keywords=",
    ).concat(enck.as_str()).concat("&location=").concat(encl.as_str()).concat("&start=")
}

/// The profile URL of a public profile handle.
pub open spec fn spec_profile_url(profile: Seq<char>) -> Seq<char> {
    "https://www.linkedin.com/in/"@ + profile + "/"@
}

/// Builds the profile URL for a handle.
pub fn profile_url(profile: &str) -> (r: String)
    ensures
        r@ == spec_profile_url(profile@),
{
    String::from_str("https://www.linkedin.com/in/").concat(profile).concat("/")
}

/// The people page of a company.
pub open spec fn spec_employees_url(company_url: Seq<char>) -> Seq<char> {
    company_url + "/people"@
}

/// Builds the employees-page URL of a company page.
pub fn employees_url(company_url: &str) -> (r: String)
    ensures
        r@ == spec_employees_url(company_url@),
{
    String::from_str(company_url).concat("/people")
}

} // verus!
