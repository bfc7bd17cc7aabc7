use vstd::prelude::*;
use vstd::string::*;
use vstd::map::*;
use crate::config::Config;
use crate::errors::ScrapeError;
use crate::httpclient::HttpClient;
use crate::items::{CompanyProfile, CompanyProfileView};
use crate::patterns::{
    spec_profile_company_name_pats, spec_profile_company_summary_pats,
    spec_profile_company_details_pats, spec_profile_text_md_pats, profile_company_name_patterns,
    profile_company_summary_patterns, profile_company_details_patterns, profile_text_md_patterns,
};
use crate::resolver::{spec_nth_text, spec_extract_fragments, nth_text, extract_fragments};
use crate::spiders::jobs::spec_or_not_found;
use crate::strutil::{spec_decimal, usize_to_string};
use crate::target::{Request, spec_meta_map};

verus! {

/// The detail card at a fixed position of a company page, read as the
/// second markdown text it carries, when the page has enough cards.
pub open spec fn spec_detail_field(h: Seq<char>, i: int) -> Option<Seq<char>> {
    let ds = spec_extract_fragments(h, spec_profile_company_details_pats());
    if 0 <= i < ds.len() {
        spec_nth_text(ds[i], spec_profile_text_md_pats(), 1)
    } else {
        None
    }
}

/// The company profile a page describes: name and summary from the top
/// card (marked rather than dropped when missing), and industry, size and
/// founding read off the detail cards at their fixed positions.
pub open spec fn spec_parse_company_profile(h: Seq<char>) -> CompanyProfileView {
    CompanyProfileView {
        name: spec_or_not_found(spec_nth_text(h, spec_profile_company_name_pats(), 0)),
        summary: spec_or_not_found(spec_nth_text(h, spec_profile_company_summary_pats(), 0)),
        industry: spec_detail_field(h, 1),
        size: spec_detail_field(h, 2),
        founded: spec_detail_field(h, 5),
    }
}

/// Reads the detail card at position `i`.
fn detail_field(html: &str, i: usize) -> (r: Option<String>)
    ensures
        r.deep_view() == spec_detail_field(html@, i as int),
{
    let ds = extract_fragments(html, &profile_company_details_patterns());
    proof {
        assert(ds.deep_view().len() == ds@.len());
    }
    if i < ds.len() {
        proof {
            assert(ds.deep_view()[i as int] == ds@[i as int]@);
        }
        nth_text(ds[i].as_str(), &profile_text_md_patterns(), 1)
    } else {
        None
    }
}

/// Parses one company page into its profile record.
pub fn parse_company_profile(html: &str) -> (c: CompanyProfile)
    ensures
        c.deep_view() == spec_parse_company_profile(html@),
{
    let name = match nth_text(html, &profile_company_name_patterns(), 0) {
        Some(t) => t,
        None => String::from_str("not-found"),
    };
    let summary = match nth_text(html, &profile_company_summary_patterns(), 0) {
        Some(t) => t,
        None => String::from_str("not-found"),
    };
    CompanyProfile {
        name,
        summary,
        industry: detail_field(html, 1),
        size: detail_field(html, 2),
        founded: detail_field(html, 5),
    }
}

/// The company-profile spider: one seed request per company page,
/// annotated with its index, and no follow-ups.
pub struct CompanyProfileSpider {
    pub http_client: HttpClient,
    pub company_pages: Vec<String>,
}

impl CompanyProfileSpider {
    /// A spider over a list of company pages.
    pub fn new(config: Config, company_pages: Vec<String>) -> (r: Result<
        CompanyProfileSpider,
        ScrapeError,
    >)
        ensures
            r matches Ok(s) && {
                &&& s.http_client.config == config
                &&& s.company_pages == company_pages
            },
    {
        let http_client = match HttpClient::new(config) {
            Ok(c) => c,
            Err(e) => {
                return Err(e);
            },
        };
        Ok(CompanyProfileSpider { http_client, company_pages })
    }

    /// The crawl-task name this spider writes under.
    pub fn name(&self) -> (r: &'static str)
        ensures
            r@ == "linkedin_company_profile"@,
    {
        "linkedin_company_profile"
    }

    /// The seeds of the crawl: one request per company page, annotated
    /// with the page's index.
    pub fn start_requests(&self) -> (r: Vec<Request>)
        ensures
            r@.len() == self.company_pages@.len(),
            forall|i: int|
                0 <= i < r@.len() ==> {
                    &&& (#[trigger] r@[i]).url == self.company_pages@[i]
                    &&& spec_meta_map(r@[i].meta@) =~= Map::<Seq<char>, Seq<char>>::empty()
                        .insert("company_index"@, spec_decimal(i))
                },
    {
        let n = self.company_pages.len();
        let mut v: Vec<Request> = Vec::new();
        let mut i: usize = 0;
        while i < n
            invariant
                n == self.company_pages@.len(),
                0 <= i <= n,
                v@.len() == i,
                forall|k: int|
                    0 <= k < i ==> {
                        &&& (#[trigger] v@[k]).url == self.company_pages@[k]
                        &&& spec_meta_map(v@[k].meta@) =~= Map::<Seq<char>, Seq<char>>::empty()
                            .insert("company_index"@, spec_decimal(k))
                    },
            decreases n - i,
        {
            let req = Request::new(self.company_pages[i].clone()).with_meta(
                String::from_str("company_index"),
                usize_to_string(i),
            );
            v.push(req);
            i = i + 1;
        }
        v
    }

    /// Turns one fetched company page into its profile record; this
    /// spider discovers no follow-up targets.
    pub fn parse(&self, response: &str, _request: &Request) -> (r: Result<
        (Vec<CompanyProfile>, Vec<Request>),
        ScrapeError,
    >)
        ensures
            r matches Ok(p) && {
                &&& p.0.deep_view() =~= seq![spec_parse_company_profile(response@)]
                &&& (p.1)@.len() == 0
            },
    {
        let profile = parse_company_profile(response);
        let mut items: Vec<CompanyProfile> = Vec::new();
        items.push(profile);
        Ok((items, Vec::new()))
    }
}

} // verus!
