use vstd::prelude::*;
use vstd::string::*;
use vstd::map::*;
use crate::config::Config;
use crate::errors::ScrapeError;
use crate::httpclient::HttpClient;
use crate::items::{JobListing, JobListingView};
use crate::patterns::{
    spec_listing_job_item_pats, spec_listing_job_title_pats, spec_listing_job_url_pats,
    spec_listing_job_time_pats, spec_listing_company_name_pats, spec_listing_job_location_pats,
    listing_job_item_patterns, listing_job_title_patterns, listing_job_url_patterns,
    listing_job_time_patterns, listing_company_name_patterns, listing_job_location_patterns,
};
use crate::resolver::{
    spec_nth_text, spec_extract_attribute, spec_extract_fragments, nth_text, extract_attribute,
    extract_fragments,
};
use crate::strutil::{
    spec_all_digits, spec_decimal_value, spec_decimal, parse_usize, usize_to_string,
};
use crate::target::{Request, spec_meta_map};
use crate::urlenc::{spec_jobs_api_url, jobs_api_url};

verus! {

/// A missing listing field is recorded as this marker rather than
/// aborting the card.
pub open spec fn spec_or_not_found(o: Option<Seq<char>>) -> Seq<char> {
    match o {
        Some(t) => t,
        None => "not-found"@,
    }
}

/// One job card of the paged guest listing: each field taken from its
/// pattern, the detail and company links read off their nodes, and any
/// missing field marked rather than dropped.
pub open spec fn spec_parse_listing(f: Seq<char>) -> JobListingView {
    JobListingView {
        job_title: spec_or_not_found(spec_nth_text(f, spec_listing_job_title_pats(), 0)),
        job_detail_url: spec_or_not_found(
            spec_extract_attribute(f, spec_listing_job_url_pats(), "href"@),
        ),
        job_listed: spec_or_not_found(spec_nth_text(f, spec_listing_job_time_pats(), 0)),
        company_name: spec_or_not_found(spec_nth_text(f, spec_listing_company_name_pats(), 0)),
        company_link: spec_or_not_found(
            spec_extract_attribute(f, spec_listing_company_name_pats(), "href"@),
        ),
        company_location: spec_or_not_found(
            spec_nth_text(f, spec_listing_job_location_pats(), 0),
        ),
    }
}

/// The listings of a sequence of card fragments, in order.
pub open spec fn spec_listings_of(frags: Seq<Seq<char>>) -> Seq<JobListingView>
    decreases frags.len(),
{
    if frags.len() == 0 {
        Seq::empty()
    } else {
        seq![spec_parse_listing(frags[0])] + spec_listings_of(frags.drop_first())
    }
}

/// The page offset an annotation map carries, or zero when it is absent
/// or unreadable.
pub open spec fn spec_page_offset(m: Map<Seq<char>, Seq<char>>) -> int {
    let k = "first_job_on_page"@;
    if m.contains_key(k) && m[k].len() > 0 && spec_all_digits(m[k]) && spec_decimal_value(m[k])
        <= usize::MAX {
        spec_decimal_value(m[k])
    } else {
        0
    }
}

/// The offset of the next page: one page of twenty-five further, capped
/// at the machine limit.
pub open spec fn spec_next_offset(first: int) -> int {
    if first + 25 <= usize::MAX {
        first + 25
    } else {
        usize::MAX as int
    }
}

/// What one parsed listing page owes: its cards in order, and the
/// follow-up request for the next offset exactly when the page still
/// carried cards.
pub open spec fn spec_jobs_page_post(
    api_url: Seq<char>,
    req_meta: Seq<(String, String)>,
    h: Seq<char>,
    items: Seq<JobListingView>,
    nexts: Seq<Request>,
) -> bool {
    let frags = spec_extract_fragments(h, spec_listing_job_item_pats());
    let next = spec_next_offset(spec_page_offset(spec_meta_map(req_meta)));
    &&& items == spec_listings_of(frags)
    &&& (frags.len() == 0 ==> nexts.len() == 0)
    &&& (frags.len() > 0 ==> {
        &&& nexts.len() == 1
        &&& nexts[0].url@ == api_url + spec_decimal(next)
        &&& spec_meta_map(nexts[0].meta@) =~= Map::<Seq<char>, Seq<char>>::empty().insert(
            "first_job_on_page"@,
            spec_decimal(next),
        )
    })
}

/// Parses one listing card fragment.
pub fn parse_listing_item(frag: &str) -> (e: JobListing)
    ensures
        e.deep_view() == spec_parse_listing(frag@),
{
    let job_title = or_not_found(nth_text(frag, &listing_job_title_patterns(), 0));
    let job_detail_url = or_not_found(
        extract_attribute(frag, &listing_job_url_patterns(), "href"),
    );
    let job_listed = or_not_found(nth_text(frag, &listing_job_time_patterns(), 0));
    let company_name = or_not_found(nth_text(frag, &listing_company_name_patterns(), 0));
    let company_link = or_not_found(
        extract_attribute(frag, &listing_company_name_patterns(), "href"),
    );
    let company_location = or_not_found(nth_text(frag, &listing_job_location_patterns(), 0));
    JobListing {
        job_title,
        job_detail_url,
        job_listed,
        company_name,
        company_link,
        company_location,
    }
}

/// An absent field becomes the marker text.
fn or_not_found(o: Option<String>) -> (r: String)
    ensures
        r@ == spec_or_not_found(o.deep_view()),
{
    match o {
        Some(t) => t,
        None => String::from_str("not-found"),
    }
}

/// The job-search spider: it seeds one request at offset zero against the
/// paged guest API and, as long as a page still carries cards, follows up
/// with the next page, twenty-five jobs further.
pub struct JobsSpider {
    pub http_client: HttpClient,
    pub api_url: String,
    pub keywords: String,
    pub location: String,
}

impl JobsSpider {
    /// A spider for one keyword and location search.
    pub fn new(config: Config, keywords: String, location: String) -> (r: Result<
        JobsSpider,
        ScrapeError,
    >)
        ensures
            r matches Ok(s) && {
                &&& s.http_client.config == config
                &&& s.api_url@ == spec_jobs_api_url(keywords@, location@)
                &&& s.keywords == keywords
                &&& s.location == location
            },
    {
        let api_url = jobs_api_url(keywords.as_str(), location.as_str());
        let http_client = match HttpClient::new(config) {
            Ok(c) => c,
            Err(e) => {
                return Err(e);
            },
        };
        Ok(JobsSpider { http_client, api_url, keywords, location })
    }

    /// The crawl-task name this spider writes under.
    pub fn name(&self) -> (r: &'static str)
        ensures
            r@ == "linkedin_jobs"@,
    {
        "linkedin_jobs"
    }

    pub fn get_keywords(&self) -> (r: &str)
        ensures
            r@ == self.keywords@,
    {
        self.keywords.as_str()
    }

    pub fn get_location(&self) -> (r: &str)
        ensures
            r@ == self.location@,
    {
        self.location.as_str()
    }

    /// The seed of the crawl: the first page, at offset zero, annotated
    /// with its offset.
    pub fn start_requests(&self) -> (r: Vec<Request>)
        ensures
            r@.len() == 1,
            r@[0].url@ == self.api_url@ + spec_decimal(0),
            spec_meta_map(r@[0].meta@) =~= Map::<Seq<char>, Seq<char>>::empty().insert(
                "first_job_on_page"@,
                spec_decimal(0),
            ),
    {
        let zero = usize_to_string(0);
        let url = self.api_url.clone().concat(zero.as_str());
        let req = Request::new(url).with_meta(String::from_str("first_job_on_page"), zero);
        let mut v: Vec<Request> = Vec::new();
        v.push(req);
        v
    }

    /// Turns one fetched listing page into its job cards and, when the
    /// page still carried cards, the follow-up request for the next page
    /// offset; a page without cards ends the pagination.
    pub fn parse(&self, response: &str, request: &Request) -> (r: Result<
        (Vec<JobListing>, Vec<Request>),
        ScrapeError,
    >)
        ensures
            r matches Ok(p) && spec_jobs_page_post(
                self.api_url@,
                request.meta@,
                response@,
                p.0.deep_view(),
                (p.1)@,
            ),
    {
        let first: usize = match request.meta_get("first_job_on_page") {
            Some(v) => match parse_usize(v.as_str()) {
                Some(n) => n,
                None => 0,
            },
            None => 0,
        };
        let frags = extract_fragments(response, &listing_job_item_patterns());
        let n = frags.len();
        let ghost all = frags.deep_view();
        let mut items: Vec<JobListing> = Vec::new();
        let mut i: usize = 0;
        proof {
            assert(all.subrange(0, n as int) =~= all);
            assert(items.deep_view() =~= Seq::<JobListingView>::empty());
            assert(Seq::<JobListingView>::empty() + spec_listings_of(all) =~= spec_listings_of(
                all,
            ));
        }
        while i < n
            invariant
                n == frags@.len(),
                all == frags.deep_view(),
                all.len() == n,
                0 <= i <= n,
                items.deep_view() + spec_listings_of(all.subrange(i as int, n as int))
                    == spec_listings_of(all),
            decreases n - i,
        {
            let ghost out0 = items.deep_view();
            let ghost rest = all.subrange(i as int, n as int);
            proof {
                assert(rest[0] == all[i as int]);
                assert(rest.drop_first() =~= all.subrange(i + 1, n as int));
                assert(frags.deep_view()[i as int] == frags@[i as int]@);
            }
            let e = parse_listing_item(frags[i].as_str());
            items.push(e);
            proof {
                assert(items.deep_view() =~= out0 + seq![spec_parse_listing(all[i as int])]);
                assert(out0 + (seq![spec_parse_listing(rest[0])] + spec_listings_of(
                    rest.drop_first(),
                )) =~= (out0 + seq![spec_parse_listing(rest[0])]) + spec_listings_of(
                    rest.drop_first(),
                ));
            }
            i = i + 1;
        }
        proof {
            assert(all.subrange(n as int, n as int) =~= Seq::<Seq<char>>::empty());
            assert(items.deep_view() + Seq::<JobListingView>::empty() =~= items.deep_view());
        }
        let mut nexts: Vec<Request> = Vec::new();
        if n > 0 {
            let next: usize = if first <= usize::MAX - 25 {
                first + 25
            } else {
                usize::MAX
            };
            let next_str = usize_to_string(next);
            let next_url = self.api_url.clone().concat(next_str.as_str());
            let req = Request::new(next_url).with_meta(
                String::from_str("first_job_on_page"),
                next_str,
            );
            nexts.push(req);
        }
        Ok((items, nexts))
    }
}

} // verus!
