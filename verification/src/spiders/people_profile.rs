use vstd::prelude::*;
use vstd::string::*;
use crate::config::Config;
use crate::errors::ScrapeError;
use crate::httpclient::HttpClient;
use crate::items::{
    PersonProfile, PersonProfileView, Experience, ExperienceView, Education, EducationView,
    Project, ProjectView, Language, LanguageView, Activity, ActivityView,
};
use crate::patterns::{
    spec_pp_top_card_pats, spec_pp_name_pats, spec_pp_description_pats, spec_pp_location_pats,
    spec_pp_followers_pats, spec_pp_connections_pats, spec_pp_subline_item_pats,
    spec_pp_experience_item_pats, spec_pp_experience_title_pats, spec_pp_experience_location_pats,
    spec_pp_desc_more_pats, spec_pp_desc_less_pats, spec_pp_date_time_pats, spec_pp_duration_pats,
    spec_pp_company_logo_pats, spec_pp_company_name_pats, spec_pp_education_item_pats,
    spec_pp_education_org_pats, spec_pp_education_link_pats, spec_pp_education_details_pats,
    spec_pp_education_desc_pats, spec_pp_education_date_time_pats, spec_pp_projects_items_pats,
    spec_pp_languages_items_pats, spec_pp_activities_items_pats, spec_person_about_pats,
    pp_top_card_patterns, pp_name_patterns, pp_description_patterns, pp_location_patterns,
    pp_followers_patterns, pp_connections_patterns, pp_subline_item_patterns,
    pp_experience_item_patterns, pp_experience_title_patterns, pp_experience_location_patterns,
    pp_desc_more_patterns, pp_desc_less_patterns, pp_date_time_patterns, pp_duration_patterns,
    pp_company_logo_patterns, pp_company_name_patterns, pp_education_item_patterns,
    pp_education_org_patterns, pp_education_link_patterns, pp_education_details_patterns,
    pp_education_desc_patterns, pp_education_date_time_patterns, pp_projects_items_patterns,
    pp_languages_items_patterns, pp_activities_items_patterns, person_about_patterns,
};
use crate::resolver::{
    spec_nth_text, spec_extract_attribute, spec_extract_fragments, spec_extract_text,
    spec_all_texts_raw, nth_text, extract_attribute, extract_fragments, extract_text,
    all_texts_raw,
};
use crate::strutil::{
    spec_canonical_url, spec_contains_seq, spec_remove_all, spec_join_space, canonical_url,
    contains_str, remove_all, join_space,
};
use crate::target::{Request, spec_meta_map};
use crate::urlenc::{spec_profile_url, profile_url};

verus! {

/// An optional link with its query string stripped.
pub open spec fn opt_canonical(o: Option<Seq<char>>) -> Option<Seq<char>> {
    match o {
        Some(h) => Some(spec_canonical_url(h)),
        None => None,
    }
}

/// The start and end a list of date texts denotes: two texts are a
/// closed range, one text runs to the present, none leaves both open.
pub open spec fn spec_date_range(ds: Seq<Seq<char>>) -> (Option<Seq<char>>, Option<Seq<char>>) {
    if ds.len() == 2 {
        (Some(ds[0]), Some(ds[1]))
    } else if ds.len() == 1 {
        (Some(ds[0]), Some("present"@))
    } else {
        (None, None)
    }
}

/// One experience card of a public profile page.
pub open spec fn spec_pp_experience(f: Seq<char>) -> ExperienceView {
    let range = spec_date_range(spec_all_texts_raw(f, spec_pp_date_time_pats()));
    ExperienceView {
        organization_profile: opt_canonical(
            spec_extract_attribute(f, spec_pp_experience_title_pats(), "href"@),
        ),
        location: spec_nth_text(f, spec_pp_experience_location_pats(), 0),
        description: match spec_nth_text(f, spec_pp_desc_more_pats(), 0) {
            Some(d) => Some(d),
            None => spec_nth_text(f, spec_pp_desc_less_pats(), 0),
        },
        duration: spec_nth_text(f, spec_pp_duration_pats(), 0),
        start_time: spec_date_range(spec_all_texts_raw(f, spec_pp_date_time_pats())).0,
        end_time: range.1,
        logo: spec_extract_attribute(f, spec_pp_company_logo_pats(), "src"@),
        title: spec_nth_text(f, spec_pp_experience_title_pats(), 0),
    }
}

/// Parses one experience card.
pub fn parse_pp_experience(frag: &str) -> (e: Experience)
    ensures
        e.deep_view() == spec_pp_experience(frag@),
{
    let dates = all_texts_raw(frag, &pp_date_time_patterns());
    let ghost dv = dates.deep_view();
    let (start_time, end_time) = date_range(&dates);
    let href = extract_attribute(frag, &pp_experience_title_patterns(), "href");
    let organization_profile = match href {
        Some(h) => Some(canonical_url(h.as_str())),
        None => None,
    };
    let description = match nth_text(frag, &pp_desc_more_patterns(), 0) {
        Some(d) => Some(d),
        None => nth_text(frag, &pp_desc_less_patterns(), 0),
    };
    Experience {
        organization_profile,
        location: nth_text(frag, &pp_experience_location_patterns(), 0),
        description,
        duration: nth_text(frag, &pp_duration_patterns(), 0),
        start_time,
        end_time,
        logo: extract_attribute(frag, &pp_company_logo_patterns(), "src"),
        title: nth_text(frag, &pp_experience_title_patterns(), 0),
    }
}

/// Reads a date-range pair off the date texts of one card.
fn date_range(dates: &Vec<String>) -> (r: (Option<String>, Option<String>))
    ensures
        r.0.deep_view() == spec_date_range(dates.deep_view()).0,
        r.1.deep_view() == spec_date_range(dates.deep_view()).1,
{
    proof {
        if dates@.len() >= 1 {
            assert(dates.deep_view()[0] == dates@[0]@);
        }
        if dates@.len() >= 2 {
            assert(dates.deep_view()[1] == dates@[1]@);
        }
    }
    if dates.len() == 2 {
        (Some(dates[0].clone()), Some(dates[1].clone()))
    } else if dates.len() == 1 {
        (Some(dates[0].clone()), Some(String::from_str("present")))
    } else {
        (None, None)
    }
}

/// One education card of a public profile page: its course details are
/// every detail text joined with single spaces, kept only when non-empty.
pub open spec fn spec_pp_education(f: Seq<char>) -> EducationView {
    let details = spec_join_space(spec_all_texts_raw(f, spec_pp_education_details_pats()));
    let range = spec_date_range(spec_all_texts_raw(f, spec_pp_education_date_time_pats()));
    EducationView {
        organization: match spec_nth_text(f, spec_pp_education_org_pats(), 0) {
            Some(t) => t,
            None => Seq::empty(),
        },
        organization_profile: opt_canonical(
            spec_extract_attribute(f, spec_pp_education_link_pats(), "href"@),
        ),
        course_details: if details.len() == 0 {
            None
        } else {
            Some(details)
        },
        description: spec_nth_text(f, spec_pp_education_desc_pats(), 0),
        start_time: range.0,
        end_time: range.1,
    }
}

/// Parses one education card.
pub fn parse_pp_education(frag: &str) -> (e: Education)
    ensures
        e.deep_view() == spec_pp_education(frag@),
{
    let detail_texts = all_texts_raw(frag, &pp_education_details_patterns());
    let details = join_space(&detail_texts);
    let course_details = if details.as_str().unicode_len() == 0 {
        None
    } else {
        Some(details)
    };
    let dates = all_texts_raw(frag, &pp_education_date_time_patterns());
    let (start_time, end_time) = date_range(&dates);
    let organization = match nth_text(frag, &pp_education_org_patterns(), 0) {
        Some(t) => t,
        None => String::new(),
    };
    let href = extract_attribute(frag, &pp_education_link_patterns(), "href");
    let organization_profile = match href {
        Some(h) => Some(canonical_url(h.as_str())),
        None => None,
    };
    Education {
        organization,
        organization_profile,
        course_details,
        description: nth_text(frag, &pp_education_desc_patterns(), 0),
        start_time,
        end_time,
    }
}

/// One project card of a public profile page.
pub open spec fn spec_pp_project(f: Seq<char>) -> ProjectView {
    ProjectView {
        name: spec_nth_text(f, spec_pp_experience_title_pats(), 0),
        description: spec_nth_text(f, spec_pp_desc_less_pats(), 0),
        url: opt_canonical(spec_extract_attribute(f, spec_pp_education_link_pats(), "href"@)),
    }
}

/// Parses one project card.
pub fn parse_pp_project(frag: &str) -> (p: Project)
    ensures
        p.deep_view() == spec_pp_project(frag@),
{
    let href = extract_attribute(frag, &pp_education_link_patterns(), "href");
    Project {
        name: nth_text(frag, &pp_experience_title_patterns(), 0),
        description: nth_text(frag, &pp_desc_less_patterns(), 0),
        url: match href {
            Some(h) => Some(canonical_url(h.as_str())),
            None => None,
        },
    }
}

/// One language card of a public profile page.
pub open spec fn spec_pp_language(f: Seq<char>) -> LanguageView {
    LanguageView {
        name: spec_nth_text(f, spec_pp_company_name_pats(), 0),
        proficiency: spec_nth_text(f, spec_pp_desc_less_pats(), 0),
    }
}

/// Parses one language card.
pub fn parse_pp_language(frag: &str) -> (l: Language)
    ensures
        l.deep_view() == spec_pp_language(frag@),
{
    Language {
        name: nth_text(frag, &pp_company_name_patterns(), 0),
        proficiency: nth_text(frag, &pp_desc_less_patterns(), 0),
    }
}

/// One activity card of a public profile page.
pub open spec fn spec_pp_activity(f: Seq<char>) -> ActivityView {
    ActivityView {
        title: spec_nth_text(f, spec_pp_experience_title_pats(), 0),
        url: opt_canonical(spec_extract_attribute(f, spec_pp_education_link_pats(), "href"@)),
    }
}

/// Parses one activity card.
pub fn parse_pp_activity(frag: &str) -> (a: Activity)
    ensures
        a.deep_view() == spec_pp_activity(frag@),
{
    let href = extract_attribute(frag, &pp_education_link_patterns(), "href");
    Activity {
        title: nth_text(frag, &pp_experience_title_patterns(), 0),
        url: match href {
            Some(h) => Some(canonical_url(h.as_str())),
            None => None,
        },
    }
}

/// The experience cards of a page, in order.
pub open spec fn spec_pp_experiences_of(frags: Seq<Seq<char>>) -> Seq<ExperienceView>
    decreases frags.len(),
{
    if frags.len() == 0 {
        Seq::empty()
    } else {
        seq![spec_pp_experience(frags[0])] + spec_pp_experiences_of(frags.drop_first())
    }
}

/// The education cards of a page, in order.
pub open spec fn spec_pp_educations_of(frags: Seq<Seq<char>>) -> Seq<EducationView>
    decreases frags.len(),
{
    if frags.len() == 0 {
        Seq::empty()
    } else {
        seq![spec_pp_education(frags[0])] + spec_pp_educations_of(frags.drop_first())
    }
}

/// The project cards of a page, in order.
pub open spec fn spec_pp_projects_of(frags: Seq<Seq<char>>) -> Seq<ProjectView>
    decreases frags.len(),
{
    if frags.len() == 0 {
        Seq::empty()
    } else {
        seq![spec_pp_project(frags[0])] + spec_pp_projects_of(frags.drop_first())
    }
}

/// The language cards of a page, in order.
pub open spec fn spec_pp_languages_of(frags: Seq<Seq<char>>) -> Seq<LanguageView>
    decreases frags.len(),
{
    if frags.len() == 0 {
        Seq::empty()
    } else {
        seq![spec_pp_language(frags[0])] + spec_pp_languages_of(frags.drop_first())
    }
}

/// The activity cards of a page, in order.
pub open spec fn spec_pp_activities_of(frags: Seq<Seq<char>>) -> Seq<ActivityView>
    decreases frags.len(),
{
    if frags.len() == 0 {
        Seq::empty()
    } else {
        seq![spec_pp_activity(frags[0])] + spec_pp_activities_of(frags.drop_first())
    }
}

/// Parses every experience card of a page.
pub fn parse_experience(html: &str) -> (v: Vec<Experience>)
    ensures
        v.deep_view() == spec_pp_experiences_of(
            spec_extract_fragments(html@, spec_pp_experience_item_pats()),
        ),
{
    let frags = extract_fragments(html, &pp_experience_item_patterns());
    let n = frags.len();
    let ghost all = frags.deep_view();
    let mut out: Vec<Experience> = Vec::new();
    let mut i: usize = 0;
    proof {
        assert(all.subrange(0, n as int) =~= all);
        assert(out.deep_view() =~= Seq::<ExperienceView>::empty());
        assert(Seq::<ExperienceView>::empty() + spec_pp_experiences_of(all)
            =~= spec_pp_experiences_of(all));
    }
    while i < n
        invariant
            n == frags@.len(),
            all == frags.deep_view(),
            all.len() == n,
            0 <= i <= n,
            out.deep_view() + spec_pp_experiences_of(all.subrange(i as int, n as int))
                == spec_pp_experiences_of(all),
        decreases n - i,
    {
        let ghost out0 = out.deep_view();
        let ghost rest = all.subrange(i as int, n as int);
        proof {
            assert(rest[0] == all[i as int]);
            assert(rest.drop_first() =~= all.subrange(i + 1, n as int));
            assert(frags.deep_view()[i as int] == frags@[i as int]@);
        }
        let e = parse_pp_experience(frags[i].as_str());
        out.push(e);
        proof {
            assert(out.deep_view() =~= out0 + seq![spec_pp_experience(all[i as int])]);
            assert(out0 + (seq![spec_pp_experience(rest[0])] + spec_pp_experiences_of(
                rest.drop_first(),
            )) =~= (out0 + seq![spec_pp_experience(rest[0])]) + spec_pp_experiences_of(
                rest.drop_first(),
            ));
        }
        i = i + 1;
    }
    proof {
        assert(all.subrange(n as int, n as int) =~= Seq::<Seq<char>>::empty());
        assert(out.deep_view() + Seq::<ExperienceView>::empty() =~= out.deep_view());
    }
    out
}

/// Parses every education card of a page.
pub fn parse_education(html: &str) -> (v: Vec<Education>)
    ensures
        v.deep_view() == spec_pp_educations_of(
            spec_extract_fragments(html@, spec_pp_education_item_pats()),
        ),
{
    let frags = extract_fragments(html, &pp_education_item_patterns());
    let n = frags.len();
    let ghost all = frags.deep_view();
    let mut out: Vec<Education> = Vec::new();
    let mut i: usize = 0;
    proof {
        assert(all.subrange(0, n as int) =~= all);
        assert(out.deep_view() =~= Seq::<EducationView>::empty());
        assert(Seq::<EducationView>::empty() + spec_pp_educations_of(all)
            =~= spec_pp_educations_of(all));
    }
    while i < n
        invariant
            n == frags@.len(),
            all == frags.deep_view(),
            all.len() == n,
            0 <= i <= n,
            out.deep_view() + spec_pp_educations_of(all.subrange(i as int, n as int))
                == spec_pp_educations_of(all),
        decreases n - i,
    {
        let ghost out0 = out.deep_view();
        let ghost rest = all.subrange(i as int, n as int);
        proof {
            assert(rest[0] == all[i as int]);
            assert(rest.drop_first() =~= all.subrange(i + 1, n as int));
            assert(frags.deep_view()[i as int] == frags@[i as int]@);
        }
        let e = parse_pp_education(frags[i].as_str());
        out.push(e);
        proof {
            assert(out.deep_view() =~= out0 + seq![spec_pp_education(all[i as int])]);
            assert(out0 + (seq![spec_pp_education(rest[0])] + spec_pp_educations_of(
                rest.drop_first(),
            )) =~= (out0 + seq![spec_pp_education(rest[0])]) + spec_pp_educations_of(
                rest.drop_first(),
            ));
        }
        i = i + 1;
    }
    proof {
        assert(all.subrange(n as int, n as int) =~= Seq::<Seq<char>>::empty());
        assert(out.deep_view() + Seq::<EducationView>::empty() =~= out.deep_view());
    }
    out
}

/// Parses every project card of a page.
pub fn parse_projects(html: &str) -> (v: Vec<Project>)
    ensures
        v.deep_view() == spec_pp_projects_of(
            spec_extract_fragments(html@, spec_pp_projects_items_pats()),
        ),
{
    let frags = extract_fragments(html, &pp_projects_items_patterns());
    let n = frags.len();
    let ghost all = frags.deep_view();
    let mut out: Vec<Project> = Vec::new();
    let mut i: usize = 0;
    proof {
        assert(all.subrange(0, n as int) =~= all);
        assert(out.deep_view() =~= Seq::<ProjectView>::empty());
        assert(Seq::<ProjectView>::empty() + spec_pp_projects_of(all) =~= spec_pp_projects_of(
            all,
        ));
    }
    while i < n
        invariant
            n == frags@.len(),
            all == frags.deep_view(),
            all.len() == n,
            0 <= i <= n,
            out.deep_view() + spec_pp_projects_of(all.subrange(i as int, n as int))
                == spec_pp_projects_of(all),
        decreases n - i,
    {
        let ghost out0 = out.deep_view();
        let ghost rest = all.subrange(i as int, n as int);
        proof {
            assert(rest[0] == all[i as int]);
            assert(rest.drop_first() =~= all.subrange(i + 1, n as int));
            assert(frags.deep_view()[i as int] == frags@[i as int]@);
        }
        let e = parse_pp_project(frags[i].as_str());
        out.push(e);
        proof {
            assert(out.deep_view() =~= out0 + seq![spec_pp_project(all[i as int])]);
            assert(out0 + (seq![spec_pp_project(rest[0])] + spec_pp_projects_of(
                rest.drop_first(),
            )) =~= (out0 + seq![spec_pp_project(rest[0])]) + spec_pp_projects_of(
                rest.drop_first(),
            ));
        }
        i = i + 1;
    }
    proof {
        assert(all.subrange(n as int, n as int) =~= Seq::<Seq<char>>::empty());
        assert(out.deep_view() + Seq::<ProjectView>::empty() =~= out.deep_view());
    }
    out
}

/// Parses every language card of a page.
pub fn parse_languages(html: &str) -> (v: Vec<Language>)
    ensures
        v.deep_view() == spec_pp_languages_of(
            spec_extract_fragments(html@, spec_pp_languages_items_pats()),
        ),
{
    let frags = extract_fragments(html, &pp_languages_items_patterns());
    let n = frags.len();
    let ghost all = frags.deep_view();
    let mut out: Vec<Language> = Vec::new();
    let mut i: usize = 0;
    proof {
        assert(all.subrange(0, n as int) =~= all);
        assert(out.deep_view() =~= Seq::<LanguageView>::empty());
        assert(Seq::<LanguageView>::empty() + spec_pp_languages_of(all) =~= spec_pp_languages_of(
            all,
        ));
    }
    while i < n
        invariant
            n == frags@.len(),
            all == frags.deep_view(),
            all.len() == n,
            0 <= i <= n,
            out.deep_view() + spec_pp_languages_of(all.subrange(i as int, n as int))
                == spec_pp_languages_of(all),
        decreases n - i,
    {
        let ghost out0 = out.deep_view();
        let ghost rest = all.subrange(i as int, n as int);
        proof {
            assert(rest[0] == all[i as int]);
            assert(rest.drop_first() =~= all.subrange(i + 1, n as int));
            assert(frags.deep_view()[i as int] == frags@[i as int]@);
        }
        let e = parse_pp_language(frags[i].as_str());
        out.push(e);
        proof {
            assert(out.deep_view() =~= out0 + seq![spec_pp_language(all[i as int])]);
            assert(out0 + (seq![spec_pp_language(rest[0])] + spec_pp_languages_of(
                rest.drop_first(),
            )) =~= (out0 + seq![spec_pp_language(rest[0])]) + spec_pp_languages_of(
                rest.drop_first(),
            ));
        }
        i = i + 1;
    }
    proof {
        assert(all.subrange(n as int, n as int) =~= Seq::<Seq<char>>::empty());
        assert(out.deep_view() + Seq::<LanguageView>::empty() =~= out.deep_view());
    }
    out
}

/// Parses every activity card of a page.
pub fn parse_activities(html: &str) -> (v: Vec<Activity>)
    ensures
        v.deep_view() == spec_pp_activities_of(
            spec_extract_fragments(html@, spec_pp_activities_items_pats()),
        ),
{
    let frags = extract_fragments(html, &pp_activities_items_patterns());
    let n = frags.len();
    let ghost all = frags.deep_view();
    let mut out: Vec<Activity> = Vec::new();
    let mut i: usize = 0;
    proof {
        assert(all.subrange(0, n as int) =~= all);
        assert(out.deep_view() =~= Seq::<ActivityView>::empty());
        assert(Seq::<ActivityView>::empty() + spec_pp_activities_of(all)
            =~= spec_pp_activities_of(all));
    }
    while i < n
        invariant
            n == frags@.len(),
            all == frags.deep_view(),
            all.len() == n,
            0 <= i <= n,
            out.deep_view() + spec_pp_activities_of(all.subrange(i as int, n as int))
                == spec_pp_activities_of(all),
        decreases n - i,
    {
        let ghost out0 = out.deep_view();
        let ghost rest = all.subrange(i as int, n as int);
        proof {
            assert(rest[0] == all[i as int]);
            assert(rest.drop_first() =~= all.subrange(i + 1, n as int));
            assert(frags.deep_view()[i as int] == frags@[i as int]@);
        }
        let e = parse_pp_activity(frags[i].as_str());
        out.push(e);
        proof {
            assert(out.deep_view() =~= out0 + seq![spec_pp_activity(all[i as int])]);
            assert(out0 + (seq![spec_pp_activity(rest[0])] + spec_pp_activities_of(
                rest.drop_first(),
            )) =~= (out0 + seq![spec_pp_activity(rest[0])]) + spec_pp_activities_of(
                rest.drop_first(),
            ));
        }
        i = i + 1;
    }
    proof {
        assert(all.subrange(n as int, n as int) =~= Seq::<Seq<char>>::empty());
        assert(out.deep_view() + Seq::<ActivityView>::empty() =~= out.deep_view());
    }
    out
}

/// The about text of a page, resolved through the about candidates.
pub open spec fn spec_pp_about(h: Seq<char>) -> Option<Seq<char>> {
    spec_extract_text(h, spec_person_about_pats())
}

/// Parses the about text of a page.
pub fn parse_about(html: &str) -> (r: Option<String>)
    ensures
        r.deep_view() == spec_pp_about(html@),
{
    extract_text(html, &person_about_patterns())
}

/// One folding step of the subline scan: an item naming followers fills
/// the followers slot (with the marker words removed), one naming
/// connections fills that slot, and any other item fills the location
/// slot; slots already filled stay as they are.
pub open spec fn spec_lfc_step(
    st: (Option<Seq<char>>, Option<Seq<char>>, Option<Seq<char>>),
    item: Seq<char>,
) -> (Option<Seq<char>>, Option<Seq<char>>, Option<Seq<char>>) {
    if spec_contains_seq(item, "followers"@) && st.1 is None {
        (st.0, Some(spec_remove_all(item, " followers"@)), st.2)
    } else if spec_contains_seq(item, "connections"@) && st.2 is None {
        (st.0, st.1, Some(spec_remove_all(item, " connections"@)))
    } else if st.0 is None {
        (Some(item), st.1, st.2)
    } else {
        st
    }
}

/// The subline scan folded over all items, front to back.
pub open spec fn spec_lfc_fold(
    items: Seq<Seq<char>>,
    st: (Option<Seq<char>>, Option<Seq<char>>, Option<Seq<char>>),
) -> (Option<Seq<char>>, Option<Seq<char>>, Option<Seq<char>>)
    decreases items.len(),
{
    if items.len() == 0 {
        st
    } else {
        spec_lfc_fold(items.drop_first(), spec_lfc_step(st, items[0]))
    }
}

/// The location, follower count and connection count of the summary box:
/// each from its own pattern when all three work, otherwise filled in
/// from the subline items.
pub open spec fn spec_lfc(f: Seq<char>) -> (
    Option<Seq<char>>,
    Option<Seq<char>>,
    Option<Seq<char>>,
) {
    let l0 = spec_nth_text(f, spec_pp_location_pats(), 0);
    let f0 = spec_nth_text(f, spec_pp_followers_pats(), 0);
    let c0 = spec_nth_text(f, spec_pp_connections_pats(), 0);
    if l0 is Some && f0 is Some && c0 is Some {
        (l0, f0, c0)
    } else {
        spec_lfc_fold(spec_all_texts_raw(f, spec_pp_subline_item_pats()), (l0, f0, c0))
    }
}

/// Reads location, followers and connections off the summary box.
pub fn extract_location_followers_connections(frag: &str) -> (r: (
    Option<String>,
    Option<String>,
    Option<String>,
))
    ensures
        r.0.deep_view() == spec_lfc(frag@).0,
        r.1.deep_view() == spec_lfc(frag@).1,
        r.2.deep_view() == spec_lfc(frag@).2,
{
    let mut location = nth_text(frag, &pp_location_patterns(), 0);
    let mut followers = nth_text(frag, &pp_followers_patterns(), 0);
    let mut connections = nth_text(frag, &pp_connections_patterns(), 0);
    if location.is_some() && followers.is_some() && connections.is_some() {
        return (location, followers, connections);
    }
    let items = all_texts_raw(frag, &pp_subline_item_patterns());
    let n = items.len();
    let ghost all = items.deep_view();
    let ghost st0 = (location.deep_view(), followers.deep_view(), connections.deep_view());
    let mut i: usize = 0;
    proof {
        assert(all.subrange(0, n as int) =~= all);
    }
    while i < n
        invariant
            n == items@.len(),
            all == items.deep_view(),
            all.len() == n,
            0 <= i <= n,
            spec_lfc_fold(all, st0) == spec_lfc_fold(
                all.subrange(i as int, n as int),
                (location.deep_view(), followers.deep_view(), connections.deep_view()),
            ),
        decreases n - i,
    {
        let ghost st = (location.deep_view(), followers.deep_view(), connections.deep_view());
        let ghost rest = all.subrange(i as int, n as int);
        proof {
            assert(rest[0] == all[i as int]);
            assert(rest.drop_first() =~= all.subrange(i + 1, n as int));
            assert(items.deep_view()[i as int] == items@[i as int]@);
        }
        let item = &items[i];
        proof {
            reveal_strlit(" followers");
            reveal_strlit(" connections");
        }
        if contains_str(item.as_str(), "followers") && followers.is_none() {
            followers = Some(remove_all(item.as_str(), " followers"));
        } else if contains_str(item.as_str(), "connections") && connections.is_none() {
            connections = Some(remove_all(item.as_str(), " connections"));
        } else if location.is_none() {
            location = Some(item.clone());
        }
        proof {
            assert((location.deep_view(), followers.deep_view(), connections.deep_view())
                == spec_lfc_step(st, all[i as int]));
        }
        i = i + 1;
    }
    proof {
        assert(all.subrange(n as int, n as int) =~= Seq::<Seq<char>>::empty());
    }
    (location, followers, connections)
}

/// The person profile a public profile page describes: the top card
/// supplies name, description, location, followers and connections; the
/// body supplies the about text and the card lists.
pub open spec fn spec_pp_parse(
    profile: Seq<char>,
    url: Seq<char>,
    h: Seq<char>,
) -> PersonProfileView {
    let boxes = spec_extract_fragments(h, spec_pp_top_card_pats());
    let lfc = if boxes.len() > 0 {
        spec_lfc(boxes[0])
    } else {
        (None, None, None)
    };
    PersonProfileView {
        profile: profile,
        url: url,
        name: if boxes.len() > 0 {
            match spec_nth_text(boxes[0], spec_pp_name_pats(), 0) {
                Some(t) => t,
                None => Seq::empty(),
            }
        } else {
            Seq::empty()
        },
        description: if boxes.len() > 0 {
            match spec_nth_text(boxes[0], spec_pp_description_pats(), 0) {
                Some(t) => t,
                None => Seq::empty(),
            }
        } else {
            Seq::empty()
        },
        location: lfc.0,
        followers: lfc.1,
        connections: lfc.2,
        about: spec_pp_about(h),
        experience: spec_pp_experiences_of(
            spec_extract_fragments(h, spec_pp_experience_item_pats()),
        ),
        education: spec_pp_educations_of(
            spec_extract_fragments(h, spec_pp_education_item_pats()),
        ),
        projects: spec_pp_projects_of(spec_extract_fragments(h, spec_pp_projects_items_pats())),
        languages: spec_pp_languages_of(
            spec_extract_fragments(h, spec_pp_languages_items_pats()),
        ),
        activities: spec_pp_activities_of(
            spec_extract_fragments(h, spec_pp_activities_items_pats()),
        ),
    }
}

/// An annotation value, or the empty text when the key is absent.
pub open spec fn spec_meta_or_empty(m: Seq<(String, String)>, k: Seq<char>) -> Seq<char> {
    if spec_meta_map(m).contains_key(k) {
        spec_meta_map(m)[k]
    } else {
        Seq::empty()
    }
}

/// What one parsed profile page owes: exactly the person record of the
/// page, under the handle and URL its request was annotated with, and no
/// follow-ups.
pub open spec fn spec_pp_spider_post(
    meta: Seq<(String, String)>,
    h: Seq<char>,
    items: Seq<PersonProfileView>,
    nexts: Seq<Request>,
) -> bool {
    &&& items =~= seq![
        spec_pp_parse(
            spec_meta_or_empty(meta, "profile"@),
            spec_meta_or_empty(meta, "linkedin_url"@),
            h,
        ),
    ]
    &&& nexts.len() == 0
}

/// The people-profile spider: one seed request per profile handle, each
/// annotated with the handle and its URL, and no follow-ups.
pub struct PeopleProfileSpider {
    pub http_client: HttpClient,
    pub profiles: Vec<String>,
}

impl PeopleProfileSpider {
    /// A spider over a list of profile handles.
    pub fn new(config: Config, profiles: Vec<String>) -> (r: Result<
        PeopleProfileSpider,
        ScrapeError,
    >)
        ensures
            r matches Ok(s) && {
                &&& s.http_client.config == config
                &&& s.profiles == profiles
            },
    {
        let http_client = match HttpClient::new(config) {
            Ok(c) => c,
            Err(e) => {
                return Err(e);
            },
        };
        Ok(PeopleProfileSpider { http_client, profiles })
    }

    /// The crawl-task name this spider writes under.
    pub fn name(&self) -> (r: &'static str)
        ensures
            r@ == "linkedin_people_profile"@,
    {
        "linkedin_people_profile"
    }

    /// The profile URL of one handle.
    pub fn build_url(&self, profile: &str) -> (r: String)
        ensures
            r@ == spec_profile_url(profile@),
    {
        profile_url(profile)
    }

    /// The seeds of the crawl: one request per profile, annotated with
    /// the handle and its URL.
    pub fn start_requests(&self) -> (r: Vec<Request>)
        ensures
            r@.len() == self.profiles@.len(),
            forall|i: int|
                0 <= i < r@.len() ==> (#[trigger] r@[i]).url@ == spec_profile_url(
                    self.profiles@[i]@,
                ),
    {
        let n = self.profiles.len();
        let mut v: Vec<Request> = Vec::new();
        let mut i: usize = 0;
        while i < n
            invariant
                n == self.profiles@.len(),
                0 <= i <= n,
                v@.len() == i,
                forall|k: int|
                    0 <= k < i ==> (#[trigger] v@[k]).url@ == spec_profile_url(
                        self.profiles@[k]@,
                    ),
            decreases n - i,
        {
            let url = profile_url(self.profiles[i].as_str());
            let req = Request::new(url.clone()).with_meta(
                String::from_str("profile"),
                self.profiles[i].clone(),
            ).with_meta(String::from_str("linkedin_url"), url);
            v.push(req);
            i = i + 1;
        }
        v
    }

    /// Turns one fetched profile page into its person record; this spider
    /// discovers no follow-up targets. The handle and URL are read back
    /// off the request's annotations.
    pub fn parse(&self, response: &str, request: &Request) -> (r: Result<
        (Vec<PersonProfile>, Vec<Request>),
        ScrapeError,
    >)
        ensures
            r matches Ok(p) && spec_pp_spider_post(
                request.meta@,
                response@,
                p.0.deep_view(),
                (p.1)@,
            ),
    {
        let profile = match request.meta_get("profile") {
            Some(v) => v,
            None => String::new(),
        };
        let url = match request.meta_get("linkedin_url") {
            Some(v) => v,
            None => String::new(),
        };
        let person = parse_person_profile(profile, url, response);
        let mut items: Vec<PersonProfile> = Vec::new();
        items.push(person);
        proof {
            assert(items.deep_view() =~= seq![
                spec_pp_parse(
                    spec_meta_or_empty(request.meta@, "profile"@),
                    spec_meta_or_empty(request.meta@, "linkedin_url"@),
                    response@,
                ),
            ]);
        }
        Ok((items, Vec::new()))
    }
}

/// Parses a public profile page into a person record, under a given
/// handle and URL.
pub fn parse_person_profile(profile: String, url: String, html: &str) -> (p: PersonProfile)
    ensures
        p.deep_view() == spec_pp_parse(profile@, url@, html@),
{
    let boxes = extract_fragments(html, &pp_top_card_patterns());
    proof {
        assert(boxes.deep_view().len() == boxes@.len());
        if boxes@.len() > 0 {
            assert(boxes.deep_view()[0] == boxes@[0]@);
        }
    }
    let (name, description, location, followers, connections) = if boxes.len() > 0 {
        let b = boxes[0].as_str();
        let (l, f, c) = extract_location_followers_connections(b);
        let nm = match nth_text(b, &pp_name_patterns(), 0) {
            Some(t) => t,
            None => String::new(),
        };
        let ds = match nth_text(b, &pp_description_patterns(), 0) {
            Some(t) => t,
            None => String::new(),
        };
        (nm, ds, l, f, c)
    } else {
        (String::new(), String::new(), None, None, None)
    };
    PersonProfile {
        profile,
        url,
        name,
        description,
        location,
        followers,
        connections,
        about: parse_about(html),
        experience: parse_experience(html),
        education: parse_education(html),
        projects: parse_projects(html),
        languages: parse_languages(html),
        activities: parse_activities(html),
    }
}

} // verus!
