use vstd::prelude::*;

verus! {

// The item records that the crawl spiders produce. They differ from the
// client-side records in `models`: these mirror what one spider run emits
// to the sink, with the few mandatory fields its pages always carry.
pub struct CompanyProfileView {
    pub name: Seq<char>,
    pub summary: Seq<char>,
    pub industry: Option<Seq<char>>,
    pub size: Option<Seq<char>>,
    pub founded: Option<Seq<char>>,
}

#[derive(Clone, Debug)]
pub struct CompanyProfile {
    pub name: String,
    pub summary: String,
    pub industry: Option<String>,
    pub size: Option<String>,
    pub founded: Option<String>,
}

impl DeepView for CompanyProfile {
    type V = CompanyProfileView;

    open spec fn deep_view(&self) -> CompanyProfileView {
        CompanyProfileView {
            name: self.name@,
            summary: self.summary@,
            industry: self.industry.deep_view(),
            size: self.size.deep_view(),
            founded: self.founded.deep_view(),
        }
    }
}

pub struct JobListingView {
    pub job_title: Seq<char>,
    pub job_detail_url: Seq<char>,
    pub job_listed: Seq<char>,
    pub company_name: Seq<char>,
    pub company_link: Seq<char>,
    pub company_location: Seq<char>,
}

#[derive(Clone, Debug)]
pub struct JobListing {
    pub job_title: String,
    pub job_detail_url: String,
    pub job_listed: String,
    pub company_name: String,
    pub company_link: String,
    pub company_location: String,
}

impl DeepView for JobListing {
    type V = JobListingView;

    open spec fn deep_view(&self) -> JobListingView {
        JobListingView {
            job_title: self.job_title@,
            job_detail_url: self.job_detail_url@,
            job_listed: self.job_listed@,
            company_name: self.company_name@,
            company_link: self.company_link@,
            company_location: self.company_location@,
        }
    }
}

pub struct ExperienceView {
    pub organization_profile: Option<Seq<char>>,
    pub location: Option<Seq<char>>,
    pub description: Option<Seq<char>>,
    pub duration: Option<Seq<char>>,
    pub start_time: Option<Seq<char>>,
    pub end_time: Option<Seq<char>>,
    pub logo: Option<Seq<char>>,
    pub title: Option<Seq<char>>,
}

#[derive(Clone, Debug)]
pub struct Experience {
    pub organization_profile: Option<String>,
    pub location: Option<String>,
    pub description: Option<String>,
    pub duration: Option<String>,
    pub start_time: Option<String>,
    pub end_time: Option<String>,
    pub logo: Option<String>,
    pub title: Option<String>,
}

impl DeepView for Experience {
    type V = ExperienceView;

    open spec fn deep_view(&self) -> ExperienceView {
        ExperienceView {
            organization_profile: self.organization_profile.deep_view(),
            location: self.location.deep_view(),
            description: self.description.deep_view(),
            duration: self.duration.deep_view(),
            start_time: self.start_time.deep_view(),
            end_time: self.end_time.deep_view(),
            logo: self.logo.deep_view(),
            title: self.title.deep_view(),
        }
    }
}

pub struct EducationView {
    pub organization: Seq<char>,
    pub organization_profile: Option<Seq<char>>,
    pub course_details: Option<Seq<char>>,
    pub description: Option<Seq<char>>,
    pub start_time: Option<Seq<char>>,
    pub end_time: Option<Seq<char>>,
}

#[derive(Clone, Debug)]
pub struct Education {
    pub organization: String,
    pub organization_profile: Option<String>,
    pub course_details: Option<String>,
    pub description: Option<String>,
    pub start_time: Option<String>,
    pub end_time: Option<String>,
}

impl DeepView for Education {
    type V = EducationView;

    open spec fn deep_view(&self) -> EducationView {
        EducationView {
            organization: self.organization@,
            organization_profile: self.organization_profile.deep_view(),
            course_details: self.course_details.deep_view(),
            description: self.description.deep_view(),
            start_time: self.start_time.deep_view(),
            end_time: self.end_time.deep_view(),
        }
    }
}

pub struct ProjectView {
    pub name: Option<Seq<char>>,
    pub description: Option<Seq<char>>,
    pub url: Option<Seq<char>>,
}

#[derive(Clone, Debug)]
pub struct Project {
    pub name: Option<String>,
    pub description: Option<String>,
    pub url: Option<String>,
}

impl DeepView for Project {
    type V = ProjectView;

    open spec fn deep_view(&self) -> ProjectView {
        ProjectView {
            name: self.name.deep_view(),
            description: self.description.deep_view(),
            url: self.url.deep_view(),
        }
    }
}

pub struct LanguageView {
    pub name: Option<Seq<char>>,
    pub proficiency: Option<Seq<char>>,
}

#[derive(Clone, Debug)]
pub struct Language {
    pub name: Option<String>,
    pub proficiency: Option<String>,
}

impl DeepView for Language {
    type V = LanguageView;

    open spec fn deep_view(&self) -> LanguageView {
        LanguageView { name: self.name.deep_view(), proficiency: self.proficiency.deep_view() }
    }
}

pub struct ActivityView {
    pub title: Option<Seq<char>>,
    pub url: Option<Seq<char>>,
}

#[derive(Clone, Debug)]
pub struct Activity {
    pub title: Option<String>,
    pub url: Option<String>,
}

impl DeepView for Activity {
    type V = ActivityView;

    open spec fn deep_view(&self) -> ActivityView {
        ActivityView { title: self.title.deep_view(), url: self.url.deep_view() }
    }
}

pub struct PersonProfileView {
    pub profile: Seq<char>,
    pub url: Seq<char>,
    pub name: Seq<char>,
    pub description: Seq<char>,
    pub about: Option<Seq<char>>,
    pub location: Option<Seq<char>>,
    pub followers: Option<Seq<char>>,
    pub connections: Option<Seq<char>>,
    pub experience: Seq<ExperienceView>,
    pub education: Seq<EducationView>,
    pub projects: Seq<ProjectView>,
    pub languages: Seq<LanguageView>,
    pub activities: Seq<ActivityView>,
}

#[derive(Clone, Debug)]
pub struct PersonProfile {
    pub profile: String,
    pub url: String,
    pub name: String,
    pub description: String,
    pub about: Option<String>,
    pub location: Option<String>,
    pub followers: Option<String>,
    pub connections: Option<String>,
    pub experience: Vec<Experience>,
    pub education: Vec<Education>,
    pub projects: Vec<Project>,
    pub languages: Vec<Language>,
    pub activities: Vec<Activity>,
}

impl DeepView for PersonProfile {
    type V = PersonProfileView;

    open spec fn deep_view(&self) -> PersonProfileView {
        PersonProfileView {
            profile: self.profile@,
            url: self.url@,
            name: self.name@,
            description: self.description@,
            about: self.about.deep_view(),
            location: self.location.deep_view(),
            followers: self.followers.deep_view(),
            connections: self.connections.deep_view(),
            experience: self.experience.deep_view(),
            education: self.education.deep_view(),
            projects: self.projects.deep_view(),
            languages: self.languages.deep_view(),
            activities: self.activities.deep_view(),
        }
    }
}

} // verus!
