use vstd::prelude::*;

verus! {

// The structured records assembled from parsed page content. Every field
// other than the canonical source URL may be legitimately absent. Each
// record has a mathematical view (`deep_view`) over character sequences,
// which the extraction contracts speak of.
pub struct ContactView {
    pub name: Option<Seq<char>>,
    pub occupation: Option<Seq<char>>,
    pub url: Option<Seq<char>>,
}

#[derive(Clone, Debug)]
pub struct Contact {
    pub name: Option<String>,
    pub occupation: Option<String>,
    pub url: Option<String>,
}

impl DeepView for Contact {
    type V = ContactView;

    open spec fn deep_view(&self) -> ContactView {
        ContactView {
            name: self.name.deep_view(),
            occupation: self.occupation.deep_view(),
            url: self.url.deep_view(),
        }
    }
}

pub struct InstitutionView {
    pub name: Option<Seq<char>>,
    pub linkedin_url: Option<Seq<char>>,
    pub website: Option<Seq<char>>,
    pub industry: Option<Seq<char>>,
    pub company_type: Option<Seq<char>>,
    pub headquarters: Option<Seq<char>>,
    pub company_size: Option<Seq<char>>,
    pub founded: Option<i32>,
}

#[derive(Clone, Debug)]
pub struct Institution {
    pub name: Option<String>,
    pub linkedin_url: Option<String>,
    pub website: Option<String>,
    pub industry: Option<String>,
    pub company_type: Option<String>,
    pub headquarters: Option<String>,
    pub company_size: Option<String>,
    pub founded: Option<i32>,
}

impl DeepView for Institution {
    type V = InstitutionView;

    open spec fn deep_view(&self) -> InstitutionView {
        InstitutionView {
            name: self.name.deep_view(),
            linkedin_url: self.linkedin_url.deep_view(),
            website: self.website.deep_view(),
            industry: self.industry.deep_view(),
            company_type: self.company_type.deep_view(),
            headquarters: self.headquarters.deep_view(),
            company_size: self.company_size.deep_view(),
            founded: self.founded,
        }
    }
}

pub struct ExperienceView {
    pub title: Option<Seq<char>>,
    pub company: Option<Seq<char>>,
    pub company_linkedin_url: Option<Seq<char>>,
    pub location: Option<Seq<char>>,
    pub from_date: Option<Seq<char>>,
    pub to_date: Option<Seq<char>>,
    pub duration: Option<Seq<char>>,
    pub description: Option<Seq<char>>,
}

#[derive(Clone, Debug)]
pub struct Experience {
    pub title: Option<String>,
    pub company: Option<String>,
    pub company_linkedin_url: Option<String>,
    pub location: Option<String>,
    pub from_date: Option<String>,
    pub to_date: Option<String>,
    pub duration: Option<String>,
    pub description: Option<String>,
}

impl DeepView for Experience {
    type V = ExperienceView;

    open spec fn deep_view(&self) -> ExperienceView {
        ExperienceView {
            title: self.title.deep_view(),
            company: self.company.deep_view(),
            company_linkedin_url: self.company_linkedin_url.deep_view(),
            location: self.location.deep_view(),
            from_date: self.from_date.deep_view(),
            to_date: self.to_date.deep_view(),
            duration: self.duration.deep_view(),
            description: self.description.deep_view(),
        }
    }
}

pub struct EducationView {
    pub school: Option<Seq<char>>,
    pub school_linkedin_url: Option<Seq<char>>,
    pub degree: Option<Seq<char>>,
    pub field_of_study: Option<Seq<char>>,
    pub from_date: Option<Seq<char>>,
    pub to_date: Option<Seq<char>>,
    pub description: Option<Seq<char>>,
}

#[derive(Clone, Debug)]
pub struct Education {
    pub school: Option<String>,
    pub school_linkedin_url: Option<String>,
    pub degree: Option<String>,
    pub field_of_study: Option<String>,
    pub from_date: Option<String>,
    pub to_date: Option<String>,
    pub description: Option<String>,
}

impl DeepView for Education {
    type V = EducationView;

    open spec fn deep_view(&self) -> EducationView {
        EducationView {
            school: self.school.deep_view(),
            school_linkedin_url: self.school_linkedin_url.deep_view(),
            degree: self.degree.deep_view(),
            field_of_study: self.field_of_study.deep_view(),
            from_date: self.from_date.deep_view(),
            to_date: self.to_date.deep_view(),
            description: self.description.deep_view(),
        }
    }
}

pub struct InterestView {
    pub title: Option<Seq<char>>,
}

#[derive(Clone, Debug)]
pub struct Interest {
    pub title: Option<String>,
}

impl DeepView for Interest {
    type V = InterestView;

    open spec fn deep_view(&self) -> InterestView {
        InterestView { title: self.title.deep_view() }
    }
}

pub struct AccomplishmentView {
    pub category: Option<Seq<char>>,
    pub title: Option<Seq<char>>,
}

#[derive(Clone, Debug)]
pub struct Accomplishment {
    pub category: Option<String>,
    pub title: Option<String>,
}

impl DeepView for Accomplishment {
    type V = AccomplishmentView;

    open spec fn deep_view(&self) -> AccomplishmentView {
        AccomplishmentView {
            category: self.category.deep_view(),
            title: self.title.deep_view(),
        }
    }
}

pub struct PersonView {
    pub linkedin_url: Seq<char>,
    pub name: Option<Seq<char>>,
    pub headline: Option<Seq<char>>,
    pub location: Option<Seq<char>>,
    pub about: Option<Seq<char>>,
    pub experiences: Seq<ExperienceView>,
    pub educations: Seq<EducationView>,
    pub interests: Seq<InterestView>,
    pub accomplishments: Seq<AccomplishmentView>,
    pub contacts: Seq<ContactView>,
    pub open_to_work: bool,
}

#[derive(Clone, Debug)]
pub struct Person {
    pub linkedin_url: String,
    pub name: Option<String>,
    pub headline: Option<String>,
    pub location: Option<String>,
    pub about: Option<String>,
    pub experiences: Vec<Experience>,
    pub educations: Vec<Education>,
    pub interests: Vec<Interest>,
    pub accomplishments: Vec<Accomplishment>,
    pub contacts: Vec<Contact>,
    pub open_to_work: bool,
}

impl DeepView for Person {
    type V = PersonView;

    open spec fn deep_view(&self) -> PersonView {
        PersonView {
            linkedin_url: self.linkedin_url@,
            name: self.name.deep_view(),
            headline: self.headline.deep_view(),
            location: self.location.deep_view(),
            about: self.about.deep_view(),
            experiences: self.experiences.deep_view(),
            educations: self.educations.deep_view(),
            interests: self.interests.deep_view(),
            accomplishments: self.accomplishments.deep_view(),
            contacts: self.contacts.deep_view(),
            open_to_work: self.open_to_work,
        }
    }
}

impl Person {
    /// A person record holding only its canonical source URL; every other
    /// field starts absent and the lists start empty.
    pub fn new(linkedin_url: String) -> (p: Person)
        ensures
            p.linkedin_url == linkedin_url,
            p.name is None,
            p.headline is None,
            p.location is None,
            p.about is None,
            p.experiences@ =~= Seq::<Experience>::empty(),
            p.educations@ =~= Seq::<Education>::empty(),
            p.interests@ =~= Seq::<Interest>::empty(),
            p.accomplishments@ =~= Seq::<Accomplishment>::empty(),
            p.contacts@ =~= Seq::<Contact>::empty(),
            p.open_to_work == false,
    {
        Person {
            linkedin_url,
            name: None,
            headline: None,
            location: None,
            about: None,
            experiences: Vec::new(),
            educations: Vec::new(),
            interests: Vec::new(),
            accomplishments: Vec::new(),
            contacts: Vec::new(),
            open_to_work: false,
        }
    }
}

pub struct EmployeeView {
    pub name: Seq<char>,
    pub title: Option<Seq<char>>,
    pub linkedin_url: Option<Seq<char>>,
}

#[derive(Clone, Debug)]
pub struct Employee {
    pub name: String,
    pub title: Option<String>,
    pub linkedin_url: Option<String>,
}

impl DeepView for Employee {
    type V = EmployeeView;

    open spec fn deep_view(&self) -> EmployeeView {
        EmployeeView {
            name: self.name@,
            title: self.title.deep_view(),
            linkedin_url: self.linkedin_url.deep_view(),
        }
    }
}

pub struct CompanyView {
    pub linkedin_url: Seq<char>,
    pub name: Option<Seq<char>>,
    pub about: Option<Seq<char>>,
    pub website: Option<Seq<char>>,
    pub phone: Option<Seq<char>>,
    pub headquarters: Option<Seq<char>>,
    pub founded: Option<i32>,
    pub industry: Option<Seq<char>>,
    pub company_type: Option<Seq<char>>,
    pub company_size: Option<Seq<char>>,
    pub specialties: Seq<Seq<char>>,
    pub employees: Seq<EmployeeView>,
    pub follower_count: Option<i32>,
}

#[derive(Clone, Debug)]
pub struct Company {
    pub linkedin_url: String,
    pub name: Option<String>,
    pub about: Option<String>,
    pub website: Option<String>,
    pub phone: Option<String>,
    pub headquarters: Option<String>,
    pub founded: Option<i32>,
    pub industry: Option<String>,
    pub company_type: Option<String>,
    pub company_size: Option<String>,
    pub specialties: Vec<String>,
    pub employees: Vec<Employee>,
    pub follower_count: Option<i32>,
}

impl DeepView for Company {
    type V = CompanyView;

    open spec fn deep_view(&self) -> CompanyView {
        CompanyView {
            linkedin_url: self.linkedin_url@,
            name: self.name.deep_view(),
            about: self.about.deep_view(),
            website: self.website.deep_view(),
            phone: self.phone.deep_view(),
            headquarters: self.headquarters.deep_view(),
            founded: self.founded,
            industry: self.industry.deep_view(),
            company_type: self.company_type.deep_view(),
            company_size: self.company_size.deep_view(),
            specialties: self.specialties.deep_view(),
            employees: self.employees.deep_view(),
            follower_count: self.follower_count,
        }
    }
}

impl Company {
    /// A company record holding only its canonical source URL.
    pub fn new(linkedin_url: String) -> (c: Company)
        ensures
            c.linkedin_url == linkedin_url,
            c.name is None,
            c.about is None,
            c.website is None,
            c.phone is None,
            c.headquarters is None,
            c.founded is None,
            c.industry is None,
            c.company_type is None,
            c.company_size is None,
            c.specialties@ =~= Seq::<String>::empty(),
            c.employees@ =~= Seq::<Employee>::empty(),
            c.follower_count is None,
    {
        Company {
            linkedin_url,
            name: None,
            about: None,
            website: None,
            phone: None,
            headquarters: None,
            founded: None,
            industry: None,
            company_type: None,
            company_size: None,
            specialties: Vec::new(),
            employees: Vec::new(),
            follower_count: None,
        }
    }
}

pub struct JobView {
    pub linkedin_url: Seq<char>,
    pub title: Option<Seq<char>>,
    pub company: Option<Seq<char>>,
    pub company_linkedin_url: Option<Seq<char>>,
    pub location: Option<Seq<char>>,
    pub posted_date: Option<Seq<char>>,
    pub applicant_count: Option<i32>,
    pub description: Option<Seq<char>>,
    pub benefits: Option<Seq<char>>,
    pub employment_type: Option<Seq<char>>,
    pub seniority_level: Option<Seq<char>>,
}

#[derive(Clone, Debug)]
pub struct Job {
    pub linkedin_url: String,
    pub title: Option<String>,
    pub company: Option<String>,
    pub company_linkedin_url: Option<String>,
    pub location: Option<String>,
    pub posted_date: Option<String>,
    pub applicant_count: Option<i32>,
    pub description: Option<String>,
    pub benefits: Option<String>,
    pub employment_type: Option<String>,
    pub seniority_level: Option<String>,
}

impl DeepView for Job {
    type V = JobView;

    open spec fn deep_view(&self) -> JobView {
        JobView {
            linkedin_url: self.linkedin_url@,
            title: self.title.deep_view(),
            company: self.company.deep_view(),
            company_linkedin_url: self.company_linkedin_url.deep_view(),
            location: self.location.deep_view(),
            posted_date: self.posted_date.deep_view(),
            applicant_count: self.applicant_count,
            description: self.description.deep_view(),
            benefits: self.benefits.deep_view(),
            employment_type: self.employment_type.deep_view(),
            seniority_level: self.seniority_level.deep_view(),
        }
    }
}

impl Job {
    /// A job record holding only its canonical source URL.
    pub fn new(linkedin_url: String) -> (j: Job)
        ensures
            j.linkedin_url == linkedin_url,
            j.title is None,
            j.company is None,
            j.company_linkedin_url is None,
            j.location is None,
            j.posted_date is None,
            j.applicant_count is None,
            j.description is None,
            j.benefits is None,
            j.employment_type is None,
            j.seniority_level is None,
    {
        Job {
            linkedin_url,
            title: None,
            company: None,
            company_linkedin_url: None,
            location: None,
            posted_date: None,
            applicant_count: None,
            description: None,
            benefits: None,
            employment_type: None,
            seniority_level: None,
        }
    }
}

} // verus!
