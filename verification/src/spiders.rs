pub mod jobs;
pub mod company_profile;
pub mod people_profile;
