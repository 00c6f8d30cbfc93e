//! The record types assembled by the collector and consumed by the renderer.

use vstd::prelude::*;

verus! {

/// Personal details: every field is text except the age.
pub struct PersonalInfo {
    pub name: String,
    pub sex: String,
    pub age: u32,
    pub religion: String,
    pub birthdate: String,
    pub fathers_name: String,
    pub mothers_name: String,
    pub marital_status: String,
    pub phone_number: String,
    pub email: String,
    pub address: String,
}

/// One educational qualification.
pub struct Education {
    pub degree: String,
    pub institution: String,
    pub year: String,
}

/// One work experience entry.
pub struct Experience {
    pub job_title: String,
    pub company: String,
    pub duration: String,
    pub responsibilities: String,
    pub expected_salary: String,
}

/// A complete resume: personal details with ordered education and
/// experience entries.
pub struct Resume {
    pub personal_info: PersonalInfo,
    pub education: Vec<Education>,
    pub experience: Vec<Experience>,
}

/// Two personal records hold the same values.
pub open spec fn personal_eq(a: PersonalInfo, b: PersonalInfo) -> bool {
    &&& a.name@ == b.name@
    &&& a.sex@ == b.sex@
    &&& a.age == b.age
    &&& a.religion@ == b.religion@
    &&& a.birthdate@ == b.birthdate@
    &&& a.fathers_name@ == b.fathers_name@
    &&& a.mothers_name@ == b.mothers_name@
    &&& a.marital_status@ == b.marital_status@
    &&& a.phone_number@ == b.phone_number@
    &&& a.email@ == b.email@
    &&& a.address@ == b.address@
}

/// Two education entries hold the same values.
pub open spec fn education_eq(a: Education, b: Education) -> bool {
    &&& a.degree@ == b.degree@
    &&& a.institution@ == b.institution@
    &&& a.year@ == b.year@
}

/// Two experience entries hold the same values.
pub open spec fn experience_eq(a: Experience, b: Experience) -> bool {
    &&& a.job_title@ == b.job_title@
    &&& a.company@ == b.company@
    &&& a.duration@ == b.duration@
    &&& a.responsibilities@ == b.responsibilities@
    &&& a.expected_salary@ == b.expected_salary@
}

/// Two resumes hold the same values, entry by entry.
pub open spec fn resume_eq(a: Resume, b: Resume) -> bool {
    &&& personal_eq(a.personal_info, b.personal_info)
    &&& a.education@.len() == b.education@.len()
    &&& forall|i: int|
        0 <= i < a.education@.len() ==> education_eq(#[trigger] a.education@[i], b.education@[i])
    &&& a.experience@.len() == b.experience@.len()
    &&& forall|i: int|
        0 <= i < a.experience@.len() ==> experience_eq(
            #[trigger] a.experience@[i],
            b.experience@[i],
        )
}

} // verus!
