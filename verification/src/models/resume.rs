//! Resumes.

use vstd::prelude::*;

use crate::ident::ObjectId;
use crate::store::{Owned, Record};
use crate::values::{copy_text, copy_texts, Timestamp};

verus! {

#[derive(Debug, Clone, PartialEq, Eq)]
pub struct PersonalInfo {
    pub full_name: String,
    pub email: String,
    pub phone: Option<String>,
    pub location: Option<String>,
    pub website: Option<String>,
    pub linkedin: Option<String>,
    pub github: Option<String>,
}

#[derive(Debug, Clone, PartialEq, Eq)]
pub struct Experience {
    pub company: String,
    pub position: String,
    pub location: Option<String>,
    pub start_date: String,
    pub end_date: Option<String>,
    pub description: String,
    pub achievements: Vec<String>,
}

#[derive(Debug, Clone, PartialEq, Eq)]
pub struct Education {
    pub institution: String,
    pub degree: String,
    pub field: String,
    pub start_date: String,
    pub end_date: Option<String>,
    pub gpa: Option<String>,
}

#[derive(Debug, Clone, PartialEq, Eq)]
pub struct Certification {
    pub name: String,
    pub issuer: String,
    pub date: String,
    pub credential_id: Option<String>,
}

#[derive(Debug, Clone, PartialEq, Eq)]
pub struct Language {
    pub name: String,
    pub proficiency: String,
}

#[derive(Debug, Clone, PartialEq, Eq)]
pub struct Resume {
    pub id: Option<ObjectId>,
    pub user_id: ObjectId,
    pub title: String,
    pub personal_info: PersonalInfo,
    pub summary: Option<String>,
    pub experience: Vec<Experience>,
    pub education: Vec<Education>,
    pub skills: Vec<String>,
    pub certifications: Option<Vec<Certification>>,
    pub languages: Option<Vec<Language>>,
    pub template: String,
    pub created_at: Timestamp,
    pub updated_at: Timestamp,
}

#[derive(Debug, Clone, PartialEq, Eq)]
pub struct CreateResumeRequest {
    pub title: String,
    pub personal_info: PersonalInfo,
    pub summary: Option<String>,
    pub experience: Vec<Experience>,
    pub education: Vec<Education>,
    pub skills: Vec<String>,
    pub certifications: Option<Vec<Certification>>,
    pub languages: Option<Vec<Language>>,
    pub template: Option<String>,
}

#[derive(Debug, Clone, PartialEq, Eq)]
pub struct OptimizeResumeRequest {
    pub resume_id: String,
    pub job_description: String,
}

/// What one position in a resume holds.
pub struct ExperienceView {
    pub company: String,
    pub position: String,
    pub location: Option<String>,
    pub start_date: String,
    pub end_date: Option<String>,
    pub description: String,
    pub achievements: Seq<String>,
}

/// What a resume holds.
pub struct ResumeView {
    pub id: Option<ObjectId>,
    pub user_id: ObjectId,
    pub title: String,
    pub personal_info: PersonalInfo,
    pub summary: Option<String>,
    pub experience: Seq<ExperienceView>,
    pub education: Seq<Education>,
    pub skills: Seq<String>,
    pub certifications: Option<Seq<Certification>>,
    pub languages: Option<Seq<Language>>,
    pub template: Seq<char>,
    pub created_at: Timestamp,
    pub updated_at: Timestamp,
}

impl View for Experience {
    type V = ExperienceView;

    open spec fn view(&self) -> ExperienceView {
        ExperienceView {
            company: self.company,
            position: self.position,
            location: self.location,
            start_date: self.start_date,
            end_date: self.end_date,
            description: self.description,
            achievements: self.achievements@,
        }
    }
}

/// The contents of an optional list.
pub open spec fn listed<A>(list: Option<Vec<A>>) -> Option<Seq<A>> {
    match list {
        Some(l) => Some(l@),
        None => None,
    }
}

/// What each position of a list holds.
pub open spec fn positions(list: Seq<Experience>) -> Seq<ExperienceView> {
    list.map_values(|e: Experience| e@)
}

impl View for Resume {
    type V = ResumeView;

    open spec fn view(&self) -> ResumeView {
        ResumeView {
            id: self.id,
            user_id: self.user_id,
            title: self.title,
            personal_info: self.personal_info,
            summary: self.summary,
            experience: positions(self.experience@),
            education: self.education@,
            skills: self.skills@,
            certifications: listed(self.certifications),
            languages: listed(self.languages),
            template: self.template@,
            created_at: self.created_at,
            updated_at: self.updated_at,
        }
    }
}

impl PersonalInfo {
    pub fn duplicate(&self) -> (copy: PersonalInfo)
        ensures
            copy == *self,
    {
        PersonalInfo {
            full_name: self.full_name.clone(),
            email: self.email.clone(),
            phone: copy_text(&self.phone),
            location: copy_text(&self.location),
            website: copy_text(&self.website),
            linkedin: copy_text(&self.linkedin),
            github: copy_text(&self.github),
        }
    }
}

impl Experience {
    pub fn duplicate(&self) -> (copy: Experience)
        ensures
            copy@ == self@,
    {
        Experience {
            company: self.company.clone(),
            position: self.position.clone(),
            location: copy_text(&self.location),
            start_date: self.start_date.clone(),
            end_date: copy_text(&self.end_date),
            description: self.description.clone(),
            achievements: copy_texts(&self.achievements),
        }
    }
}

impl Education {
    pub fn duplicate(&self) -> (copy: Education)
        ensures
            copy == *self,
    {
        Education {
            institution: self.institution.clone(),
            degree: self.degree.clone(),
            field: self.field.clone(),
            start_date: self.start_date.clone(),
            end_date: copy_text(&self.end_date),
            gpa: copy_text(&self.gpa),
        }
    }
}

impl Certification {
    pub fn duplicate(&self) -> (copy: Certification)
        ensures
            copy == *self,
    {
        Certification {
            name: self.name.clone(),
            issuer: self.issuer.clone(),
            date: self.date.clone(),
            credential_id: copy_text(&self.credential_id),
        }
    }
}

impl Language {
    pub fn duplicate(&self) -> (copy: Language)
        ensures
            copy == *self,
    {
        Language { name: self.name.clone(), proficiency: self.proficiency.clone() }
    }
}

fn copy_experience(list: &Vec<Experience>) -> (copy: Vec<Experience>)
    ensures
        positions(copy@) == positions(list@),
{
    let mut out: Vec<Experience> = Vec::new();
    let mut i: usize = 0;
    while i < list.len()
        invariant
            i <= list.len(),
            out@.len() == i,
            positions(out@) == positions(list@.take(i as int)),
        decreases list.len() - i,
    {
        let ghost prev = out@;
        out.push(list[i].duplicate());
        proof {
            assert forall|k: int| 0 <= k < i + 1 implies positions(out@)[k] == positions(
                list@.take(i + 1),
            )[k] by {
                if k < i {
                    assert(out@[k] == prev[k]);
                    assert(positions(prev)[k] == positions(list@.take(i as int))[k]);
                }
            }
            assert(positions(out@) =~= positions(list@.take(i + 1)));
        }
        i += 1;
    }
    assert(list@.take(i as int) =~= list@);
    out
}

fn copy_education(list: &Vec<Education>) -> (copy: Vec<Education>)
    ensures
        copy@ == list@,
{
    let mut out: Vec<Education> = Vec::new();
    let mut i: usize = 0;
    while i < list.len()
        invariant
            i <= list.len(),
            out@ == list@.take(i as int),
        decreases list.len() - i,
    {
        out.push(list[i].duplicate());
        assert(out@ =~= list@.take(i + 1));
        i += 1;
    }
    assert(list@.take(i as int) =~= list@);
    out
}

fn copy_certifications(list: &Vec<Certification>) -> (copy: Vec<Certification>)
    ensures
        copy@ == list@,
{
    let mut out: Vec<Certification> = Vec::new();
    let mut i: usize = 0;
    while i < list.len()
        invariant
            i <= list.len(),
            out@ == list@.take(i as int),
        decreases list.len() - i,
    {
        out.push(list[i].duplicate());
        assert(out@ =~= list@.take(i + 1));
        i += 1;
    }
    assert(list@.take(i as int) =~= list@);
    out
}

fn copy_languages(list: &Vec<Language>) -> (copy: Vec<Language>)
    ensures
        copy@ == list@,
{
    let mut out: Vec<Language> = Vec::new();
    let mut i: usize = 0;
    while i < list.len()
        invariant
            i <= list.len(),
            out@ == list@.take(i as int),
        decreases list.len() - i,
    {
        out.push(list[i].duplicate());
        assert(out@ =~= list@.take(i + 1));
        i += 1;
    }
    assert(list@.take(i as int) =~= list@);
    out
}

impl Record for Resume {
    open spec fn id_of(v: ResumeView) -> Option<ObjectId> {
        v.id
    }

    open spec fn with_id(v: ResumeView, id: ObjectId) -> ResumeView {
        ResumeView { id: Some(id), ..v }
    }

    proof fn lemma_with_id(v: ResumeView, id: ObjectId) {
    }

    fn key(&self) -> (k: Option<ObjectId>) {
        self.id
    }

    fn set_key(&mut self, id: ObjectId) {
        self.id = Some(id);
    }

    fn duplicate(&self) -> (copy: Self) {
        Resume {
            id: self.id,
            user_id: self.user_id,
            title: self.title.clone(),
            personal_info: self.personal_info.duplicate(),
            summary: copy_text(&self.summary),
            experience: copy_experience(&self.experience),
            education: copy_education(&self.education),
            skills: copy_texts(&self.skills),
            certifications: match &self.certifications {
                Some(list) => Some(copy_certifications(list)),
                None => None,
            },
            languages: match &self.languages {
                Some(list) => Some(copy_languages(list)),
                None => None,
            },
            template: self.template.clone(),
            created_at: self.created_at,
            updated_at: self.updated_at,
        }
    }
}

impl Owned for Resume {
    open spec fn owner_of(v: ResumeView) -> ObjectId {
        v.user_id
    }

    proof fn lemma_with_id_keeps_owner(v: ResumeView, id: ObjectId) {
    }

    fn owner_key(&self) -> (k: ObjectId) {
        self.user_id
    }
}

impl Resume {
    /// The record that a request to create a resume describes. The
    /// template is `modern` unless the request names one.
    pub open spec fn described(owner: ObjectId, payload: CreateResumeRequest, now: Timestamp) -> ResumeView {
        ResumeView {
            id: None,
            user_id: owner,
            title: payload.title,
            personal_info: payload.personal_info,
            summary: payload.summary,
            experience: positions(payload.experience@),
            education: payload.education@,
            skills: payload.skills@,
            certifications: listed(payload.certifications),
            languages: listed(payload.languages),
            template: match payload.template {
                Some(t) => t@,
                None => seq!['m', 'o', 'd', 'e', 'r', 'n'],
            },
            created_at: now,
            updated_at: now,
        }
    }

    pub fn new(owner: ObjectId, payload: CreateResumeRequest, now: Timestamp) -> (resume: Resume)
        ensures
            resume@ == Resume::described(owner, payload, now),
    {
        let template = match payload.template {
            Some(t) => t,
            None => {
                let mut t = String::new();
                t.push('m');
                t.push('o');
                t.push('d');
                t.push('e');
                t.push('r');
                t.push('n');
                assert(t@ =~= seq!['m', 'o', 'd', 'e', 'r', 'n']);
                t
            },
        };
        Resume {
            id: None,
            user_id: owner,
            title: payload.title,
            personal_info: payload.personal_info,
            summary: payload.summary,
            experience: payload.experience,
            education: payload.education,
            skills: payload.skills,
            certifications: payload.certifications,
            languages: payload.languages,
            template,
            created_at: now,
            updated_at: now,
        }
    }
}

} // verus!
