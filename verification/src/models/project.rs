//! Projects, with or without a client.

use vstd::prelude::*;

use crate::ident::ObjectId;
use crate::store::{lemma_put_part, put_all, set_all, Change, Owned, Patch, Record};
use crate::values::{sent, copy_text, fill_or_keep, set_or_keep, Number, Timestamp};

verus! {

#[derive(Debug, Clone, Copy, PartialEq, Eq, Structural)]
pub enum ProjectStatus {
    Active,
    Completed,
    OnHold,
    Cancelled,
}

#[derive(Debug, Clone, PartialEq, Eq)]
pub struct Project {
    pub id: Option<ObjectId>,
    pub user_id: ObjectId,
    pub client_id: Option<ObjectId>,
    pub name: String,
    pub description: Option<String>,
    pub status: ProjectStatus,
    pub hourly_rate: Option<Number>,
    pub budget: Option<Number>,
    pub start_date: Option<Timestamp>,
    pub end_date: Option<Timestamp>,
    pub created_at: Timestamp,
    pub updated_at: Timestamp,
}

#[derive(Debug, Clone, PartialEq, Eq)]
pub struct CreateProjectRequest {
    pub client_id: Option<String>,
    pub name: String,
    pub description: Option<String>,
    pub hourly_rate: Option<Number>,
    pub budget: Option<Number>,
    pub start_date: Option<Timestamp>,
}

/// A partial update: a field that is `None` was not sent.
#[derive(Debug, Clone, PartialEq, Eq)]
pub struct UpdateProjectRequest {
    pub name: Option<String>,
    pub description: Option<String>,
    pub status: Option<ProjectStatus>,
    pub hourly_rate: Option<Number>,
    pub budget: Option<Number>,
    pub end_date: Option<Timestamp>,
}

impl View for Project {
    type V = Project;

    open spec fn view(&self) -> Project {
        *self
    }
}

impl Record for Project {
    open spec fn id_of(v: Project) -> Option<ObjectId> {
        v.id
    }

    open spec fn with_id(v: Project, id: ObjectId) -> Project {
        Project { id: Some(id), ..v }
    }

    proof fn lemma_with_id(v: Project, id: ObjectId) {
    }

    fn key(&self) -> (k: Option<ObjectId>) {
        self.id
    }

    fn set_key(&mut self, id: ObjectId) {
        self.id = Some(id);
    }

    fn duplicate(&self) -> (copy: Self) {
        Project {
            id: self.id,
            user_id: self.user_id,
            client_id: self.client_id,
            name: self.name.clone(),
            description: copy_text(&self.description),
            status: self.status,
            hourly_rate: self.hourly_rate,
            budget: self.budget,
            start_date: self.start_date,
            end_date: self.end_date,
            created_at: self.created_at,
            updated_at: self.updated_at,
        }
    }
}

impl Owned for Project {
    open spec fn owner_of(v: Project) -> ObjectId {
        v.user_id
    }

    proof fn lemma_with_id_keeps_owner(v: Project, id: ObjectId) {
    }

    fn owner_key(&self) -> (k: ObjectId) {
        self.user_id
    }
}

impl Project {
    /// The record that a request to create a project describes, once the
    /// client it may name has been read as `client_id`. A new project is
    /// active and has no end.
    pub open spec fn described(
        owner: ObjectId,
        client_id: Option<ObjectId>,
        payload: CreateProjectRequest,
        now: Timestamp,
    ) -> Project {
        Project {
            id: None,
            user_id: owner,
            client_id,
            name: payload.name,
            description: payload.description,
            status: ProjectStatus::Active,
            hourly_rate: payload.hourly_rate,
            budget: payload.budget,
            start_date: payload.start_date,
            end_date: None,
            created_at: now,
            updated_at: now,
        }
    }

    pub fn new(
        owner: ObjectId,
        client_id: Option<ObjectId>,
        payload: CreateProjectRequest,
        now: Timestamp,
    ) -> (project: Project)
        ensures
            project == Project::described(owner, client_id, payload, now),
    {
        Project {
            id: None,
            user_id: owner,
            client_id,
            name: payload.name,
            description: payload.description,
            status: ProjectStatus::Active,
            hourly_rate: payload.hourly_rate,
            budget: payload.budget,
            start_date: payload.start_date,
            end_date: None,
            created_at: now,
            updated_at: now,
        }
    }
}

/// One field of a project set to a new value.
#[derive(Debug, Clone, PartialEq, Eq)]
pub enum ProjectChange {
    Name(String),
    Description(String),
    Status(ProjectStatus),
    HourlyRate(Number),
    Budget(Number),
    EndDate(Timestamp),
    UpdatedAt(Timestamp),
}

impl Change<Project> for ProjectChange {
    open spec fn put(self, v: Project) -> Project {
        match self {
            ProjectChange::Name(x) => Project { name: x, ..v },
            ProjectChange::Description(x) => Project { description: Some(x), ..v },
            ProjectChange::Status(x) => Project { status: x, ..v },
            ProjectChange::HourlyRate(x) => Project { hourly_rate: Some(x), ..v },
            ProjectChange::Budget(x) => Project { budget: Some(x), ..v },
            ProjectChange::EndDate(x) => Project { end_date: Some(x), ..v },
            ProjectChange::UpdatedAt(t) => Project { updated_at: t, ..v },
        }
    }

    proof fn lemma_put_keeps_identity(self, v: Project) {
    }

    fn set(&self, doc: &mut Project) {
        match self {
            ProjectChange::Name(x) => {
                doc.name = x.clone();
            },
            ProjectChange::Description(x) => {
                doc.description = Some(x.clone());
            },
            ProjectChange::Status(x) => {
                doc.status = *x;
            },
            ProjectChange::HourlyRate(x) => {
                doc.hourly_rate = Some(*x);
            },
            ProjectChange::Budget(x) => {
                doc.budget = Some(*x);
            },
            ProjectChange::EndDate(x) => {
                doc.end_date = Some(*x);
            },
            ProjectChange::UpdatedAt(t) => {
                doc.updated_at = *t;
            },
        }
    }
}

impl UpdateProjectRequest {
    /// The changes that the request asks for, in the order in which
    /// they are made: the time of the change, then one change for each
    /// field that was sent.
    pub open spec fn changes_of(self, now: Timestamp) -> Seq<ProjectChange> {
        seq![ProjectChange::UpdatedAt(now)]
            + sent(self.name, |x: String| ProjectChange::Name(x))
            + sent(self.description, |x: String| ProjectChange::Description(x))
            + sent(self.status, |x: ProjectStatus| ProjectChange::Status(x))
            + sent(self.hourly_rate, |x: Number| ProjectChange::HourlyRate(x))
            + sent(self.budget, |x: Number| ProjectChange::Budget(x))
            + sent(self.end_date, |x: Timestamp| ProjectChange::EndDate(x))
    }

    /// Made to any record, the changes give what the update gives.
    pub proof fn lemma_changes_give_the_update(self, now: Timestamp, v: Project)
        ensures
            put_all::<Project, ProjectChange>(self.changes_of(now), v) == self.applied(v, now),
    {
        let s0 = seq![ProjectChange::UpdatedAt(now)];
        lemma_put_part::<Project, ProjectChange>(Seq::empty(), s0, v);
        assert(Seq::<ProjectChange>::empty() + s0 =~= s0);
        let p1 = sent(self.name, |x: String| ProjectChange::Name(x));
        let s1 = s0 + p1;
        lemma_put_part::<Project, ProjectChange>(s0, p1, v);
        let p2 = sent(self.description, |x: String| ProjectChange::Description(x));
        let s2 = s1 + p2;
        lemma_put_part::<Project, ProjectChange>(s1, p2, v);
        let p3 = sent(self.status, |x: ProjectStatus| ProjectChange::Status(x));
        let s3 = s2 + p3;
        lemma_put_part::<Project, ProjectChange>(s2, p3, v);
        let p4 = sent(self.hourly_rate, |x: Number| ProjectChange::HourlyRate(x));
        let s4 = s3 + p4;
        lemma_put_part::<Project, ProjectChange>(s3, p4, v);
        let p5 = sent(self.budget, |x: Number| ProjectChange::Budget(x));
        let s5 = s4 + p5;
        lemma_put_part::<Project, ProjectChange>(s4, p5, v);
        let p6 = sent(self.end_date, |x: Timestamp| ProjectChange::EndDate(x));
        let s6 = s5 + p6;
        lemma_put_part::<Project, ProjectChange>(s5, p6, v);
        assert(self.changes_of(now) =~= s6);
    }

    /// The changes that the request asks for: one for each field it
    /// holds, and the time of the change.
    pub fn changes(self, now: Timestamp) -> (changes: Vec<ProjectChange>)
        ensures
            changes@ == self.changes_of(now),
            forall|v: Project|
                #[trigger] put_all::<Project, ProjectChange>(changes@, v) == self.applied(v, now),
    {
        let UpdateProjectRequest {
            name,
            description,
            status,
            hourly_rate,
            budget,
            end_date,
        } = self;
        let mut out: Vec<ProjectChange> = Vec::new();
        out.push(ProjectChange::UpdatedAt(now));
        let ghost so_far = seq![ProjectChange::UpdatedAt(now)];
        assert(out@ =~= so_far);
        if let Some(x) = name {
            out.push(ProjectChange::Name(x));
        }
        let ghost so_far = so_far + sent(name, |x: String| ProjectChange::Name(x));
        assert(out@ =~= so_far);
        if let Some(x) = description {
            out.push(ProjectChange::Description(x));
        }
        let ghost so_far = so_far + sent(description, |x: String| ProjectChange::Description(x));
        assert(out@ =~= so_far);
        if let Some(x) = status {
            out.push(ProjectChange::Status(x));
        }
        let ghost so_far = so_far + sent(status, |x: ProjectStatus| ProjectChange::Status(x));
        assert(out@ =~= so_far);
        if let Some(x) = hourly_rate {
            out.push(ProjectChange::HourlyRate(x));
        }
        let ghost so_far = so_far + sent(hourly_rate, |x: Number| ProjectChange::HourlyRate(x));
        assert(out@ =~= so_far);
        if let Some(x) = budget {
            out.push(ProjectChange::Budget(x));
        }
        let ghost so_far = so_far + sent(budget, |x: Number| ProjectChange::Budget(x));
        assert(out@ =~= so_far);
        if let Some(x) = end_date {
            out.push(ProjectChange::EndDate(x));
        }
        let ghost so_far = so_far + sent(end_date, |x: Timestamp| ProjectChange::EndDate(x));
        assert(out@ =~= so_far);
        proof {
            assert(so_far =~= self.changes_of(now));
            assert forall|v: Project| #[trigger]
                put_all::<Project, ProjectChange>(out@, v) == self.applied(v, now) by {
                self.lemma_changes_give_the_update(now, v);
            }
        }
        out
    }
}

impl Patch<Project> for UpdateProjectRequest {
    open spec fn applied(self, v: Project, now: Timestamp) -> Project {
        Project {
            name: set_or_keep(self.name, v.name),
            description: fill_or_keep(self.description, v.description),
            status: set_or_keep(self.status, v.status),
            hourly_rate: fill_or_keep(self.hourly_rate, v.hourly_rate),
            budget: fill_or_keep(self.budget, v.budget),
            end_date: fill_or_keep(self.end_date, v.end_date),
            updated_at: now,
            ..v
        }
    }

    proof fn lemma_applied_keeps_identity(self, v: Project, now: Timestamp) {
    }

    fn apply(self, doc: &mut Project, now: Timestamp) {
        let changes = self.changes(now);
        set_all(&changes, doc);
    }
}

/// A partial update of a project changes the fields that were sent and
/// the time of the last change, and nothing else.
pub proof fn lemma_project_update_is_partial(patch: UpdateProjectRequest, v: Project, now: Timestamp)
    ensures
        ({
            let w = patch.applied(v, now);
            &&& w.id == v.id
            &&& w.user_id == v.user_id
            &&& w.client_id == v.client_id
            &&& w.start_date == v.start_date
            &&& w.created_at == v.created_at
            &&& w.updated_at == now
            &&& patch.name is None ==> w.name == v.name
            &&& patch.description is None ==> w.description == v.description
            &&& patch.status is None ==> w.status == v.status
            &&& patch.hourly_rate is None ==> w.hourly_rate == v.hourly_rate
            &&& patch.budget is None ==> w.budget == v.budget
            &&& patch.end_date is None ==> w.end_date == v.end_date
            &&& patch.name matches Some(x) ==> w.name == x
            &&& patch.description matches Some(x) ==> w.description == Some(x)
            &&& patch.status matches Some(x) ==> w.status == x
            &&& patch.hourly_rate matches Some(x) ==> w.hourly_rate == Some(x)
            &&& patch.budget matches Some(x) ==> w.budget == Some(x)
            &&& patch.end_date matches Some(x) ==> w.end_date == Some(x)
            &&& now > v.updated_at ==> w.updated_at > v.updated_at
        }),
{
}

} // verus!
