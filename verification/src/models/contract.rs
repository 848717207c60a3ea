//! Contracts with clients.

use vstd::prelude::*;

use crate::ident::ObjectId;
use crate::store::{lemma_put_part, put_all, set_all, Change, Owned, Patch, Record};
use crate::values::{sent, copy_text, fill_or_keep, set_or_keep, Number, Timestamp};

verus! {

#[derive(Debug, Clone, Copy, PartialEq, Eq, Structural)]
pub enum ContractStatus {
    Draft,
    Sent,
    Signed,
    Active,
    Completed,
    Terminated,
}

#[derive(Debug, Clone, PartialEq, Eq)]
pub struct Contract {
    pub id: Option<ObjectId>,
    pub user_id: ObjectId,
    pub client_id: ObjectId,
    pub title: String,
    pub content: String,
    pub status: ContractStatus,
    pub start_date: Timestamp,
    pub end_date: Option<Timestamp>,
    pub value: Option<Number>,
    pub currency: Option<String>,
    pub signed_date: Option<Timestamp>,
    pub created_at: Timestamp,
    pub updated_at: Timestamp,
}

#[derive(Debug, Clone, PartialEq, Eq)]
pub struct CreateContractRequest {
    pub client_id: String,
    pub title: String,
    pub content: String,
    pub start_date: Timestamp,
    pub end_date: Option<Timestamp>,
    pub value: Option<Number>,
    pub currency: Option<String>,
}

/// A partial update: a field that is `None` was not sent.
#[derive(Debug, Clone, PartialEq, Eq)]
pub struct UpdateContractRequest {
    pub title: Option<String>,
    pub content: Option<String>,
    pub status: Option<ContractStatus>,
    pub end_date: Option<Timestamp>,
    pub value: Option<Number>,
    pub signed_date: Option<Timestamp>,
}

impl View for Contract {
    type V = Contract;

    open spec fn view(&self) -> Contract {
        *self
    }
}

impl Record for Contract {
    open spec fn id_of(v: Contract) -> Option<ObjectId> {
        v.id
    }

    open spec fn with_id(v: Contract, id: ObjectId) -> Contract {
        Contract { id: Some(id), ..v }
    }

    proof fn lemma_with_id(v: Contract, id: ObjectId) {
    }

    fn key(&self) -> (k: Option<ObjectId>) {
        self.id
    }

    fn set_key(&mut self, id: ObjectId) {
        self.id = Some(id);
    }

    fn duplicate(&self) -> (copy: Self) {
        Contract {
            id: self.id,
            user_id: self.user_id,
            client_id: self.client_id,
            title: self.title.clone(),
            content: self.content.clone(),
            status: self.status,
            start_date: self.start_date,
            end_date: self.end_date,
            value: self.value,
            currency: copy_text(&self.currency),
            signed_date: self.signed_date,
            created_at: self.created_at,
            updated_at: self.updated_at,
        }
    }
}

impl Owned for Contract {
    open spec fn owner_of(v: Contract) -> ObjectId {
        v.user_id
    }

    proof fn lemma_with_id_keeps_owner(v: Contract, id: ObjectId) {
    }

    fn owner_key(&self) -> (k: ObjectId) {
        self.user_id
    }
}

impl Contract {
    /// The record that a request to create a contract describes, once
    /// the client it names has been read as `client_id`. A new contract
    /// is a draft and is not signed.
    pub open spec fn described(
        owner: ObjectId,
        client_id: ObjectId,
        payload: CreateContractRequest,
        now: Timestamp,
    ) -> Contract {
        Contract {
            id: None,
            user_id: owner,
            client_id,
            title: payload.title,
            content: payload.content,
            status: ContractStatus::Draft,
            start_date: payload.start_date,
            end_date: payload.end_date,
            value: payload.value,
            currency: payload.currency,
            signed_date: None,
            created_at: now,
            updated_at: now,
        }
    }

    pub fn new(owner: ObjectId, client_id: ObjectId, payload: CreateContractRequest, now: Timestamp) -> (contract:
        Contract)
        ensures
            contract == Contract::described(owner, client_id, payload, now),
    {
        Contract {
            id: None,
            user_id: owner,
            client_id,
            title: payload.title,
            content: payload.content,
            status: ContractStatus::Draft,
            start_date: payload.start_date,
            end_date: payload.end_date,
            value: payload.value,
            currency: payload.currency,
            signed_date: None,
            created_at: now,
            updated_at: now,
        }
    }
}

/// One field of a contract set to a new value.
#[derive(Debug, Clone, PartialEq, Eq)]
pub enum ContractChange {
    Title(String),
    Content(String),
    Status(ContractStatus),
    EndDate(Timestamp),
    Value(Number),
    SignedDate(Timestamp),
    UpdatedAt(Timestamp),
}

impl Change<Contract> for ContractChange {
    open spec fn put(self, v: Contract) -> Contract {
        match self {
            ContractChange::Title(x) => Contract { title: x, ..v },
            ContractChange::Content(x) => Contract { content: x, ..v },
            ContractChange::Status(x) => Contract { status: x, ..v },
            ContractChange::EndDate(x) => Contract { end_date: Some(x), ..v },
            ContractChange::Value(x) => Contract { value: Some(x), ..v },
            ContractChange::SignedDate(x) => Contract { signed_date: Some(x), ..v },
            ContractChange::UpdatedAt(t) => Contract { updated_at: t, ..v },
        }
    }

    proof fn lemma_put_keeps_identity(self, v: Contract) {
    }

    fn set(&self, doc: &mut Contract) {
        match self {
            ContractChange::Title(x) => {
                doc.title = x.clone();
            },
            ContractChange::Content(x) => {
                doc.content = x.clone();
            },
            ContractChange::Status(x) => {
                doc.status = *x;
            },
            ContractChange::EndDate(x) => {
                doc.end_date = Some(*x);
            },
            ContractChange::Value(x) => {
                doc.value = Some(*x);
            },
            ContractChange::SignedDate(x) => {
                doc.signed_date = Some(*x);
            },
            ContractChange::UpdatedAt(t) => {
                doc.updated_at = *t;
            },
        }
    }
}

impl UpdateContractRequest {
    /// The changes that the request asks for, in the order in which
    /// they are made: the time of the change, then one change for each
    /// field that was sent.
    pub open spec fn changes_of(self, now: Timestamp) -> Seq<ContractChange> {
        seq![ContractChange::UpdatedAt(now)]
            + sent(self.title, |x: String| ContractChange::Title(x))
            + sent(self.content, |x: String| ContractChange::Content(x))
            + sent(self.status, |x: ContractStatus| ContractChange::Status(x))
            + sent(self.end_date, |x: Timestamp| ContractChange::EndDate(x))
            + sent(self.value, |x: Number| ContractChange::Value(x))
            + sent(self.signed_date, |x: Timestamp| ContractChange::SignedDate(x))
    }

    /// Made to any record, the changes give what the update gives.
    pub proof fn lemma_changes_give_the_update(self, now: Timestamp, v: Contract)
        ensures
            put_all::<Contract, ContractChange>(self.changes_of(now), v) == self.applied(v, now),
    {
        let s0 = seq![ContractChange::UpdatedAt(now)];
        lemma_put_part::<Contract, ContractChange>(Seq::empty(), s0, v);
        assert(Seq::<ContractChange>::empty() + s0 =~= s0);
        let p1 = sent(self.title, |x: String| ContractChange::Title(x));
        let s1 = s0 + p1;
        lemma_put_part::<Contract, ContractChange>(s0, p1, v);
        let p2 = sent(self.content, |x: String| ContractChange::Content(x));
        let s2 = s1 + p2;
        lemma_put_part::<Contract, ContractChange>(s1, p2, v);
        let p3 = sent(self.status, |x: ContractStatus| ContractChange::Status(x));
        let s3 = s2 + p3;
        lemma_put_part::<Contract, ContractChange>(s2, p3, v);
        let p4 = sent(self.end_date, |x: Timestamp| ContractChange::EndDate(x));
        let s4 = s3 + p4;
        lemma_put_part::<Contract, ContractChange>(s3, p4, v);
        let p5 = sent(self.value, |x: Number| ContractChange::Value(x));
        let s5 = s4 + p5;
        lemma_put_part::<Contract, ContractChange>(s4, p5, v);
        let p6 = sent(self.signed_date, |x: Timestamp| ContractChange::SignedDate(x));
        let s6 = s5 + p6;
        lemma_put_part::<Contract, ContractChange>(s5, p6, v);
        assert(self.changes_of(now) =~= s6);
    }

    /// The changes that the request asks for: one for each field it
    /// holds, and the time of the change.
    pub fn changes(self, now: Timestamp) -> (changes: Vec<ContractChange>)
        ensures
            changes@ == self.changes_of(now),
            forall|v: Contract|
                #[trigger] put_all::<Contract, ContractChange>(changes@, v) == self.applied(v, now),
    {
        let UpdateContractRequest { title, content, status, end_date, value, signed_date } = self;
        let mut out: Vec<ContractChange> = Vec::new();
        out.push(ContractChange::UpdatedAt(now));
        let ghost so_far = seq![ContractChange::UpdatedAt(now)];
        assert(out@ =~= so_far);
        if let Some(x) = title {
            out.push(ContractChange::Title(x));
        }
        let ghost so_far = so_far + sent(title, |x: String| ContractChange::Title(x));
        assert(out@ =~= so_far);
        if let Some(x) = content {
            out.push(ContractChange::Content(x));
        }
        let ghost so_far = so_far + sent(content, |x: String| ContractChange::Content(x));
        assert(out@ =~= so_far);
        if let Some(x) = status {
            out.push(ContractChange::Status(x));
        }
        let ghost so_far = so_far + sent(status, |x: ContractStatus| ContractChange::Status(x));
        assert(out@ =~= so_far);
        if let Some(x) = end_date {
            out.push(ContractChange::EndDate(x));
        }
        let ghost so_far = so_far + sent(end_date, |x: Timestamp| ContractChange::EndDate(x));
        assert(out@ =~= so_far);
        if let Some(x) = value {
            out.push(ContractChange::Value(x));
        }
        let ghost so_far = so_far + sent(value, |x: Number| ContractChange::Value(x));
        assert(out@ =~= so_far);
        if let Some(x) = signed_date {
            out.push(ContractChange::SignedDate(x));
        }
        let ghost so_far = so_far + sent(signed_date, |x: Timestamp| ContractChange::SignedDate(x));
        assert(out@ =~= so_far);
        proof {
            assert(so_far =~= self.changes_of(now));
            assert forall|v: Contract| #[trigger]
                put_all::<Contract, ContractChange>(out@, v) == self.applied(v, now) by {
                self.lemma_changes_give_the_update(now, v);
            }
        }
        out
    }
}

impl Patch<Contract> for UpdateContractRequest {
    open spec fn applied(self, v: Contract, now: Timestamp) -> Contract {
        Contract {
            title: set_or_keep(self.title, v.title),
            content: set_or_keep(self.content, v.content),
            status: set_or_keep(self.status, v.status),
            end_date: fill_or_keep(self.end_date, v.end_date),
            value: fill_or_keep(self.value, v.value),
            signed_date: fill_or_keep(self.signed_date, v.signed_date),
            updated_at: now,
            ..v
        }
    }

    proof fn lemma_applied_keeps_identity(self, v: Contract, now: Timestamp) {
    }

    fn apply(self, doc: &mut Contract, now: Timestamp) {
        let changes = self.changes(now);
        set_all(&changes, doc);
    }
}

/// A partial update of a contract changes the fields that were sent and
/// the time of the last change, and nothing else.
pub proof fn lemma_contract_update_is_partial(patch: UpdateContractRequest, v: Contract, now: Timestamp)
    ensures
        ({
            let w = patch.applied(v, now);
            &&& w.id == v.id
            &&& w.user_id == v.user_id
            &&& w.client_id == v.client_id
            &&& w.start_date == v.start_date
            &&& w.currency == v.currency
            &&& w.created_at == v.created_at
            &&& w.updated_at == now
            &&& patch.title is None ==> w.title == v.title
            &&& patch.content is None ==> w.content == v.content
            &&& patch.status is None ==> w.status == v.status
            &&& patch.end_date is None ==> w.end_date == v.end_date
            &&& patch.value is None ==> w.value == v.value
            &&& patch.signed_date is None ==> w.signed_date == v.signed_date
            &&& patch.title matches Some(x) ==> w.title == x
            &&& patch.content matches Some(x) ==> w.content == x
            &&& patch.status matches Some(x) ==> w.status == x
            &&& patch.end_date matches Some(x) ==> w.end_date == Some(x)
            &&& patch.value matches Some(x) ==> w.value == Some(x)
            &&& patch.signed_date matches Some(x) ==> w.signed_date == Some(x)
            &&& now > v.updated_at ==> w.updated_at > v.updated_at
        }),
{
}

} // verus!
