//! Clients of a freelancer.

use vstd::prelude::*;

use crate::ident::ObjectId;
use crate::store::{lemma_put_part, put_all, set_all, Change, Owned, Patch, Record};
use crate::values::{sent, copy_text, fill_or_keep, set_or_keep, Timestamp};

verus! {

#[derive(Debug, Clone, PartialEq, Eq)]
pub struct Client {
    pub id: Option<ObjectId>,
    pub user_id: ObjectId,
    pub name: String,
    pub email: String,
    pub phone: Option<String>,
    pub company: Option<String>,
    pub address: Option<String>,
    pub notes: Option<String>,
    pub created_at: Timestamp,
    pub updated_at: Timestamp,
}

#[derive(Debug, Clone, PartialEq, Eq)]
pub struct CreateClientRequest {
    pub name: String,
    pub email: String,
    pub phone: Option<String>,
    pub company: Option<String>,
    pub address: Option<String>,
    pub notes: Option<String>,
}

/// A partial update: a field that is `None` was not sent.
#[derive(Debug, Clone, PartialEq, Eq)]
pub struct UpdateClientRequest {
    pub name: Option<String>,
    pub email: Option<String>,
    pub phone: Option<String>,
    pub company: Option<String>,
    pub address: Option<String>,
    pub notes: Option<String>,
}

impl View for Client {
    type V = Client;

    open spec fn view(&self) -> Client {
        *self
    }
}

impl Record for Client {
    open spec fn id_of(v: Client) -> Option<ObjectId> {
        v.id
    }

    open spec fn with_id(v: Client, id: ObjectId) -> Client {
        Client { id: Some(id), ..v }
    }

    proof fn lemma_with_id(v: Client, id: ObjectId) {
    }

    fn key(&self) -> (k: Option<ObjectId>) {
        self.id
    }

    fn set_key(&mut self, id: ObjectId) {
        self.id = Some(id);
    }

    fn duplicate(&self) -> (copy: Self) {
        Client {
            id: self.id,
            user_id: self.user_id,
            name: self.name.clone(),
            email: self.email.clone(),
            phone: copy_text(&self.phone),
            company: copy_text(&self.company),
            address: copy_text(&self.address),
            notes: copy_text(&self.notes),
            created_at: self.created_at,
            updated_at: self.updated_at,
        }
    }
}

impl Owned for Client {
    open spec fn owner_of(v: Client) -> ObjectId {
        v.user_id
    }

    proof fn lemma_with_id_keeps_owner(v: Client, id: ObjectId) {
    }

    fn owner_key(&self) -> (k: ObjectId) {
        self.user_id
    }
}

impl Client {
    /// The record that a request to create a client describes. The owner
    /// is the caller; the request cannot name another.
    pub open spec fn described(owner: ObjectId, payload: CreateClientRequest, now: Timestamp) -> Client {
        Client {
            id: None,
            user_id: owner,
            name: payload.name,
            email: payload.email,
            phone: payload.phone,
            company: payload.company,
            address: payload.address,
            notes: payload.notes,
            created_at: now,
            updated_at: now,
        }
    }

    pub fn new(owner: ObjectId, payload: CreateClientRequest, now: Timestamp) -> (client: Client)
        ensures
            client == Client::described(owner, payload, now),
    {
        Client {
            id: None,
            user_id: owner,
            name: payload.name,
            email: payload.email,
            phone: payload.phone,
            company: payload.company,
            address: payload.address,
            notes: payload.notes,
            created_at: now,
            updated_at: now,
        }
    }
}

/// One field of a client set to a new value.
#[derive(Debug, Clone, PartialEq, Eq)]
pub enum ClientChange {
    Name(String),
    Email(String),
    Phone(String),
    Company(String),
    Address(String),
    Notes(String),
    UpdatedAt(Timestamp),
}

impl Change<Client> for ClientChange {
    open spec fn put(self, v: Client) -> Client {
        match self {
            ClientChange::Name(x) => Client { name: x, ..v },
            ClientChange::Email(x) => Client { email: x, ..v },
            ClientChange::Phone(x) => Client { phone: Some(x), ..v },
            ClientChange::Company(x) => Client { company: Some(x), ..v },
            ClientChange::Address(x) => Client { address: Some(x), ..v },
            ClientChange::Notes(x) => Client { notes: Some(x), ..v },
            ClientChange::UpdatedAt(t) => Client { updated_at: t, ..v },
        }
    }

    proof fn lemma_put_keeps_identity(self, v: Client) {
    }

    fn set(&self, doc: &mut Client) {
        match self {
            ClientChange::Name(x) => {
                doc.name = x.clone();
            },
            ClientChange::Email(x) => {
                doc.email = x.clone();
            },
            ClientChange::Phone(x) => {
                doc.phone = Some(x.clone());
            },
            ClientChange::Company(x) => {
                doc.company = Some(x.clone());
            },
            ClientChange::Address(x) => {
                doc.address = Some(x.clone());
            },
            ClientChange::Notes(x) => {
                doc.notes = Some(x.clone());
            },
            ClientChange::UpdatedAt(t) => {
                doc.updated_at = *t;
            },
        }
    }
}

impl UpdateClientRequest {
    /// The changes that the request asks for, in the order in which
    /// they are made: the time of the change, then one change for each
    /// field that was sent.
    pub open spec fn changes_of(self, now: Timestamp) -> Seq<ClientChange> {
        seq![ClientChange::UpdatedAt(now)]
            + sent(self.name, |x: String| ClientChange::Name(x))
            + sent(self.email, |x: String| ClientChange::Email(x))
            + sent(self.phone, |x: String| ClientChange::Phone(x))
            + sent(self.company, |x: String| ClientChange::Company(x))
            + sent(self.address, |x: String| ClientChange::Address(x))
            + sent(self.notes, |x: String| ClientChange::Notes(x))
    }

    /// Made to any record, the changes give what the update gives.
    pub proof fn lemma_changes_give_the_update(self, now: Timestamp, v: Client)
        ensures
            put_all::<Client, ClientChange>(self.changes_of(now), v) == self.applied(v, now),
    {
        let s0 = seq![ClientChange::UpdatedAt(now)];
        lemma_put_part::<Client, ClientChange>(Seq::empty(), s0, v);
        assert(Seq::<ClientChange>::empty() + s0 =~= s0);
        let p1 = sent(self.name, |x: String| ClientChange::Name(x));
        let s1 = s0 + p1;
        lemma_put_part::<Client, ClientChange>(s0, p1, v);
        let p2 = sent(self.email, |x: String| ClientChange::Email(x));
        let s2 = s1 + p2;
        lemma_put_part::<Client, ClientChange>(s1, p2, v);
        let p3 = sent(self.phone, |x: String| ClientChange::Phone(x));
        let s3 = s2 + p3;
        lemma_put_part::<Client, ClientChange>(s2, p3, v);
        let p4 = sent(self.company, |x: String| ClientChange::Company(x));
        let s4 = s3 + p4;
        lemma_put_part::<Client, ClientChange>(s3, p4, v);
        let p5 = sent(self.address, |x: String| ClientChange::Address(x));
        let s5 = s4 + p5;
        lemma_put_part::<Client, ClientChange>(s4, p5, v);
        let p6 = sent(self.notes, |x: String| ClientChange::Notes(x));
        let s6 = s5 + p6;
        lemma_put_part::<Client, ClientChange>(s5, p6, v);
        assert(self.changes_of(now) =~= s6);
    }

    /// The changes that the request asks for: one for each field it
    /// holds, and the time of the change.
    pub fn changes(self, now: Timestamp) -> (changes: Vec<ClientChange>)
        ensures
            changes@ == self.changes_of(now),
            forall|v: Client|
                #[trigger] put_all::<Client, ClientChange>(changes@, v) == self.applied(v, now),
    {
        let UpdateClientRequest { name, email, phone, company, address, notes } = self;
        let mut out: Vec<ClientChange> = Vec::new();
        out.push(ClientChange::UpdatedAt(now));
        let ghost so_far = seq![ClientChange::UpdatedAt(now)];
        assert(out@ =~= so_far);
        if let Some(x) = name {
            out.push(ClientChange::Name(x));
        }
        let ghost so_far = so_far + sent(name, |x: String| ClientChange::Name(x));
        assert(out@ =~= so_far);
        if let Some(x) = email {
            out.push(ClientChange::Email(x));
        }
        let ghost so_far = so_far + sent(email, |x: String| ClientChange::Email(x));
        assert(out@ =~= so_far);
        if let Some(x) = phone {
            out.push(ClientChange::Phone(x));
        }
        let ghost so_far = so_far + sent(phone, |x: String| ClientChange::Phone(x));
        assert(out@ =~= so_far);
        if let Some(x) = company {
            out.push(ClientChange::Company(x));
        }
        let ghost so_far = so_far + sent(company, |x: String| ClientChange::Company(x));
        assert(out@ =~= so_far);
        if let Some(x) = address {
            out.push(ClientChange::Address(x));
        }
        let ghost so_far = so_far + sent(address, |x: String| ClientChange::Address(x));
        assert(out@ =~= so_far);
        if let Some(x) = notes {
            out.push(ClientChange::Notes(x));
        }
        let ghost so_far = so_far + sent(notes, |x: String| ClientChange::Notes(x));
        assert(out@ =~= so_far);
        proof {
            assert(so_far =~= self.changes_of(now));
            assert forall|v: Client| #[trigger]
                put_all::<Client, ClientChange>(out@, v) == self.applied(v, now) by {
                self.lemma_changes_give_the_update(now, v);
            }
        }
        out
    }
}

impl Patch<Client> for UpdateClientRequest {
    open spec fn applied(self, v: Client, now: Timestamp) -> Client {
        Client {
            name: set_or_keep(self.name, v.name),
            email: set_or_keep(self.email, v.email),
            phone: fill_or_keep(self.phone, v.phone),
            company: fill_or_keep(self.company, v.company),
            address: fill_or_keep(self.address, v.address),
            notes: fill_or_keep(self.notes, v.notes),
            updated_at: now,
            ..v
        }
    }

    proof fn lemma_applied_keeps_identity(self, v: Client, now: Timestamp) {
    }

    fn apply(self, doc: &mut Client, now: Timestamp) {
        let changes = self.changes(now);
        set_all(&changes, doc);
    }
}

/// A partial update of a client changes the fields that were sent and
/// the time of the last change, and nothing else.
pub proof fn lemma_client_update_is_partial(patch: UpdateClientRequest, v: Client, now: Timestamp)
    ensures
        ({
            let w = patch.applied(v, now);
            &&& w.id == v.id
            &&& w.user_id == v.user_id
            &&& w.created_at == v.created_at
            &&& w.updated_at == now
            &&& patch.name is None ==> w.name == v.name
            &&& patch.email is None ==> w.email == v.email
            &&& patch.phone is None ==> w.phone == v.phone
            &&& patch.company is None ==> w.company == v.company
            &&& patch.address is None ==> w.address == v.address
            &&& patch.notes is None ==> w.notes == v.notes
            &&& patch.name matches Some(x) ==> w.name == x
            &&& patch.email matches Some(x) ==> w.email == x
            &&& patch.phone matches Some(x) ==> w.phone == Some(x)
            &&& patch.company matches Some(x) ==> w.company == Some(x)
            &&& patch.address matches Some(x) ==> w.address == Some(x)
            &&& patch.notes matches Some(x) ==> w.notes == Some(x)
            &&& now > v.updated_at ==> w.updated_at > v.updated_at
        }),
{
}

} // verus!
