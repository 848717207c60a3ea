//! Owners: the accounts that records belong to.

use vstd::prelude::*;

use crate::ident::ObjectId;
use crate::store::{Named, Record};
use crate::values::{copy_text, Timestamp};

verus! {

/// An owner as stored. `password` holds the salted hash of the password,
/// never the password, and never leaves the service.
#[derive(Debug, Clone, PartialEq, Eq)]
pub struct User {
    pub id: Option<ObjectId>,
    pub email: String,
    pub password: String,
    pub name: String,
    pub avatar: Option<String>,
    pub created_at: Timestamp,
    pub updated_at: Timestamp,
}

#[derive(Debug, Clone, PartialEq, Eq)]
pub struct CreateUserRequest {
    pub email: String,
    pub password: String,
    pub name: String,
}

#[derive(Debug, Clone, PartialEq, Eq)]
pub struct LoginRequest {
    pub email: String,
    pub password: String,
}

/// An owner as shown to the outside: everything but the password hash.
#[derive(Debug, Clone, PartialEq, Eq)]
pub struct UserResponse {
    pub id: Option<ObjectId>,
    pub email: String,
    pub name: String,
    pub avatar: Option<String>,
    pub created_at: Timestamp,
    pub updated_at: Timestamp,
}

/// What registration and login answer: the owner and a token for them.
#[derive(Debug, Clone, PartialEq, Eq)]
pub struct AuthResponse {
    pub user: UserResponse,
    pub token: String,
}

impl View for AuthResponse {
    type V = (UserResponse, Seq<char>);

    open spec fn view(&self) -> (UserResponse, Seq<char>) {
        (self.user, self.token@)
    }
}

impl View for User {
    type V = User;

    open spec fn view(&self) -> User {
        *self
    }
}

impl Record for User {
    open spec fn id_of(v: User) -> Option<ObjectId> {
        v.id
    }

    open spec fn with_id(v: User, id: ObjectId) -> User {
        User { id: Some(id), ..v }
    }

    proof fn lemma_with_id(v: User, id: ObjectId) {
    }

    fn key(&self) -> (k: Option<ObjectId>) {
        self.id
    }

    fn set_key(&mut self, id: ObjectId) {
        self.id = Some(id);
    }

    fn duplicate(&self) -> (copy: Self) {
        User {
            id: self.id,
            email: self.email.clone(),
            password: self.password.clone(),
            name: self.name.clone(),
            avatar: copy_text(&self.avatar),
            created_at: self.created_at,
            updated_at: self.updated_at,
        }
    }
}

impl Named for User {
    open spec fn name_of(v: User) -> Seq<char> {
        v.email@
    }

    fn is_named(&self, name: &String) -> (b: bool) {
        self.email == *name
    }
}

impl User {
    /// The account that a registration describes, with the hash that was
    /// made of its password.
    pub open spec fn described(payload: CreateUserRequest, hash: String, now: Timestamp) -> User {
        User {
            id: None,
            email: payload.email,
            password: hash,
            name: payload.name,
            avatar: None,
            created_at: now,
            updated_at: now,
        }
    }

    pub fn new(payload: CreateUserRequest, hash: String, now: Timestamp) -> (user: User)
        ensures
            user == User::described(payload, hash, now),
    {
        User {
            id: None,
            email: payload.email,
            password: hash,
            name: payload.name,
            avatar: None,
            created_at: now,
            updated_at: now,
        }
    }

    /// The account as shown to the outside.
    pub open spec fn shown(self) -> UserResponse {
        UserResponse {
            id: self.id,
            email: self.email,
            name: self.name,
            avatar: self.avatar,
            created_at: self.created_at,
            updated_at: self.updated_at,
        }
    }
}

impl From<User> for UserResponse {
    fn from(user: User) -> (response: UserResponse) {
        UserResponse {
            id: user.id,
            email: user.email,
            name: user.name,
            avatar: user.avatar,
            created_at: user.created_at,
            updated_at: user.updated_at,
        }
    }
}

impl vstd::std_specs::convert::FromSpecImpl<User> for UserResponse {
    open spec fn obeys_from_spec() -> bool {
        true
    }

    open spec fn from_spec(user: User) -> UserResponse {
        user.shown()
    }
}

} // verus!
