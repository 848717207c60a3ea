//! Registration and login: the two operations that need no token,
//! because they are how a token is had.

use vstd::prelude::*;

use crate::database::AppState;
use crate::error::{AppError, Failure};
use crate::ident::ObjectId;
use crate::models::user::{AuthResponse, CreateUserRequest, LoginRequest, User, UserResponse};
use crate::password::{
    bcrypt_verdict, check_password, hash_password, hashed_or_failed, password_outcome,
};
use crate::repository::shown;
use crate::router::{Method, Operation, Route};
use crate::store::{
    called, distinct_ids, is_first, lemma_first_exists, lemma_first_is, named, unused, Record,
};
use crate::token::{expiry_of, issue, jwt_encoding};
use crate::values::Timestamp;

verus! {

/// Registration and login: the two routes that are open to everyone.
pub open spec fn route_table() -> Seq<Route> {
    seq![
        Route { method: Method::Post, path: "/register", operation: Operation::Register },
        Route { method: Method::Post, path: "/login", operation: Operation::Login },
    ]
}

/// Registration and login: the two routes that are open to everyone.
pub fn routes() -> (routes: Vec<Route>)
    ensures
        routes@ == route_table(),
        forall|i: int| 0 <= i < routes@.len() ==> (#[trigger] routes@[i]).operation.is_public(),
{
    let routes = vec![
        Route { method: Method::Post, path: "/register", operation: Operation::Register },
        Route { method: Method::Post, path: "/login", operation: Operation::Login },
    ];
    assert(routes@ =~= route_table());
    routes
}

/// An account with this address exists.
pub open spec fn email_taken(users: Seq<User>, email: Seq<char>) -> bool {
    named::<User>(users, email) is Some
}

/// What registration and login answer for an account: the account as
/// shown to the outside, and a fresh token for it.
pub open spec fn answer_for(user: User, secret: Seq<char>, now: Timestamp) -> Result<
    (UserResponse, Seq<char>),
    Failure,
> {
    match user.id {
        None => Err(Failure::InternalError("Account without identifier"@)),
        Some(id) => match expiry_of(now) {
            None => Err(Failure::InternalError("Invalid issue time"@)),
            Some(exp) => match jwt_encoding(id.hex(), exp, secret) {
                Some(token) => Ok((user.shown(), token)),
                None => Err(Failure::Unauthorized),
            },
        },
    }
}

/// The hash that the hashing gave, if it gave one.
pub open spec fn hash_of(hashed: Result<String, bcrypt::BcryptError>) -> Option<String> {
    match hashed {
        Ok(hash) => Some(hash),
        Err(_) => None,
    }
}

/// The accounts after a registration, and its answer. `next` is the
/// identifier that a new account gets, `full` says that none is left,
/// `hashed` is the hash made of the password, if one was made. An
/// address that is taken is a conflict, and nothing is stored.
pub open spec fn registration(
    users: Seq<User>,
    next: ObjectId,
    full: bool,
    payload: CreateUserRequest,
    hashed: Option<String>,
    secret: Seq<char>,
    now: Timestamp,
) -> (Seq<User>, Result<(UserResponse, Seq<char>), Failure>) {
    if email_taken(users, payload.email@) {
        (users, Err(Failure::Conflict("Email already exists"@)))
    } else {
        match hashed {
            None => (users, Err(Failure::InternalError("Password hashing failed"@))),
            Some(hash) => if full {
                (users, Err(Failure::InternalError("No identifier left"@)))
            } else {
                let stored = User::with_id(User::described(payload, hash, now), next);
                (users.push(stored), answer_for(stored, secret, now))
            },
        }
    }
}

/// What the check of a password against the account that was found
/// under an address gives, if one was found.
pub open spec fn credentials_outcome(account: Option<User>, password: Seq<char>) -> Result<User, Failure> {
    match account {
        None => Err(Failure::Unauthorized),
        Some(user) => match password_outcome(bcrypt_verdict(password, user.password@)) {
            Err(failure) => Err(failure),
            Ok(_) => Ok(user),
        },
    }
}

/// What a check of credentials answers: the account, where the
/// address is known and the password matches the stored hash;
/// otherwise a refusal that does not say which of the two was wrong.
pub open spec fn verified(users: Seq<User>, email: Seq<char>, password: Seq<char>) -> Result<
    User,
    Failure,
> {
    credentials_outcome(named::<User>(users, email), password)
}

/// What a login answers: the account and a token, where the
/// credentials are accepted.
pub open spec fn login_outcome(
    users: Seq<User>,
    email: Seq<char>,
    password: Seq<char>,
    secret: Seq<char>,
    now: Timestamp,
) -> Result<(UserResponse, Seq<char>), Failure> {
    match verified(users, email, password) {
        Err(failure) => Err(failure),
        Ok(user) => answer_for(user, secret, now),
    }
}

/// Answers for an account: shows it and issues a token for it.
pub fn answer(user: User, secret: &str, now: Timestamp) -> (r: Result<AuthResponse, AppError>)
    ensures
        shown(r) == answer_for(user, secret@, now),
{
    let id = match user.id {
        Some(id) => id,
        None => {
            return Err(AppError::internal("Account without identifier"));
        },
    };
    match issue(id, secret, now) {
        Ok(token) => Ok(AuthResponse { user: UserResponse::from(user), token }),
        Err(e) => Err(e),
    }
}

/// The part of a registration that follows the hashing of the password:
/// stores the account, unless its address is taken, and answers with
/// the account and a token.
pub fn enroll(
    state: &mut AppState,
    payload: CreateUserRequest,
    hashed: Result<String, bcrypt::BcryptError>,
    now: Timestamp,
) -> (r: Result<AuthResponse, AppError>)
    ensures
        old(state).but_users(*final(state)),
        distinct_ids::<User>(old(state).db.users@),
        distinct_ids::<User>(final(state).db.users@),
        unused::<User>(old(state).db.users@, old(state).db.users.next_id()),
        (final(state).db.users@, shown(r)) == registration(
            old(state).db.users@,
            old(state).db.users.next_id(),
            old(state).db.users.exhausted(),
            payload,
            hash_of(hashed),
            old(state).config.jwt_secret@,
            now,
        ),
{
    let _ = state.db.users.len();
    if let Err(e) = refuse_taken(state.db.users.find_by_name(&payload.email)) {
        return Err(e);
    }
    let hash = match hashed_or_failed(hashed) {
        Ok(hash) => hash,
        Err(e) => {
            return Err(e);
        },
    };
    let user = User::new(payload, hash, now);
    let mut stored = user.duplicate();
    match state.db.users.insert_one(user) {
        Err(e) => Err(e),
        Ok(id) => {
            stored.set_key(id);
            answer(stored, state.config.jwt_secret.as_str(), now)
        },
    }
}

/// Registers an owner. The password is stored only as a salted hash
/// that cannot be turned back. An address can be registered once: the
/// second attempt is a conflict and stores nothing.
pub fn register(state: &mut AppState, payload: CreateUserRequest, now: Timestamp) -> (r: Result<
    AuthResponse,
    AppError,
>)
    ensures
        old(state).but_users(*final(state)),
        distinct_ids::<User>(old(state).db.users@),
        distinct_ids::<User>(final(state).db.users@),
        email_taken(old(state).db.users@, payload.email@) ==> {
            &&& r is Err
            &&& r->Err_0@ == Failure::Conflict("Email already exists"@)
            &&& final(state).db.users@ == old(state).db.users@
        },
        final(state).db.users@ != old(state).db.users@ ==> {
            &&& verified(final(state).db.users@, payload.email@, payload.password@) matches Ok(
                account,
            )
            &&& final(state).db.users@ == old(state).db.users@.push(account)
            &&& account.email == payload.email
            &&& account.name == payload.name
            &&& account.id == Some(old(state).db.users.next_id())
        },
        r is Ok ==> final(state).db.users@ != old(state).db.users@,
        exists|hashed: Option<String>|
            {
                &&& hashed matches Some(hash) ==> bcrypt_verdict(payload.password@, hash@) == Some(
                    true,
                )
                &&& (final(state).db.users@, shown(r)) == #[trigger] registration(
                    old(state).db.users@,
                    old(state).db.users.next_id(),
                    old(state).db.users.exhausted(),
                    payload,
                    hashed,
                    old(state).config.jwt_secret@,
                    now,
                )
            },
{
    if let Err(e) = refuse_taken(state.db.users.find_by_name(&payload.email)) {
        let r = Err(e);
        proof {
            let hashed = None::<String>;
            assert((state.db.users@, shown(r)) == registration(
                old(state).db.users@,
                old(state).db.users.next_id(),
                old(state).db.users.exhausted(),
                payload,
                hashed,
                old(state).config.jwt_secret@,
                now,
            ));
        }
        return r;
    }
    let hashed = hash_password(payload.password.as_str());
    let r = enroll(state, payload, hashed, now);
    proof {
        let witness = hash_of(hashed);
        if witness is Some && !old(state).db.users.exhausted() {
            lemma_register_then_verify(
                old(state).db.users@,
                old(state).db.users.next_id(),
                payload,
                witness->0,
                old(state).config.jwt_secret@,
                now,
                payload.password@,
            );
        }
        assert((state.db.users@, shown(r)) == registration(
            old(state).db.users@,
            old(state).db.users.next_id(),
            old(state).db.users.exhausted(),
            payload,
            witness,
            old(state).config.jwt_secret@,
            now,
        ));
    }
    r
}

/// Checks a password against the account that was found under an
/// address. No account and a wrong password are refused alike.
pub fn check_credentials(account: Option<User>, password: &str) -> (r: Result<User, AppError>)
    ensures
        shown(r) == credentials_outcome(account, password@),
{
    let user = match account {
        Some(user) => user,
        None => {
            return Err(AppError::Unauthorized);
        },
    };
    match check_password(password, user.password.as_str()) {
        Err(e) => Err(e),
        Ok(_) => Ok(user),
    }
}

/// Refuses a registration under an address that is taken.
pub fn refuse_taken(existing: Option<User>) -> (r: Result<(), AppError>)
    ensures
        match existing {
            Some(_) => r is Err && r->Err_0@ == Failure::Conflict("Email already exists"@),
            None => r is Ok,
        },
{
    match existing {
        Some(_) => Err(AppError::conflict("Email already exists")),
        None => Ok(()),
    }
}

/// Checks credentials: finds the account by its address and checks
/// the password against the stored hash.
pub fn verify(state: &AppState, email: &String, password: &str) -> (r: Result<User, AppError>)
    ensures
        shown(r) == verified(state.db.users@, email@, password@),
{
    check_credentials(state.db.users.find_by_name(email), password)
}

/// Logs an owner in: checks the credentials and answers with the
/// account and a token. Nothing is stored.
pub fn login(state: &AppState, payload: LoginRequest, now: Timestamp) -> (r: Result<AuthResponse, AppError>)
    ensures
        shown(r) == login_outcome(
            state.db.users@,
            payload.email@,
            payload.password@,
            state.config.jwt_secret@,
            now,
        ),
{
    match verify(state, &payload.email, payload.password.as_str()) {
        Err(e) => Err(e),
        Ok(user) => answer(user, state.config.jwt_secret.as_str(), now),
    }
}

/// No two accounts have the same address.
pub open spec fn distinct_emails(users: Seq<User>) -> bool {
    forall|i: int, j: int|
        0 <= i < j < users.len() ==> (#[trigger] users[i]).email@ != (#[trigger] users[j]).email@
}

/// The account that a registration stores.
pub open spec fn enrolled(next: ObjectId, payload: CreateUserRequest, hash: String, now: Timestamp) -> User {
    User::with_id(User::described(payload, hash, now), next)
}

/// After a registration the same credentials are accepted, and the
/// account they lead to is the one that was registered. A password
/// that the hash does not match is refused as unauthorized.
pub proof fn lemma_register_then_verify(
    users: Seq<User>,
    next: ObjectId,
    payload: CreateUserRequest,
    hash: String,
    secret: Seq<char>,
    now: Timestamp,
    other: Seq<char>,
)
    requires
        !email_taken(users, payload.email@),
        bcrypt_verdict(payload.password@, hash@) == Some(true),
    ensures
        ({
            let after = registration(users, next, false, payload, Some(hash), secret, now).0;
            let account = enrolled(next, payload, hash, now);
            &&& after == users.push(account)
            &&& verified(after, payload.email@, payload.password@) == Ok::<User, Failure>(account)
            &&& forall|later: Timestamp|
                #[trigger] login_outcome(
                    after,
                    payload.email@,
                    payload.password@,
                    secret,
                    later,
                ) == answer_for(account, secret, later)
            &&& bcrypt_verdict(other, hash@) == Some(false) ==> verified(after, payload.email@, other)
                == Err::<User, Failure>(Failure::Unauthorized)
        }),
{
    let account = enrolled(next, payload, hash, now);
    let after = users.push(account);
    let k = users.len() as int;
    let pred = called::<User>(payload.email@);
    assert forall|j: int| 0 <= j < k implies !pred(#[trigger] after[j]) by {
        if pred(users[j]) {
            lemma_first_exists(users, pred, j);
        }
    }
    assert(is_first(after, pred, k));
    lemma_first_is(after, pred, k);
}

/// An address can be registered once. After a registration every
/// further registration of the same address is a conflict and stores
/// nothing, whatever else it holds.
pub proof fn lemma_second_registration_is_a_conflict(
    users: Seq<User>,
    next: ObjectId,
    payload: CreateUserRequest,
    hash: String,
    secret: Seq<char>,
    now: Timestamp,
    again: CreateUserRequest,
    next_then: ObjectId,
    full_then: bool,
    hashed_then: Option<String>,
    then: Timestamp,
)
    requires
        !email_taken(users, payload.email@),
        again.email@ == payload.email@,
    ensures
        ({
            let after = registration(users, next, false, payload, Some(hash), secret, now).0;
            &&& after.len() == users.len() + 1
            &&& registration(after, next_then, full_then, again, hashed_then, secret, then) == (
                after,
                Err::<(UserResponse, Seq<char>), Failure>(
                    Failure::Conflict("Email already exists"@),
                ),
            )
        }),
{
    let after = users.push(enrolled(next, payload, hash, now));
    lemma_first_exists(after, called::<User>(payload.email@), users.len() as int);
}

/// Registration keeps the addresses of the accounts distinct.
pub proof fn lemma_registration_keeps_emails_distinct(
    users: Seq<User>,
    next: ObjectId,
    full: bool,
    payload: CreateUserRequest,
    hashed: Option<String>,
    secret: Seq<char>,
    now: Timestamp,
)
    requires
        distinct_emails(users),
    ensures
        distinct_emails(registration(users, next, full, payload, hashed, secret, now).0),
{
    let after = registration(users, next, full, payload, hashed, secret, now).0;
    if after != users {
        let pred = called::<User>(payload.email@);
        assert forall|i: int, j: int| 0 <= i < j < after.len() implies (#[trigger] after[i]).email@
            != (#[trigger] after[j]).email@ by {
            if j == users.len() {
                if pred(users[i]) {
                    lemma_first_exists(users, pred, i);
                }
            }
        }
    }
}

} // verus!
