//! The gateway in front of every protected operation: it reads the
//! bearer token of a request and resolves the owner who sent it.

use vstd::prelude::*;
use vstd::string::StrSliceExecFns;

use crate::config::Config;
use crate::error::{AppError, Failure};
use crate::ident::ObjectId;
use crate::router::Operation;
use crate::token::{validate, validated};
use crate::values::Timestamp;

verus! {

/// What a bearer token carries: the owner, as the text of their
/// identifier, and the second after which the token is no longer valid.
#[derive(Debug, Clone, PartialEq, Eq)]
pub struct Claims {
    pub sub: String,
    pub exp: u64,
}

/// The owner on whose behalf a request runs. Every protected operation
/// is handed one; none looks the owner up anywhere else.
#[derive(Debug, Clone, Copy, PartialEq, Eq, Structural)]
pub struct AuthUser {
    pub user_id: ObjectId,
}

/// What stands in front of the token in the `Authorization` header.
pub open spec fn bearer_prefix() -> Seq<char> {
    seq!['B', 'e', 'a', 'r', 'e', 'r', ' ']
}

/// The token that a header of the form `Bearer <token>` carries.
pub open spec fn bearer(header: Seq<char>) -> Option<Seq<char>> {
    if header.len() >= 7 && header.subrange(0, 7) == bearer_prefix() {
        Some(header.subrange(7, header.len() as int))
    } else {
        None
    }
}

/// What the gateway answers: the owner of the request, or the failure
/// that ends the request before any operation runs.
pub open spec fn admitted(config: Option<&Config>, authorization: Option<&str>, now: Timestamp) -> Result<
    AuthUser,
    Failure,
> {
    match config {
        None => Err(Failure::InternalError("State not found"@)),
        Some(config) => match authorization {
            None => Err(Failure::Unauthorized),
            Some(header) => match bearer(header@) {
                None => Err(Failure::Unauthorized),
                Some(token) => validated(token, config.jwt_secret@, now),
            },
        },
    }
}

/// Takes the token out of an `Authorization` header.
pub fn bearer_token(header: &str) -> (token: Option<&str>)
    ensures
        match token {
            Some(t) => bearer(header@) == Some(t@),
            None => bearer(header@) is None,
        },
{
    let len = header.unicode_len();
    if len < 7 {
        return None;
    }
    if header.get_char(0) == 'B' && header.get_char(1) == 'e' && header.get_char(2) == 'a'
        && header.get_char(3) == 'r' && header.get_char(4) == 'e' && header.get_char(5) == 'r'
        && header.get_char(6) == ' ' {
        assert(header@.subrange(0, 7) =~= bearer_prefix());
        Some(header.substring_char(7, len))
    } else {
        proof {
            let head = header@.subrange(0, 7);
            if head == bearer_prefix() {
                assert(head[0] == 'B');
                assert(head[1] == 'e');
                assert(head[2] == 'a');
                assert(head[3] == 'r');
                assert(head[4] == 'e');
                assert(head[5] == 'r');
                assert(head[6] == ' ');
            }
        }
        None
    }
}

/// Resolves the owner of a request from its `Authorization` header, at
/// the time `now`. It is handed the settings of the service, if the
/// request carries them, and nothing else: it cannot touch a
/// collection. A request without a header, with a header of another
/// form, or with a token that is forged, expired or malformed is
/// refused as unauthorized, whatever the reason.
pub fn auth_middleware(config: Option<&Config>, authorization: Option<&str>, now: Timestamp) -> (r: Result<
    AuthUser,
    AppError,
>)
    ensures
        match admitted(config, authorization, now) {
            Ok(user) => r == Ok::<AuthUser, AppError>(user),
            Err(failure) => r is Err && r->Err_0@ == failure,
        },
{
    let config = match config {
        Some(config) => config,
        None => {
            return Err(AppError::internal("State not found"));
        },
    };
    let header = match authorization {
        Some(header) => header,
        None => {
            return Err(AppError::Unauthorized);
        },
    };
    let token = match bearer_token(header) {
        Some(token) => token,
        None => {
            return Err(AppError::Unauthorized);
        },
    };
    validate(token, config.jwt_secret.as_str(), now)
}

/// What the gateway decides for a request to an operation. An
/// operation that is open to everyone runs without an owner, and its
/// request is not even looked at. Every other operation runs for the
/// owner that the gateway resolves, or not at all.
pub open spec fn gate(
    operation: Operation,
    config: Option<&Config>,
    authorization: Option<&str>,
    now: Timestamp,
) -> Result<Option<AuthUser>, Failure> {
    if operation.is_public() {
        Ok(None)
    } else {
        match admitted(config, authorization, now) {
            Ok(user) => Ok(Some(user)),
            Err(failure) => Err(failure),
        }
    }
}

/// Decides whether a request to an operation may go on, and for whom.
/// A failure here ends the request before the operation is called.
pub fn gateway(
    operation: Operation,
    config: Option<&Config>,
    authorization: Option<&str>,
    now: Timestamp,
) -> (r: Result<Option<AuthUser>, AppError>)
    ensures
        match gate(operation, config, authorization, now) {
            Ok(who) => r == Ok::<Option<AuthUser>, AppError>(who),
            Err(failure) => r is Err && r->Err_0@ == failure,
        },
{
    if !operation.needs_token() {
        return Ok(None);
    }
    match auth_middleware(config, authorization, now) {
        Ok(user) => Ok(Some(user)),
        Err(e) => Err(e),
    }
}

} // verus!
