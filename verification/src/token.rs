//! Bearer tokens: signed, self-contained, valid for seven days. A token
//! is not encrypted; it only cannot be changed without notice. Signing
//! and checking the signature is the work of the `jsonwebtoken` crate.

use vstd::prelude::*;

use crate::error::{AppError, Failure};
use crate::ident::{lemma_hex_round_trip, parsed, well_formed, ObjectId};
use crate::middleware::auth::{AuthUser, Claims};
use crate::values::Timestamp;

verus! {

/// The error type of the `jsonwebtoken` crate.
#[verifier::external_type_specification]
#[verifier::external_body]
pub struct ExTokenError(jsonwebtoken::errors::Error);

/// The token that `jsonwebtoken::encode` makes of a subject and an
/// expiry under a secret, with the default header; nothing where it
/// fails.
pub uninterp spec fn jwt_encoding(sub: Seq<char>, exp: u64, secret: Seq<char>) -> Option<Seq<char>>;

/// The subject and the expiry that `jsonwebtoken::decode` reads from a
/// token under a secret, when it is told not to look at the clock;
/// nothing where it refuses the token.
pub uninterp spec fn jwt_claims(token: Seq<char>, secret: Seq<char>) -> Option<(Seq<char>, u64)>;

/// `jsonwebtoken::encode` with the default header (HMAC with SHA-256)
/// and the secret as the key. The claims are handed over as a JSON
/// object with the members `sub` and `exp`. The token depends on the
/// claims and the secret alone, and `jsonwebtoken::decode` under the
/// same secret reads the same claims from it.
#[verifier::external_body]
pub(crate) fn encode_claims(sub: &str, exp: u64, secret: &str) -> (r: Result<
    String,
    jsonwebtoken::errors::Error,
>)
    ensures
        match r {
            Ok(token) => {
                &&& jwt_encoding(sub@, exp, secret@) == Some(token@)
                &&& jwt_claims(token@, secret@) == Some((sub@, exp))
            },
            Err(_) => jwt_encoding(sub@, exp, secret@) is None,
        },
{
    let mut object = serde_json::Map::new();
    object.insert("sub".to_string(), serde_json::Value::from(sub));
    object.insert("exp".to_string(), serde_json::Value::from(exp));
    let key = jsonwebtoken::EncodingKey::from_secret(secret.as_bytes());
    jsonwebtoken::encode(&jsonwebtoken::Header::default(), &object, &key)
}

/// `jsonwebtoken::decode` with the default validation (HMAC with
/// SHA-256, `exp` required) but for the comparison of `exp` with the
/// clock, which is switched off: expiry is judged by [`authorize`]
/// against the time of the request. The crate checks the form of the
/// token and its signature under the secret. A token whose `sub` is no
/// text or whose `exp` is no unsigned number is refused like one that
/// has none.
#[verifier::external_body]
pub(crate) fn decode_claims(token: &str, secret: &str) -> (r: Result<
    Claims,
    jsonwebtoken::errors::Error,
>)
    ensures
        match r {
            Ok(claims) => jwt_claims(token@, secret@) == Some((claims.sub@, claims.exp)),
            Err(_) => jwt_claims(token@, secret@) is None,
        },
{
    let mut rules = jsonwebtoken::Validation::default();
    rules.validate_exp = false;
    let key = jsonwebtoken::DecodingKey::from_secret(secret.as_bytes());
    let data = jsonwebtoken::decode::<serde_json::Value>(token, &key, &rules)?;
    let sub = data.claims.get("sub").and_then(|v| v.as_str());
    let exp = data.claims.get("exp").and_then(|v| v.as_u64());
    match (sub, exp) {
        (Some(sub), Some(exp)) => Ok(Claims { sub: sub.to_string(), exp }),
        _ => Err(jsonwebtoken::errors::ErrorKind::InvalidToken.into()),
    }
}

/// The second at which a token issued at `now` stops being valid: seven
/// days after the second in which it was issued. There is none for a
/// time before 1970.
pub open spec fn expiry_of(now: Timestamp) -> Option<u64> {
    if now >= 0 {
        Some((now / 1000 + 604800) as u64)
    } else {
        None
    }
}

/// At `now` a token with the expiry `exp` is no longer valid: the
/// second `exp` has begun.
pub open spec fn expired(exp: u64, now: Timestamp) -> bool {
    now >= exp * 1000
}

/// What a token is worth under a secret at the time `now`: the owner
/// that it names, where the signature holds, the token has not expired
/// and its subject is the text of an identifier. Every other token is
/// refused in one and the same way.
pub open spec fn validated(token: Seq<char>, secret: Seq<char>, now: Timestamp) -> Result<
    AuthUser,
    Failure,
> {
    match jwt_claims(token, secret) {
        Some((sub, exp)) => if !expired(exp, now) && well_formed(sub) {
            Ok(AuthUser { user_id: parsed(sub) })
        } else {
            Err(Failure::Unauthorized)
        },
        None => Err(Failure::Unauthorized),
    }
}

pub fn token_expiry(now: Timestamp) -> (exp: Option<u64>)
    ensures
        exp == expiry_of(now),
{
    if now >= 0 {
        Some((now / 1000) as u64 + 604800)
    } else {
        None
    }
}

pub fn is_expired(exp: u64, now: Timestamp) -> (gone: bool)
    ensures
        gone == expired(exp, now),
{
    now as i128 >= exp as i128 * 1000
}

/// Turns what the encoding gave into the answer of an issuance. A
/// failure to sign is answered like any other failure around tokens.
pub fn issued(encoded: Result<String, jsonwebtoken::errors::Error>) -> (r: Result<String, AppError>)
    ensures
        match encoded {
            Ok(token) => r == Ok::<String, AppError>(token),
            Err(_) => r == Err::<String, AppError>(AppError::Unauthorized),
        },
{
    match encoded {
        Ok(token) => Ok(token),
        Err(e) => Err(AppError::from(e)),
    }
}

/// Issues a token for the subject `user_id`, valid from `now` for seven
/// days.
pub fn generate_token(user_id: &str, secret: &str, now: Timestamp) -> (r: Result<String, AppError>)
    ensures
        match expiry_of(now) {
            None => r is Err && r->Err_0@ == Failure::InternalError("Invalid issue time"@),
            Some(exp) => match jwt_encoding(user_id@, exp, secret@) {
                Some(token) => {
                    &&& r is Ok
                    &&& r->Ok_0@ == token
                    &&& jwt_claims(token, secret@) == Some((user_id@, exp))
                },
                None => r == Err::<String, AppError>(AppError::Unauthorized),
            },
        },
{
    let exp = match token_expiry(now) {
        Some(exp) => exp,
        None => {
            return Err(AppError::internal("Invalid issue time"));
        },
    };
    issued(encode_claims(user_id, exp, secret))
}

/// Issues a token for an owner. The token is valid from the moment it
/// is issued up to, and not including, the second of its expiry: at any
/// such time it validates to the owner it was issued for, and from the
/// expiry on it is refused.
pub fn issue(owner: ObjectId, secret: &str, now: Timestamp) -> (r: Result<String, AppError>)
    ensures
        match expiry_of(now) {
            None => r is Err && r->Err_0@ == Failure::InternalError("Invalid issue time"@),
            Some(exp) => match jwt_encoding(owner.hex(), exp, secret@) {
                Some(token) => {
                    &&& r is Ok
                    &&& r->Ok_0@ == token
                    &&& !expired(exp, now)
                    &&& forall|at: Timestamp|
                        !expired(exp, at) ==> #[trigger] validated(token, secret@, at) == Ok::<
                            AuthUser,
                            Failure,
                        >(AuthUser { user_id: owner })
                    &&& forall|at: Timestamp|
                        expired(exp, at) ==> #[trigger] validated(token, secret@, at) == Err::<
                            AuthUser,
                            Failure,
                        >(Failure::Unauthorized)
                },
                None => r == Err::<String, AppError>(AppError::Unauthorized),
            },
        },
{
    let text = owner.to_hex();
    proof {
        lemma_hex_round_trip(owner);
    }
    generate_token(text.as_str(), secret, now)
}

/// Judges what the decoding of a token gave, at the time `now`.
pub fn authorize(decoded: Result<Claims, jsonwebtoken::errors::Error>, now: Timestamp) -> (r: Result<
    AuthUser,
    AppError,
>)
    ensures
        match decoded {
            Ok(claims) => if !expired(claims.exp, now) && well_formed(claims.sub@) {
                r == Ok::<AuthUser, AppError>(AuthUser { user_id: parsed(claims.sub@) })
            } else {
                r == Err::<AuthUser, AppError>(AppError::Unauthorized)
            },
            Err(_) => r == Err::<AuthUser, AppError>(AppError::Unauthorized),
        },
{
    match decoded {
        Err(e) => Err(AppError::from(e)),
        Ok(claims) => {
            if is_expired(claims.exp, now) {
                return Err(AppError::Unauthorized);
            }
            match ObjectId::parse_str(claims.sub.as_str()) {
                Some(user_id) => Ok(AuthUser { user_id }),
                None => Err(AppError::Unauthorized),
            }
        },
    }
}

/// Validates a token at the time `now` and resolves the owner it names.
pub fn validate(token: &str, secret: &str, now: Timestamp) -> (r: Result<AuthUser, AppError>)
    ensures
        match validated(token@, secret@, now) {
            Ok(user) => r == Ok::<AuthUser, AppError>(user),
            Err(_) => r == Err::<AuthUser, AppError>(AppError::Unauthorized),
        },
{
    authorize(decode_claims(token, secret), now)
}

} // verus!
