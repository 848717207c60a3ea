//! Passwords are kept as salted bcrypt hashes and checked by hashing
//! again. The hashing itself is the work of the `bcrypt` crate.

use vstd::prelude::*;

use crate::error::{AppError, Failure};

verus! {

/// The error type of the `bcrypt` crate.
#[verifier::external_type_specification]
#[verifier::external_body]
pub struct ExBcryptError(bcrypt::BcryptError);

/// What `bcrypt::verify` answers for a password and a hash: whether
/// they match, or nothing where the hash cannot be read.
pub uninterp spec fn bcrypt_verdict(password: Seq<char>, hash: Seq<char>) -> Option<bool>;

/// `bcrypt::hash` at the default cost. The salt is random, so two calls
/// give two hashes; what holds of every hash that comes back is that
/// `bcrypt::verify` accepts the password it was made from.
#[verifier::external_body]
pub(crate) fn hash_password(password: &str) -> (r: Result<String, bcrypt::BcryptError>)
    ensures
        r matches Ok(hash) ==> bcrypt_verdict(password@, hash@) == Some(true),
{
    bcrypt::hash(password, bcrypt::DEFAULT_COST)
}

/// `bcrypt::verify`: reads salt and cost from the hash, hashes the
/// password again and compares. Its answer depends on the two texts
/// alone.
#[verifier::external_body]
pub(crate) fn verify_password(password: &str, hash: &str) -> (r: Result<bool, bcrypt::BcryptError>)
    ensures
        match r {
            Ok(matches) => bcrypt_verdict(password@, hash@) == Some(matches),
            Err(_) => bcrypt_verdict(password@, hash@) is None,
        },
{
    bcrypt::verify(password, hash)
}

/// What a check of a password leads to: the password is accepted, the
/// credentials are refused, or the stored hash could not be read. The
/// text of the last says nothing of the hash.
pub open spec fn password_outcome(verdict: Option<bool>) -> Result<(), Failure> {
    match verdict {
        Some(true) => Ok(()),
        Some(false) => Err(Failure::Unauthorized),
        None => Err(Failure::InternalError("Password verification failed"@)),
    }
}

/// Judges what the check of a password gave.
pub fn judge_password(checked: Result<bool, bcrypt::BcryptError>) -> (r: Result<(), AppError>)
    ensures
        match checked {
            Ok(true) => r is Ok,
            Ok(false) => r is Err && r->Err_0@ == Failure::Unauthorized,
            Err(_) => r is Err && r->Err_0@ == Failure::InternalError(
                "Password verification failed"@,
            ),
        },
{
    match checked {
        Ok(true) => Ok(()),
        Ok(false) => Err(AppError::Unauthorized),
        Err(_) => Err(AppError::internal("Password verification failed")),
    }
}

/// Turns what the hashing of a new password gave into the hash to
/// store. The text of the failure says nothing of the password.
pub fn hashed_or_failed(hashed: Result<String, bcrypt::BcryptError>) -> (r: Result<String, AppError>)
    ensures
        match hashed {
            Ok(hash) => r == Ok::<String, AppError>(hash),
            Err(_) => r is Err && r->Err_0@ == Failure::InternalError("Password hashing failed"@),
        },
{
    match hashed {
        Ok(hash) => Ok(hash),
        Err(_) => Err(AppError::internal("Password hashing failed")),
    }
}

/// Makes the hash under which a new password is stored: salted, costly
/// to compute, and not to be turned back. Every hash that comes back
/// is one that the password is accepted against.
pub fn protect(password: &str) -> (r: Result<String, AppError>)
    ensures
        match r {
            Ok(hash) => bcrypt_verdict(password@, hash@) == Some(true),
            Err(e) => e@ == Failure::InternalError("Password hashing failed"@),
        },
{
    hashed_or_failed(hash_password(password))
}

/// Checks a password against a stored hash.
pub fn check_password(password: &str, hash: &str) -> (r: Result<(), AppError>)
    ensures
        match password_outcome(bcrypt_verdict(password@, hash@)) {
            Ok(_) => r is Ok,
            Err(failure) => r is Err && r->Err_0@ == failure,
        },
{
    judge_password(verify_password(password, hash))
}

} // verus!
