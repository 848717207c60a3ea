//! The five ways a request can fail, and how each is shown to the caller.

use vstd::prelude::*;
use vstd::string::StringExecFns;

verus! {

/// A terminal failure of a request. None is retried.
#[derive(Debug, Clone, PartialEq, Eq)]
pub enum AppError {
    /// No record is visible to this owner under the given identifier.
    NotFound(String),
    /// The token is missing, malformed, forged or expired, or the
    /// credentials are wrong. The cause is never told apart.
    Unauthorized,
    /// An identifier or a payload is malformed.
    BadRequest(String),
    /// Storage or a downstream service failed.
    InternalError(String),
    /// A value that must be unique is already taken.
    Conflict(String),
}

/// What an [`AppError`] holds, with its text as a sequence of characters.
pub enum Failure {
    NotFound(Seq<char>),
    Unauthorized,
    BadRequest(Seq<char>),
    InternalError(Seq<char>),
    Conflict(Seq<char>),
}

impl View for AppError {
    type V = Failure;

    open spec fn view(&self) -> Failure {
        match *self {
            AppError::NotFound(m) => Failure::NotFound(m@),
            AppError::Unauthorized => Failure::Unauthorized,
            AppError::BadRequest(m) => Failure::BadRequest(m@),
            AppError::InternalError(m) => Failure::InternalError(m@),
            AppError::Conflict(m) => Failure::Conflict(m@),
        }
    }
}

impl Failure {
    /// The response status that stands for this failure.
    pub open spec fn status(self) -> u16 {
        match self {
            Failure::NotFound(_) => 404,
            Failure::Unauthorized => 401,
            Failure::BadRequest(_) => 400,
            Failure::InternalError(_) => 500,
            Failure::Conflict(_) => 409,
        }
    }

    /// The short text shown to the caller.
    pub open spec fn message(self) -> Seq<char> {
        match self {
            Failure::NotFound(m) => m,
            Failure::Unauthorized => "Unauthorized"@,
            Failure::BadRequest(m) => m,
            Failure::InternalError(m) => m,
            Failure::Conflict(m) => m,
        }
    }
}

impl AppError {
    pub fn not_found(message: &str) -> (e: AppError)
        ensures
            e@ == Failure::NotFound(message@),
    {
        AppError::NotFound(String::from_str(message))
    }

    pub fn bad_request(message: &str) -> (e: AppError)
        ensures
            e@ == Failure::BadRequest(message@),
    {
        AppError::BadRequest(String::from_str(message))
    }

    pub fn internal(message: &str) -> (e: AppError)
        ensures
            e@ == Failure::InternalError(message@),
    {
        AppError::InternalError(String::from_str(message))
    }

    pub fn conflict(message: &str) -> (e: AppError)
        ensures
            e@ == Failure::Conflict(message@),
    {
        AppError::Conflict(String::from_str(message))
    }

    /// The response status: each kind of failure has its own.
    pub fn status_code(&self) -> (code: u16)
        ensures
            code == self@.status(),
    {
        match self {
            AppError::NotFound(_) => 404,
            AppError::Unauthorized => 401,
            AppError::BadRequest(_) => 400,
            AppError::InternalError(_) => 500,
            AppError::Conflict(_) => 409,
        }
    }

    /// The text shown to the caller.
    pub fn message(&self) -> (text: String)
        ensures
            text@ == self@.message(),
    {
        match self {
            AppError::NotFound(m) => m.clone(),
            AppError::Unauthorized => String::from_str("Unauthorized"),
            AppError::BadRequest(m) => m.clone(),
            AppError::InternalError(m) => m.clone(),
            AppError::Conflict(m) => m.clone(),
        }
    }

    /// Status and text of the response that reports this failure.
    pub fn into_response(self) -> (response: (u16, String))
        ensures
            response.0 == self@.status(),
            response.1@ == self@.message(),
    {
        let code = self.status_code();
        let text = match self {
            AppError::NotFound(m) => m,
            AppError::Unauthorized => String::from_str("Unauthorized"),
            AppError::BadRequest(m) => m,
            AppError::InternalError(m) => m,
            AppError::Conflict(m) => m,
        };
        (code, text)
    }
}

impl From<jsonwebtoken::errors::Error> for AppError {
    /// Whatever is wrong with a token, the answer is the same.
    fn from(err: jsonwebtoken::errors::Error) -> (e: AppError) {
        AppError::Unauthorized
    }
}

impl vstd::std_specs::convert::FromSpecImpl<jsonwebtoken::errors::Error> for AppError {
    open spec fn obeys_from_spec() -> bool {
        true
    }

    open spec fn from_spec(err: jsonwebtoken::errors::Error) -> AppError {
        AppError::Unauthorized
    }
}

/// Two failures of different kinds never share a status.
pub proof fn lemma_status_tells_kinds_apart(a: Failure, b: Failure)
    requires
        a.status() == b.status(),
    ensures
        a is NotFound <==> b is NotFound,
        a is Unauthorized <==> b is Unauthorized,
        a is BadRequest <==> b is BadRequest,
        a is InternalError <==> b is InternalError,
        a is Conflict <==> b is Conflict,
{
}

} // verus!
