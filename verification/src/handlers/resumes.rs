//! The operations on resumes, and the request to the service that
//! rewrites a resume for a job.

use vstd::prelude::*;
use vstd::string::StringExecFns;

use crate::database::AppState;
use crate::error::{AppError, Failure};
use crate::ident::{parse_id, parsed, well_formed};
use crate::middleware::auth::AuthUser;
use crate::models::resume::{CreateResumeRequest, OptimizeResumeRequest, Resume, ResumeView};
use crate::repository::{
    after_delete, create, create_outcome, delete, delete_outcome, found_or_missing, get,
    get_outcome, list, shown,
};
use crate::router::{all_behind_gateway, Method, Operation, Route};
use crate::store::{distinct_ids, found, owned_by, unused, views, Filter};
use crate::values::Timestamp;

verus! {

/// The routes of the resumes. Every one of them stands behind the gateway.
pub open spec fn route_table() -> Seq<Route> {
    seq![
        Route { method: Method::Get, path: "/", operation: Operation::ListResumes },
        Route { method: Method::Post, path: "/", operation: Operation::CreateResume },
        Route { method: Method::Get, path: "/:id", operation: Operation::GetResume },
        Route { method: Method::Delete, path: "/:id", operation: Operation::DeleteResume },
        Route { method: Method::Post, path: "/optimize", operation: Operation::OptimizeResume },
    ]
}

/// The routes of the resumes. Every one of them stands behind the gateway.
pub fn routes() -> (routes: Vec<Route>)
    ensures
        routes@ == route_table(),
        all_behind_gateway(routes@),
{
    let routes = vec![
        Route { method: Method::Get, path: "/", operation: Operation::ListResumes },
        Route { method: Method::Post, path: "/", operation: Operation::CreateResume },
        Route { method: Method::Get, path: "/:id", operation: Operation::GetResume },
        Route { method: Method::Delete, path: "/:id", operation: Operation::DeleteResume },
        Route { method: Method::Post, path: "/optimize", operation: Operation::OptimizeResume },
    ];
    assert(routes@ =~= route_table());
    routes
}

/// All resumes of the caller.
pub fn list_resumes(state: &AppState, auth_user: &AuthUser) -> (r: Vec<Resume>)
    ensures
        distinct_ids::<Resume>(state.db.resumes@),
        views(r@) == owned_by::<Resume>(state.db.resumes@, auth_user.user_id),
{
    list(&state.db.resumes, auth_user.user_id)
}

/// Stores a new resume of the caller and returns it with its identifier.
pub fn create_resume(
    state: &mut AppState,
    auth_user: &AuthUser,
    payload: CreateResumeRequest,
    now: Timestamp,
) -> (r: Result<Resume, AppError>)
    ensures
        old(state).but_resumes(*final(state)),
        distinct_ids::<Resume>(old(state).db.resumes@),
        distinct_ids::<Resume>(final(state).db.resumes@),
        unused::<Resume>(old(state).db.resumes@, old(state).db.resumes.next_id()),
        (final(state).db.resumes@, shown(r)) == create_outcome::<Resume>(
            old(state).db.resumes@,
            old(state).db.resumes.next_id(),
            old(state).db.resumes.exhausted(),
            Resume::described(auth_user.user_id, payload, now),
        ),
{
    let doc = Resume::new(auth_user.user_id, payload, now);
    create(&mut state.db.resumes, doc)
}

/// The resume that `id` names, if the caller has one.
pub fn get_resume(state: &AppState, auth_user: &AuthUser, id: &str) -> (r: Result<Resume, AppError>)
    ensures
        distinct_ids::<Resume>(state.db.resumes@),
        shown(r) == get_outcome::<Resume>(
            state.db.resumes@,
            auth_user.user_id,
            id@,
            "Resume not found"@,
        ),
{
    get(&state.db.resumes, auth_user.user_id, id, "Resume not found")
}

/// Removes a resume of the caller.
pub fn delete_resume(state: &mut AppState, auth_user: &AuthUser, id: &str) -> (r: Result<String, AppError>)
    ensures
        old(state).but_resumes(*final(state)),
        distinct_ids::<Resume>(old(state).db.resumes@),
        distinct_ids::<Resume>(final(state).db.resumes@),
        shown(r) == delete_outcome::<Resume>(
            old(state).db.resumes@,
            auth_user.user_id,
            id@,
            "Resume deleted"@,
            "Resume not found"@,
        ),
        final(state).db.resumes@ == after_delete::<Resume>(
            old(state).db.resumes@,
            auth_user.user_id,
            id@,
        ),
{
    delete(&mut state.db.resumes, auth_user.user_id, id, "Resume deleted", "Resume not found")
}

/// A request to the optimisation service: where to send it, and the
/// resume and the job description to send.
#[derive(Debug, Clone, PartialEq, Eq)]
pub struct OptimizeCall {
    pub url: String,
    pub resume: Resume,
    pub job_description: String,
}

/// What came of a request to the optimisation service.
#[derive(Debug, Clone, PartialEq, Eq)]
pub enum OptimizeReply {
    /// The service sent a result. It is handed on as it came.
    Answer(String),
    /// The request did not get through; the text says why.
    Unreachable(String),
    /// The service answered with something that is no result.
    Unreadable(String),
}

/// The address of the optimisation service under the base `base`.
pub open spec fn optimize_url(base: Seq<char>) -> Seq<char> {
    base + "/optimize-resume"@
}

/// The request to the optimisation service that a caller's request
/// leads to. The resume is looked up for the caller alone: a resume of
/// another owner is not found and nothing of it is sent.
pub open spec fn optimize_plan(
    resumes: Seq<ResumeView>,
    owner: crate::ident::ObjectId,
    base: Seq<char>,
    payload: OptimizeResumeRequest,
) -> Result<(Seq<char>, ResumeView, Seq<char>), Failure> {
    if !well_formed(payload.resume_id@) {
        Err(Failure::BadRequest("Invalid resume ID"@))
    } else {
        match found::<Resume>(resumes, Filter { id: parsed(payload.resume_id@), user_id: owner }) {
            None => Err(Failure::NotFound("Resume not found"@)),
            Some(resume) => Ok((optimize_url(base), resume, payload.job_description@)),
        }
    }
}

impl View for OptimizeCall {
    type V = (Seq<char>, ResumeView, Seq<char>);

    open spec fn view(&self) -> (Seq<char>, ResumeView, Seq<char>) {
        (self.url@, self.resume@, self.job_description@)
    }
}

/// The request to the optimisation service for a resume that was
/// found for the caller.
pub fn optimize_call(base: &str, resume: Resume, payload: OptimizeResumeRequest) -> (call: OptimizeCall)
    ensures
        call@ == (optimize_url(base@), resume@, payload.job_description@),
{
    let url = String::from_str(base).concat("/optimize-resume");
    OptimizeCall { url, resume, job_description: payload.job_description }
}

/// Prepares the request to the optimisation service for a resume of
/// the caller. Sending it is left to the caller's side.
pub fn optimize_resume(state: &AppState, auth_user: &AuthUser, payload: OptimizeResumeRequest) -> (r: Result<
    OptimizeCall,
    AppError,
>)
    ensures
        shown(r) == optimize_plan(
            state.db.resumes@,
            auth_user.user_id,
            state.config.ai_service_url@,
            payload,
        ),
{
    let id = match parse_id(payload.resume_id.as_str(), "Invalid resume ID") {
        Ok(id) => id,
        Err(e) => {
            return Err(e);
        },
    };
    let f = Filter { id, user_id: auth_user.user_id };
    let resume = match found_or_missing(state.db.resumes.find_one(&f), "Resume not found") {
        Ok(resume) => resume,
        Err(e) => {
            return Err(e);
        },
    };
    Ok(optimize_call(state.config.ai_service_url.as_str(), resume, payload))
}

/// What the caller is told after the optimisation service was asked:
/// its result, or an internal error that says what went wrong.
pub open spec fn optimize_outcome(reply: OptimizeReply) -> Result<Seq<char>, Failure> {
    match reply {
        OptimizeReply::Answer(result) => Ok(result@),
        OptimizeReply::Unreachable(why) => Err(
            Failure::InternalError("AI service error: "@ + why@),
        ),
        OptimizeReply::Unreadable(why) => Err(
            Failure::InternalError("Failed to parse AI response: "@ + why@),
        ),
    }
}

/// Turns the reply of the optimisation service into the answer.
pub fn conclude_optimization(reply: OptimizeReply) -> (r: Result<String, AppError>)
    ensures
        shown(r) == optimize_outcome(reply),
{
    match reply {
        OptimizeReply::Answer(result) => Ok(result),
        OptimizeReply::Unreachable(why) => Err(
            AppError::InternalError(String::from_str("AI service error: ").concat(why.as_str())),
        ),
        OptimizeReply::Unreadable(why) => Err(
            AppError::InternalError(
                String::from_str("Failed to parse AI response: ").concat(why.as_str()),
            ),
        ),
    }
}

} // verus!
