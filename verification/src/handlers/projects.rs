//! The operations on projects.

use vstd::prelude::*;

use crate::database::AppState;
use crate::error::{AppError, Failure};
use crate::ident::{parse_id_if_given, parsed_if_given};
use crate::middleware::auth::AuthUser;
use crate::models::project::{CreateProjectRequest, Project, UpdateProjectRequest};
use crate::repository::{
    after_delete, after_update, create, create_outcome, delete, delete_outcome, get, get_outcome,
    list, shown, update, update_outcome,
};
use crate::router::{all_behind_gateway, Method, Operation, Route};
use crate::store::{distinct_ids, owned_by, unused, views};
use crate::values::Timestamp;

verus! {

/// The routes of the projects. Every one of them stands behind the gateway.
pub open spec fn route_table() -> Seq<Route> {
    seq![
        Route { method: Method::Get, path: "/", operation: Operation::ListProjects },
        Route { method: Method::Post, path: "/", operation: Operation::CreateProject },
        Route { method: Method::Get, path: "/:id", operation: Operation::GetProject },
        Route { method: Method::Put, path: "/:id", operation: Operation::UpdateProject },
        Route { method: Method::Delete, path: "/:id", operation: Operation::DeleteProject },
    ]
}

/// The routes of the projects. Every one of them stands behind the gateway.
pub fn routes() -> (routes: Vec<Route>)
    ensures
        routes@ == route_table(),
        all_behind_gateway(routes@),
{
    let routes = vec![
        Route { method: Method::Get, path: "/", operation: Operation::ListProjects },
        Route { method: Method::Post, path: "/", operation: Operation::CreateProject },
        Route { method: Method::Get, path: "/:id", operation: Operation::GetProject },
        Route { method: Method::Put, path: "/:id", operation: Operation::UpdateProject },
        Route { method: Method::Delete, path: "/:id", operation: Operation::DeleteProject },
    ];
    assert(routes@ =~= route_table());
    routes
}

/// All projects of the caller.
pub fn list_projects(state: &AppState, auth_user: &AuthUser) -> (r: Vec<Project>)
    ensures
        distinct_ids::<Project>(state.db.projects@),
        views(r@) == owned_by::<Project>(state.db.projects@, auth_user.user_id),
{
    list(&state.db.projects, auth_user.user_id)
}

/// Stores a new project of the caller. A project may name a client;
/// if it does, the name must be the text of an identifier.
pub fn create_project(
    state: &mut AppState,
    auth_user: &AuthUser,
    payload: CreateProjectRequest,
    now: Timestamp,
) -> (r: Result<Project, AppError>)
    ensures
        old(state).but_projects(*final(state)),
        distinct_ids::<Project>(old(state).db.projects@),
        distinct_ids::<Project>(final(state).db.projects@),
        unused::<Project>(old(state).db.projects@, old(state).db.projects.next_id()),
        (final(state).db.projects@, shown(r)) == match parsed_if_given(payload.client_id) {
            None => (
                old(state).db.projects@,
                Err::<Project, Failure>(Failure::BadRequest("Invalid client ID"@)),
            ),
            Some(client_id) => create_outcome::<Project>(
                old(state).db.projects@,
                old(state).db.projects.next_id(),
                old(state).db.projects.exhausted(),
                Project::described(auth_user.user_id, client_id, payload, now),
            ),
        },
{
    let _ = state.db.projects.len();
    let client_id = match parse_id_if_given(&payload.client_id, "Invalid client ID") {
        Ok(id) => id,
        Err(e) => {
            return Err(e);
        },
    };
    let doc = Project::new(auth_user.user_id, client_id, payload, now);
    create(&mut state.db.projects, doc)
}

/// The project that `id` names, if the caller has one.
pub fn get_project(state: &AppState, auth_user: &AuthUser, id: &str) -> (r: Result<Project, AppError>)
    ensures
        distinct_ids::<Project>(state.db.projects@),
        shown(r) == get_outcome::<Project>(
            state.db.projects@,
            auth_user.user_id,
            id@,
            "Project not found"@,
        ),
{
    get(&state.db.projects, auth_user.user_id, id, "Project not found")
}

/// Changes the fields of a project that the request holds.
pub fn update_project(
    state: &mut AppState,
    auth_user: &AuthUser,
    id: &str,
    payload: UpdateProjectRequest,
    now: Timestamp,
) -> (r: Result<Project, AppError>)
    ensures
        old(state).but_projects(*final(state)),
        distinct_ids::<Project>(old(state).db.projects@),
        distinct_ids::<Project>(final(state).db.projects@),
        shown(r) == update_outcome::<Project, UpdateProjectRequest>(
            old(state).db.projects@,
            auth_user.user_id,
            id@,
            payload,
            now,
            "Project not found"@,
        ),
        final(state).db.projects@ == after_update::<Project, UpdateProjectRequest>(
            old(state).db.projects@,
            auth_user.user_id,
            id@,
            payload,
            now,
        ),
{
    update(&mut state.db.projects, auth_user.user_id, id, payload, now, "Project not found")
}

/// Removes a project of the caller.
pub fn delete_project(state: &mut AppState, auth_user: &AuthUser, id: &str) -> (r: Result<String, AppError>)
    ensures
        old(state).but_projects(*final(state)),
        distinct_ids::<Project>(old(state).db.projects@),
        distinct_ids::<Project>(final(state).db.projects@),
        shown(r) == delete_outcome::<Project>(
            old(state).db.projects@,
            auth_user.user_id,
            id@,
            "Project deleted"@,
            "Project not found"@,
        ),
        final(state).db.projects@ == after_delete::<Project>(
            old(state).db.projects@,
            auth_user.user_id,
            id@,
        ),
{
    delete(&mut state.db.projects, auth_user.user_id, id, "Project deleted", "Project not found")
}

} // verus!
