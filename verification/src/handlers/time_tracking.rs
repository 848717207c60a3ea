//! The operations on entries of tracked time.

use vstd::prelude::*;

use crate::database::AppState;
use crate::error::{AppError, Failure};
use crate::ident::{parse_id_if_given, parsed_if_given};
use crate::middleware::auth::AuthUser;
use crate::models::time_entry::{
    CreateTimeEntryRequest, StopTimeEntryRequest, TimeEntry, UpdateTimeEntryRequest,
};
use crate::repository::{
    after_delete, after_update, create, create_outcome, delete, delete_outcome, get, get_outcome,
    list, shown, update, update_outcome,
};
use crate::router::{all_behind_gateway, Method, Operation, Route};
use crate::store::{distinct_ids, owned_by, unused, views};
use crate::values::Timestamp;

verus! {

/// The routes of the time entries. Every one of them stands behind the gateway.
pub open spec fn route_table() -> Seq<Route> {
    seq![
        Route { method: Method::Get, path: "/", operation: Operation::ListTimeEntries },
        Route { method: Method::Post, path: "/", operation: Operation::CreateTimeEntry },
        Route { method: Method::Get, path: "/:id", operation: Operation::GetTimeEntry },
        Route { method: Method::Put, path: "/:id", operation: Operation::UpdateTimeEntry },
        Route { method: Method::Delete, path: "/:id", operation: Operation::DeleteTimeEntry },
        Route { method: Method::Post, path: "/:id/stop", operation: Operation::StopTimeEntry },
    ]
}

/// The routes of the time entries. Every one of them stands behind the gateway.
pub fn routes() -> (routes: Vec<Route>)
    ensures
        routes@ == route_table(),
        all_behind_gateway(routes@),
{
    let routes = vec![
        Route { method: Method::Get, path: "/", operation: Operation::ListTimeEntries },
        Route { method: Method::Post, path: "/", operation: Operation::CreateTimeEntry },
        Route { method: Method::Get, path: "/:id", operation: Operation::GetTimeEntry },
        Route { method: Method::Put, path: "/:id", operation: Operation::UpdateTimeEntry },
        Route { method: Method::Delete, path: "/:id", operation: Operation::DeleteTimeEntry },
        Route { method: Method::Post, path: "/:id/stop", operation: Operation::StopTimeEntry },
    ];
    assert(routes@ =~= route_table());
    routes
}

/// All time entries of the caller.
pub fn list_time_entries(state: &AppState, auth_user: &AuthUser) -> (r: Vec<TimeEntry>)
    ensures
        distinct_ids::<TimeEntry>(state.db.time_entries@),
        views(r@) == owned_by::<TimeEntry>(state.db.time_entries@, auth_user.user_id),
{
    list(&state.db.time_entries, auth_user.user_id)
}

/// Starts a new entry of the caller. An entry may name a project; if
/// it does, the name must be the text of an identifier.
pub fn create_time_entry(
    state: &mut AppState,
    auth_user: &AuthUser,
    payload: CreateTimeEntryRequest,
    now: Timestamp,
) -> (r: Result<TimeEntry, AppError>)
    ensures
        old(state).but_time_entries(*final(state)),
        distinct_ids::<TimeEntry>(old(state).db.time_entries@),
        distinct_ids::<TimeEntry>(final(state).db.time_entries@),
        unused::<TimeEntry>(old(state).db.time_entries@, old(state).db.time_entries.next_id()),
        (final(state).db.time_entries@, shown(r)) == match parsed_if_given(payload.project_id) {
            None => (
                old(state).db.time_entries@,
                Err::<TimeEntry, Failure>(Failure::BadRequest("Invalid project ID"@)),
            ),
            Some(project_id) => create_outcome::<TimeEntry>(
                old(state).db.time_entries@,
                old(state).db.time_entries.next_id(),
                old(state).db.time_entries.exhausted(),
                TimeEntry::described(auth_user.user_id, project_id, payload, now),
            ),
        },
{
    let _ = state.db.time_entries.len();
    let project_id = match parse_id_if_given(&payload.project_id, "Invalid project ID") {
        Ok(id) => id,
        Err(e) => {
            return Err(e);
        },
    };
    let doc = TimeEntry::new(auth_user.user_id, project_id, payload, now);
    create(&mut state.db.time_entries, doc)
}

/// The time entry that `id` names, if the caller has one.
pub fn get_time_entry(state: &AppState, auth_user: &AuthUser, id: &str) -> (r: Result<TimeEntry, AppError>)
    ensures
        distinct_ids::<TimeEntry>(state.db.time_entries@),
        shown(r) == get_outcome::<TimeEntry>(
            state.db.time_entries@,
            auth_user.user_id,
            id@,
            "Time entry not found"@,
        ),
{
    get(&state.db.time_entries, auth_user.user_id, id, "Time entry not found")
}

/// Stops an entry: sets its end and fixes its duration, in whole seconds
/// from its start to that end.
pub fn stop_time_entry(
    state: &mut AppState,
    auth_user: &AuthUser,
    id: &str,
    payload: StopTimeEntryRequest,
    now: Timestamp,
) -> (r: Result<TimeEntry, AppError>)
    ensures
        old(state).but_time_entries(*final(state)),
        distinct_ids::<TimeEntry>(old(state).db.time_entries@),
        distinct_ids::<TimeEntry>(final(state).db.time_entries@),
        shown(r) == update_outcome::<TimeEntry, StopTimeEntryRequest>(
            old(state).db.time_entries@,
            auth_user.user_id,
            id@,
            payload,
            now,
            "Time entry not found"@,
        ),
        final(state).db.time_entries@ == after_update::<TimeEntry, StopTimeEntryRequest>(
            old(state).db.time_entries@,
            auth_user.user_id,
            id@,
            payload,
            now,
        ),
{
    update(&mut state.db.time_entries, auth_user.user_id, id, payload, now, "Time entry not found")
}

/// Changes the fields of an entry that the request holds. The duration
/// is not among them: it stays as stopping fixed it.
pub fn update_time_entry(
    state: &mut AppState,
    auth_user: &AuthUser,
    id: &str,
    payload: UpdateTimeEntryRequest,
    now: Timestamp,
) -> (r: Result<TimeEntry, AppError>)
    ensures
        old(state).but_time_entries(*final(state)),
        distinct_ids::<TimeEntry>(old(state).db.time_entries@),
        distinct_ids::<TimeEntry>(final(state).db.time_entries@),
        shown(r) == update_outcome::<TimeEntry, UpdateTimeEntryRequest>(
            old(state).db.time_entries@,
            auth_user.user_id,
            id@,
            payload,
            now,
            "Time entry not found"@,
        ),
        final(state).db.time_entries@ == after_update::<TimeEntry, UpdateTimeEntryRequest>(
            old(state).db.time_entries@,
            auth_user.user_id,
            id@,
            payload,
            now,
        ),
{
    update(&mut state.db.time_entries, auth_user.user_id, id, payload, now, "Time entry not found")
}

/// Removes an entry of the caller.
pub fn delete_time_entry(state: &mut AppState, auth_user: &AuthUser, id: &str) -> (r: Result<String, AppError>)
    ensures
        old(state).but_time_entries(*final(state)),
        distinct_ids::<TimeEntry>(old(state).db.time_entries@),
        distinct_ids::<TimeEntry>(final(state).db.time_entries@),
        shown(r) == delete_outcome::<TimeEntry>(
            old(state).db.time_entries@,
            auth_user.user_id,
            id@,
            "Time entry deleted"@,
            "Time entry not found"@,
        ),
        final(state).db.time_entries@ == after_delete::<TimeEntry>(
            old(state).db.time_entries@,
            auth_user.user_id,
            id@,
        ),
{
    delete(&mut state.db.time_entries, auth_user.user_id, id, "Time entry deleted", "Time entry not found")
}

} // verus!
