//! The operations on clients.

use vstd::prelude::*;

use crate::database::AppState;
use crate::error::AppError;
use crate::middleware::auth::AuthUser;
use crate::models::client::{Client, CreateClientRequest, UpdateClientRequest};
use crate::repository::{
    after_delete, after_update, create, create_outcome, delete, delete_outcome, get, get_outcome,
    list, shown, update, update_outcome,
};
use crate::router::{all_behind_gateway, Method, Operation, Route};
use crate::store::{distinct_ids, owned_by, unused, views};
use crate::values::Timestamp;

verus! {

/// The routes of the clients. Every one of them stands behind the gateway.
pub open spec fn route_table() -> Seq<Route> {
    seq![
        Route { method: Method::Get, path: "/", operation: Operation::ListClients },
        Route { method: Method::Post, path: "/", operation: Operation::CreateClient },
        Route { method: Method::Get, path: "/:id", operation: Operation::GetClient },
        Route { method: Method::Put, path: "/:id", operation: Operation::UpdateClient },
        Route { method: Method::Delete, path: "/:id", operation: Operation::DeleteClient },
    ]
}

/// The routes of the clients. Every one of them stands behind the gateway.
pub fn routes() -> (routes: Vec<Route>)
    ensures
        routes@ == route_table(),
        all_behind_gateway(routes@),
{
    let routes = vec![
        Route { method: Method::Get, path: "/", operation: Operation::ListClients },
        Route { method: Method::Post, path: "/", operation: Operation::CreateClient },
        Route { method: Method::Get, path: "/:id", operation: Operation::GetClient },
        Route { method: Method::Put, path: "/:id", operation: Operation::UpdateClient },
        Route { method: Method::Delete, path: "/:id", operation: Operation::DeleteClient },
    ];
    assert(routes@ =~= route_table());
    routes
}

/// All clients of the caller.
pub fn list_clients(state: &AppState, auth_user: &AuthUser) -> (r: Vec<Client>)
    ensures
        distinct_ids::<Client>(state.db.clients@),
        views(r@) == owned_by::<Client>(state.db.clients@, auth_user.user_id),
{
    list(&state.db.clients, auth_user.user_id)
}

/// Stores a new client of the caller and returns it with its identifier.
pub fn create_client(
    state: &mut AppState,
    auth_user: &AuthUser,
    payload: CreateClientRequest,
    now: Timestamp,
) -> (r: Result<Client, AppError>)
    ensures
        old(state).but_clients(*final(state)),
        distinct_ids::<Client>(old(state).db.clients@),
        distinct_ids::<Client>(final(state).db.clients@),
        unused::<Client>(old(state).db.clients@, old(state).db.clients.next_id()),
        (final(state).db.clients@, shown(r)) == create_outcome::<Client>(
            old(state).db.clients@,
            old(state).db.clients.next_id(),
            old(state).db.clients.exhausted(),
            Client::described(auth_user.user_id, payload, now),
        ),
{
    let client = Client::new(auth_user.user_id, payload, now);
    create(&mut state.db.clients, client)
}

/// The client that `id` names, if the caller has one.
pub fn get_client(state: &AppState, auth_user: &AuthUser, id: &str) -> (r: Result<Client, AppError>)
    ensures
        distinct_ids::<Client>(state.db.clients@),
        shown(r) == get_outcome::<Client>(
            state.db.clients@,
            auth_user.user_id,
            id@,
            "Client not found"@,
        ),
{
    get(&state.db.clients, auth_user.user_id, id, "Client not found")
}

/// Changes the fields of a client that the request holds.
pub fn update_client(
    state: &mut AppState,
    auth_user: &AuthUser,
    id: &str,
    payload: UpdateClientRequest,
    now: Timestamp,
) -> (r: Result<Client, AppError>)
    ensures
        old(state).but_clients(*final(state)),
        distinct_ids::<Client>(old(state).db.clients@),
        distinct_ids::<Client>(final(state).db.clients@),
        shown(r) == update_outcome::<Client, UpdateClientRequest>(
            old(state).db.clients@,
            auth_user.user_id,
            id@,
            payload,
            now,
            "Client not found"@,
        ),
        final(state).db.clients@ == after_update::<Client, UpdateClientRequest>(
            old(state).db.clients@,
            auth_user.user_id,
            id@,
            payload,
            now,
        ),
{
    update(&mut state.db.clients, auth_user.user_id, id, payload, now, "Client not found")
}

/// Removes a client of the caller.
pub fn delete_client(state: &mut AppState, auth_user: &AuthUser, id: &str) -> (r: Result<String, AppError>)
    ensures
        old(state).but_clients(*final(state)),
        distinct_ids::<Client>(old(state).db.clients@),
        distinct_ids::<Client>(final(state).db.clients@),
        shown(r) == delete_outcome::<Client>(
            old(state).db.clients@,
            auth_user.user_id,
            id@,
            "Client deleted"@,
            "Client not found"@,
        ),
        final(state).db.clients@ == after_delete::<Client>(
            old(state).db.clients@,
            auth_user.user_id,
            id@,
        ),
{
    delete(&mut state.db.clients, auth_user.user_id, id, "Client deleted", "Client not found")
}

} // verus!
