//! The operations on contracts.

use vstd::prelude::*;

use crate::database::AppState;
use crate::error::{AppError, Failure};
use crate::ident::{parse_id, parsed, well_formed};
use crate::middleware::auth::AuthUser;
use crate::models::contract::{Contract, CreateContractRequest, UpdateContractRequest};
use crate::repository::{
    after_delete, after_update, create, create_outcome, delete, delete_outcome, get, get_outcome,
    list, shown, update, update_outcome,
};
use crate::router::{all_behind_gateway, Method, Operation, Route};
use crate::store::{distinct_ids, owned_by, unused, views};
use crate::values::Timestamp;

verus! {

/// The routes of the contracts. Every one of them stands behind the gateway.
pub open spec fn route_table() -> Seq<Route> {
    seq![
        Route { method: Method::Get, path: "/", operation: Operation::ListContracts },
        Route { method: Method::Post, path: "/", operation: Operation::CreateContract },
        Route { method: Method::Get, path: "/:id", operation: Operation::GetContract },
        Route { method: Method::Put, path: "/:id", operation: Operation::UpdateContract },
        Route { method: Method::Delete, path: "/:id", operation: Operation::DeleteContract },
    ]
}

/// The routes of the contracts. Every one of them stands behind the gateway.
pub fn routes() -> (routes: Vec<Route>)
    ensures
        routes@ == route_table(),
        all_behind_gateway(routes@),
{
    let routes = vec![
        Route { method: Method::Get, path: "/", operation: Operation::ListContracts },
        Route { method: Method::Post, path: "/", operation: Operation::CreateContract },
        Route { method: Method::Get, path: "/:id", operation: Operation::GetContract },
        Route { method: Method::Put, path: "/:id", operation: Operation::UpdateContract },
        Route { method: Method::Delete, path: "/:id", operation: Operation::DeleteContract },
    ];
    assert(routes@ =~= route_table());
    routes
}

/// All contracts of the caller.
pub fn list_contracts(state: &AppState, auth_user: &AuthUser) -> (r: Vec<Contract>)
    ensures
        distinct_ids::<Contract>(state.db.contracts@),
        views(r@) == owned_by::<Contract>(state.db.contracts@, auth_user.user_id),
{
    list(&state.db.contracts, auth_user.user_id)
}

/// Stores a new contract of the caller. The client it names must be
/// the text of an identifier.
pub fn create_contract(
    state: &mut AppState,
    auth_user: &AuthUser,
    payload: CreateContractRequest,
    now: Timestamp,
) -> (r: Result<Contract, AppError>)
    ensures
        old(state).but_contracts(*final(state)),
        distinct_ids::<Contract>(old(state).db.contracts@),
        distinct_ids::<Contract>(final(state).db.contracts@),
        unused::<Contract>(old(state).db.contracts@, old(state).db.contracts.next_id()),
        (final(state).db.contracts@, shown(r)) == if well_formed(payload.client_id@) {
            create_outcome::<Contract>(
                old(state).db.contracts@,
                old(state).db.contracts.next_id(),
                old(state).db.contracts.exhausted(),
                Contract::described(auth_user.user_id, parsed(payload.client_id@), payload, now),
            )
        } else {
            (old(state).db.contracts@, Err::<Contract, Failure>(Failure::BadRequest("Invalid client ID"@)))
        },
{
    let _ = state.db.contracts.len();
    let client_id = match parse_id(payload.client_id.as_str(), "Invalid client ID") {
        Ok(id) => id,
        Err(e) => {
            return Err(e);
        },
    };
    let doc = Contract::new(auth_user.user_id, client_id, payload, now);
    create(&mut state.db.contracts, doc)
}

/// The contract that `id` names, if the caller has one.
pub fn get_contract(state: &AppState, auth_user: &AuthUser, id: &str) -> (r: Result<Contract, AppError>)
    ensures
        distinct_ids::<Contract>(state.db.contracts@),
        shown(r) == get_outcome::<Contract>(
            state.db.contracts@,
            auth_user.user_id,
            id@,
            "Contract not found"@,
        ),
{
    get(&state.db.contracts, auth_user.user_id, id, "Contract not found")
}

/// Changes the fields of a contract that the request holds.
pub fn update_contract(
    state: &mut AppState,
    auth_user: &AuthUser,
    id: &str,
    payload: UpdateContractRequest,
    now: Timestamp,
) -> (r: Result<Contract, AppError>)
    ensures
        old(state).but_contracts(*final(state)),
        distinct_ids::<Contract>(old(state).db.contracts@),
        distinct_ids::<Contract>(final(state).db.contracts@),
        shown(r) == update_outcome::<Contract, UpdateContractRequest>(
            old(state).db.contracts@,
            auth_user.user_id,
            id@,
            payload,
            now,
            "Contract not found"@,
        ),
        final(state).db.contracts@ == after_update::<Contract, UpdateContractRequest>(
            old(state).db.contracts@,
            auth_user.user_id,
            id@,
            payload,
            now,
        ),
{
    update(&mut state.db.contracts, auth_user.user_id, id, payload, now, "Contract not found")
}

/// Removes a contract of the caller.
pub fn delete_contract(state: &mut AppState, auth_user: &AuthUser, id: &str) -> (r: Result<String, AppError>)
    ensures
        old(state).but_contracts(*final(state)),
        distinct_ids::<Contract>(old(state).db.contracts@),
        distinct_ids::<Contract>(final(state).db.contracts@),
        shown(r) == delete_outcome::<Contract>(
            old(state).db.contracts@,
            auth_user.user_id,
            id@,
            "Contract deleted"@,
            "Contract not found"@,
        ),
        final(state).db.contracts@ == after_delete::<Contract>(
            old(state).db.contracts@,
            auth_user.user_id,
            id@,
        ),
{
    delete(&mut state.db.contracts, auth_user.user_id, id, "Contract deleted", "Contract not found")
}

} // verus!
