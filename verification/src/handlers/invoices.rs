//! The operations on invoices.

use vstd::prelude::*;

use crate::database::AppState;
use crate::error::{AppError, Failure};
use crate::ident::{parse_id, parsed, well_formed};
use crate::middleware::auth::AuthUser;
use crate::models::invoice::{
    InvoiceView, CreateInvoiceRequest, Invoice, Totals, UpdateInvoiceStatusRequest,
};
use crate::repository::{
    after_update, create, create_outcome, get, get_outcome, list, shown, update, update_outcome,
};
use crate::router::{all_behind_gateway, Method, Operation, Route};
use crate::store::{distinct_ids, owned_by, unused, views};
use crate::values::Timestamp;

verus! {

/// The routes of the invoices. Every one of them stands behind the gateway.
pub open spec fn route_table() -> Seq<Route> {
    seq![
        Route { method: Method::Get, path: "/", operation: Operation::ListInvoices },
        Route { method: Method::Post, path: "/", operation: Operation::CreateInvoice },
        Route { method: Method::Get, path: "/:id", operation: Operation::GetInvoice },
        Route { method: Method::Put, path: "/:id", operation: Operation::UpdateInvoiceStatus },
    ]
}

/// The routes of the invoices. Every one of them stands behind the gateway.
pub fn routes() -> (routes: Vec<Route>)
    ensures
        routes@ == route_table(),
        all_behind_gateway(routes@),
{
    let routes = vec![
        Route { method: Method::Get, path: "/", operation: Operation::ListInvoices },
        Route { method: Method::Post, path: "/", operation: Operation::CreateInvoice },
        Route { method: Method::Get, path: "/:id", operation: Operation::GetInvoice },
        Route { method: Method::Put, path: "/:id", operation: Operation::UpdateInvoiceStatus },
    ];
    assert(routes@ =~= route_table());
    routes
}

/// All invoices of the caller.
pub fn list_invoices(state: &AppState, auth_user: &AuthUser) -> (r: Vec<Invoice>)
    ensures
        distinct_ids::<Invoice>(state.db.invoices@),
        views(r@) == owned_by::<Invoice>(state.db.invoices@, auth_user.user_id),
{
    list(&state.db.invoices, auth_user.user_id)
}

/// Stores a new invoice of the caller. Its number follows from how
/// many invoices the caller has, whatever other owners have. The sums
/// are taken as given.
pub fn create_invoice(
    state: &mut AppState,
    auth_user: &AuthUser,
    payload: CreateInvoiceRequest,
    sums: Totals,
    now: Timestamp,
) -> (r: Result<Invoice, AppError>)
    ensures
        old(state).but_invoices(*final(state)),
        distinct_ids::<Invoice>(old(state).db.invoices@),
        distinct_ids::<Invoice>(final(state).db.invoices@),
        unused::<Invoice>(old(state).db.invoices@, old(state).db.invoices.next_id()),
        (final(state).db.invoices@, shown(r)) == if well_formed(payload.client_id@) {
            create_outcome::<Invoice>(
                old(state).db.invoices@,
                old(state).db.invoices.next_id(),
                old(state).db.invoices.exhausted(),
                Invoice::described(
                    auth_user.user_id,
                    parsed(payload.client_id@),
                    payload,
                    sums,
                    owned_by::<Invoice>(old(state).db.invoices@, auth_user.user_id).len(),
                    now,
                ),
            )
        } else {
            (old(state).db.invoices@, Err::<InvoiceView, Failure>(Failure::BadRequest("Invalid client ID"@)))
        },
{
    let _ = state.db.invoices.len();
    let client_id = match parse_id(payload.client_id.as_str(), "Invalid client ID") {
        Ok(id) => id,
        Err(e) => {
            return Err(e);
        },
    };
    let count = state.db.invoices.count_documents(auth_user.user_id);
    let doc = Invoice::new(auth_user.user_id, client_id, payload, sums, count, now);
    create(&mut state.db.invoices, doc)
}

/// The invoice that `id` names, if the caller has one.
pub fn get_invoice(state: &AppState, auth_user: &AuthUser, id: &str) -> (r: Result<Invoice, AppError>)
    ensures
        distinct_ids::<Invoice>(state.db.invoices@),
        shown(r) == get_outcome::<Invoice>(
            state.db.invoices@,
            auth_user.user_id,
            id@,
            "Invoice not found"@,
        ),
{
    get(&state.db.invoices, auth_user.user_id, id, "Invoice not found")
}

/// Sets the status of an invoice.
pub fn update_invoice_status(
    state: &mut AppState,
    auth_user: &AuthUser,
    id: &str,
    payload: UpdateInvoiceStatusRequest,
    now: Timestamp,
) -> (r: Result<Invoice, AppError>)
    ensures
        old(state).but_invoices(*final(state)),
        distinct_ids::<Invoice>(old(state).db.invoices@),
        distinct_ids::<Invoice>(final(state).db.invoices@),
        shown(r) == update_outcome::<Invoice, UpdateInvoiceStatusRequest>(
            old(state).db.invoices@,
            auth_user.user_id,
            id@,
            payload,
            now,
            "Invoice not found"@,
        ),
        final(state).db.invoices@ == after_update::<Invoice, UpdateInvoiceStatusRequest>(
            old(state).db.invoices@,
            auth_user.user_id,
            id@,
            payload,
            now,
        ),
{
    update(&mut state.db.invoices, auth_user.user_id, id, payload, now, "Invoice not found")
}

} // verus!
