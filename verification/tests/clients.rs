use orbix_backend::config::Config;
use orbix_backend::database::{AppState, Database};
use orbix_backend::error::AppError;
use orbix_backend::handlers::auth::register;
use orbix_backend::handlers::clients::{
    create_client, delete_client, get_client, list_clients, update_client,
};
use orbix_backend::middleware::auth::{auth_middleware, AuthUser};
use orbix_backend::models::client::{Client, CreateClientRequest, UpdateClientRequest};
use orbix_backend::models::user::CreateUserRequest;
use orbix_backend::ident::ObjectId;

const T0: i64 = 1_700_000_000_000;

fn clients_state() -> AppState {
    AppState {
        db: Database::new(),
        config: Config::from_env(None, "secret".to_string(), None, None, None).unwrap(),
    }
}

fn caller(n: u64) -> AuthUser {
    AuthUser { user_id: ObjectId { hi: 1, lo: n } }
}

fn new_client(name: &str) -> CreateClientRequest {
    CreateClientRequest {
        name: name.to_string(),
        email: format!("{}@clients.example", name.to_lowercase()),
        phone: Some("555-0100".to_string()),
        company: None,
        address: Some("1 Main St".to_string()),
        notes: None,
    }
}

fn no_change() -> UpdateClientRequest {
    UpdateClientRequest { name: None, email: None, phone: None, company: None, address: None, notes: None }
}

#[test]
fn scenario_two_owners_and_one_client() {
    let mut state = clients_state();
    let alice = register(
        &mut state,
        CreateUserRequest {
            email: "alice@example.com".to_string(),
            password: "pw1".to_string(),
            name: "Alice".to_string(),
        },
        T0,
    )
    .unwrap();
    let t_a = format!("Bearer {}", alice.token);
    let as_alice = auth_middleware(Some(&state.config), Some(&t_a), T0 + 1).unwrap();
    assert_eq!(Some(as_alice.user_id), alice.user.id);

    let payload = CreateClientRequest {
        name: "Acme".to_string(),
        email: "billing@acme.example".to_string(),
        phone: None,
        company: Some("Acme Inc".to_string()),
        address: None,
        notes: None,
    };
    let c1 = create_client(&mut state, &as_alice, payload, T0 + 2).unwrap();
    assert_eq!(c1.user_id, as_alice.user_id);
    assert_eq!(c1.name, "Acme");
    assert_eq!(c1.created_at, T0 + 2);
    assert_eq!(c1.updated_at, T0 + 2);
    let c1_id = c1.id.unwrap().to_hex();

    let bob = register(
        &mut state,
        CreateUserRequest {
            email: "bob@example.com".to_string(),
            password: "pw2".to_string(),
            name: "Bob".to_string(),
        },
        T0 + 3,
    )
    .unwrap();
    let t_b = format!("Bearer {}", bob.token);
    let as_bob = auth_middleware(Some(&state.config), Some(&t_b), T0 + 4).unwrap();
    assert_ne!(as_bob.user_id, as_alice.user_id);

    assert_eq!(
        get_client(&state, &as_bob, &c1_id),
        Err(AppError::NotFound("Client not found".to_string()))
    );

    let patch = UpdateClientRequest { name: Some("Acme Corp".to_string()), ..no_change() };
    let updated = update_client(&mut state, &as_alice, &c1_id, patch, T0 + 5).unwrap();
    assert_eq!(updated, Client { name: "Acme Corp".to_string(), updated_at: T0 + 5, ..c1.clone() });
    assert!(updated.updated_at > updated.created_at);
    assert_eq!(get_client(&state, &as_alice, &c1_id), Ok(updated));
}

#[test]
fn create_stamps_the_caller_and_the_time() {
    let mut state = clients_state();
    let c = create_client(&mut state, &caller(1), new_client("Acme"), T0).unwrap();
    assert_eq!(
        c,
        Client {
            id: c.id,
            user_id: caller(1).user_id,
            name: "Acme".to_string(),
            email: "acme@clients.example".to_string(),
            phone: Some("555-0100".to_string()),
            company: None,
            address: Some("1 Main St".to_string()),
            notes: None,
            created_at: T0,
            updated_at: T0,
        }
    );
    assert!(c.id.is_some());
    assert_eq!(get_client(&state, &caller(1), &c.id.unwrap().to_hex()), Ok(c));
}

#[test]
fn list_shows_the_callers_clients_only() {
    let mut state = clients_state();
    let a1 = create_client(&mut state, &caller(1), new_client("A1"), T0).unwrap();
    let b1 = create_client(&mut state, &caller(2), new_client("B1"), T0).unwrap();
    let a2 = create_client(&mut state, &caller(1), new_client("A2"), T0).unwrap();
    assert_eq!(list_clients(&state, &caller(1)), vec![a1, a2]);
    assert_eq!(list_clients(&state, &caller(2)), vec![b1]);
    assert_eq!(list_clients(&state, &caller(3)), vec![]);
}

#[test]
fn another_owner_can_neither_get_nor_update_nor_delete() {
    let mut state = clients_state();
    let c = create_client(&mut state, &caller(1), new_client("Acme"), T0).unwrap();
    let id = c.id.unwrap().to_hex();
    let missing = AppError::NotFound("Client not found".to_string());
    assert_eq!(get_client(&state, &caller(2), &id), Err(missing.clone()));
    let patch = UpdateClientRequest { name: Some("Mine now".to_string()), ..no_change() };
    assert_eq!(update_client(&mut state, &caller(2), &id, patch, T0 + 1), Err(missing.clone()));
    assert_eq!(delete_client(&mut state, &caller(2), &id), Err(missing));
    assert_eq!(get_client(&state, &caller(1), &id), Ok(c.clone()));
    assert_eq!(list_clients(&state, &caller(1)), vec![c]);
}

#[test]
fn update_changes_only_the_fields_that_were_sent() {
    let mut state = clients_state();
    let c = create_client(&mut state, &caller(1), new_client("Acme"), T0).unwrap();
    let id = c.id.unwrap().to_hex();
    let patch = UpdateClientRequest {
        phone: Some("555-0199".to_string()),
        notes: Some("pays late".to_string()),
        ..no_change()
    };
    let u = update_client(&mut state, &caller(1), &id, patch, T0 + 10).unwrap();
    assert_eq!(
        u,
        Client {
            phone: Some("555-0199".to_string()),
            notes: Some("pays late".to_string()),
            updated_at: T0 + 10,
            ..c
        }
    );
}

#[test]
fn an_empty_update_refreshes_the_time_of_change_only() {
    let mut state = clients_state();
    let c = create_client(&mut state, &caller(1), new_client("Acme"), T0).unwrap();
    let id = c.id.unwrap().to_hex();
    let u = update_client(&mut state, &caller(1), &id, no_change(), T0 + 7).unwrap();
    assert_eq!(u, Client { updated_at: T0 + 7, ..c });
}

#[test]
fn an_empty_text_is_a_value_not_an_absence() {
    let mut state = clients_state();
    let c = create_client(&mut state, &caller(1), new_client("Acme"), T0).unwrap();
    let id = c.id.unwrap().to_hex();
    let patch = UpdateClientRequest { name: Some(String::new()), phone: Some(String::new()), ..no_change() };
    let u = update_client(&mut state, &caller(1), &id, patch, T0 + 1).unwrap();
    assert_eq!(u.name, "");
    assert_eq!(u.phone, Some(String::new()));
    assert_eq!(u.address, c.address);
}

#[test]
fn update_leaves_other_records_alone() {
    let mut state = clients_state();
    let a = create_client(&mut state, &caller(1), new_client("A"), T0).unwrap();
    let b = create_client(&mut state, &caller(1), new_client("B"), T0).unwrap();
    let patch = UpdateClientRequest { name: Some("A2".to_string()), ..no_change() };
    update_client(&mut state, &caller(1), &a.id.unwrap().to_hex(), patch, T0 + 1).unwrap();
    assert_eq!(get_client(&state, &caller(1), &b.id.unwrap().to_hex()), Ok(b));
}

#[test]
fn delete_removes_and_reports_and_fails_the_second_time() {
    let mut state = clients_state();
    let a = create_client(&mut state, &caller(1), new_client("A"), T0).unwrap();
    let b = create_client(&mut state, &caller(1), new_client("B"), T0).unwrap();
    let id = a.id.unwrap().to_hex();
    assert_eq!(delete_client(&mut state, &caller(1), &id), Ok("Client deleted".to_string()));
    assert_eq!(list_clients(&state, &caller(1)), vec![b.clone()]);
    assert_eq!(
        delete_client(&mut state, &caller(1), &id),
        Err(AppError::NotFound("Client not found".to_string()))
    );
    assert_eq!(list_clients(&state, &caller(1)), vec![b]);
    assert_eq!(
        get_client(&state, &caller(1), &id),
        Err(AppError::NotFound("Client not found".to_string()))
    );
}

#[test]
fn deleting_what_never_existed_is_not_found() {
    let mut state = clients_state();
    let a = create_client(&mut state, &caller(1), new_client("A"), T0).unwrap();
    assert_eq!(
        delete_client(&mut state, &caller(1), "ffffffffffffffffffffffff"),
        Err(AppError::NotFound("Client not found".to_string()))
    );
    assert_eq!(list_clients(&state, &caller(1)), vec![a]);
}

#[test]
fn a_malformed_identifier_is_a_bad_request_not_a_not_found() {
    let mut state = clients_state();
    create_client(&mut state, &caller(1), new_client("A"), T0).unwrap();
    let bad = AppError::BadRequest("Invalid ID".to_string());
    assert_eq!(get_client(&state, &caller(1), "nope"), Err(bad.clone()));
    assert_eq!(update_client(&mut state, &caller(1), "nope", no_change(), T0), Err(bad.clone()));
    assert_eq!(delete_client(&mut state, &caller(1), "nope"), Err(bad.clone()));
    assert_eq!(get_client(&state, &caller(1), ""), Err(bad));
    assert_eq!(state.db.clients.len(), 1);
}

#[test]
fn client_operations_touch_no_other_collection() {
    let mut state = clients_state();
    let c = create_client(&mut state, &caller(1), new_client("A"), T0).unwrap();
    let id = c.id.unwrap().to_hex();
    update_client(&mut state, &caller(1), &id, no_change(), T0 + 1).unwrap();
    delete_client(&mut state, &caller(1), &id).unwrap();
    assert_eq!(state.db.users.len(), 0);
    assert_eq!(state.db.invoices.len(), 0);
    assert_eq!(state.db.projects.len(), 0);
    assert_eq!(state.db.contracts.len(), 0);
    assert_eq!(state.db.resumes.len(), 0);
    assert_eq!(state.db.time_entries.len(), 0);
    assert_eq!(state.config.jwt_secret, "secret");
}
