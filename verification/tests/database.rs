use orbix_backend::config::Config;
use orbix_backend::database::{AppState, Database};
use orbix_backend::error::AppError;
use orbix_backend::handlers::clients::create_client;
use orbix_backend::handlers::projects::create_project;
use orbix_backend::ident::ObjectId;
use orbix_backend::middleware::auth::AuthUser;
use orbix_backend::models::client::CreateClientRequest;
use orbix_backend::models::project::CreateProjectRequest;

#[test]
fn a_new_database_holds_nothing() {
    let db = Database::new();
    assert_eq!(db.users().len(), 0);
    assert_eq!(db.clients().len(), 0);
    assert_eq!(db.invoices().len(), 0);
    assert_eq!(db.time_entries().len(), 0);
    assert_eq!(db.projects().len(), 0);
    assert_eq!(db.contracts().len(), 0);
    assert_eq!(db.resumes().len(), 0);
}

#[test]
fn each_kind_of_record_has_a_collection_of_its_own() {
    let mut state = AppState {
        db: Database::new(),
        config: Config::from_env(None, "secret".to_string(), None, None, None).unwrap(),
    };
    let who = AuthUser { user_id: ObjectId { hi: 9, lo: 9 } };
    let client = create_client(
        &mut state,
        &who,
        CreateClientRequest {
            name: "A".to_string(),
            email: "a@example.com".to_string(),
            phone: None,
            company: None,
            address: None,
            notes: None,
        },
        1,
    )
    .unwrap();
    let project = create_project(
        &mut state,
        &who,
        CreateProjectRequest {
            client_id: client.id.map(|id| id.to_hex()),
            name: "P".to_string(),
            description: None,
            hourly_rate: None,
            budget: None,
            start_date: None,
        },
        2,
    )
    .unwrap();
    assert_eq!(project.client_id, client.id);
    assert_eq!(state.db.clients().len(), 1);
    assert_eq!(state.db.projects().len(), 1);
    assert_eq!(state.db.contracts().len(), 0);
    assert_eq!(client.id, project.id);
}

#[test]
fn any_failure_around_a_token_is_unauthorized() {
    for kind in [
        jsonwebtoken::errors::ErrorKind::InvalidToken,
        jsonwebtoken::errors::ErrorKind::InvalidSignature,
        jsonwebtoken::errors::ErrorKind::ExpiredSignature,
        jsonwebtoken::errors::ErrorKind::InvalidAlgorithm,
    ] {
        assert_eq!(AppError::from(jsonwebtoken::errors::Error::from(kind)), AppError::Unauthorized);
    }
}

#[test]
fn the_first_record_of_each_kind_gets_the_identifier_zero() {
    let mut state = AppState {
        db: Database::new(),
        config: Config::from_env(None, "secret".to_string(), None, None, None).unwrap(),
    };
    let who = AuthUser { user_id: ObjectId { hi: 9, lo: 9 } };
    let request = || CreateClientRequest {
        name: "A".to_string(),
        email: "a@example.com".to_string(),
        phone: None,
        company: None,
        address: None,
        notes: None,
    };
    let first = create_client(&mut state, &who, request(), 1).unwrap();
    let second = create_client(&mut state, &who, request(), 1).unwrap();
    assert_eq!(first.id, Some(ObjectId { hi: 0, lo: 0 }));
    assert_eq!(second.id, Some(ObjectId { hi: 0, lo: 1 }));
    assert_eq!(first.id.unwrap().to_hex(), "000000000000000000000000");
}
