use orbix_backend::config::Config;
use orbix_backend::database::{AppState, Database};
use orbix_backend::error::AppError;
use orbix_backend::handlers::projects::{
    create_project, delete_project, get_project, list_projects, update_project,
};
use orbix_backend::ident::ObjectId;
use orbix_backend::middleware::auth::AuthUser;
use orbix_backend::models::project::{
    CreateProjectRequest, Project, ProjectStatus, UpdateProjectRequest,
};
use orbix_backend::values::Number;

const T0: i64 = 1_700_000_000_000;

fn projects_state() -> AppState {
    AppState {
        db: Database::new(),
        config: Config::from_env(None, "secret".to_string(), None, None, None).unwrap(),
    }
}

fn lead(n: u64) -> AuthUser {
    AuthUser { user_id: ObjectId { hi: 5, lo: n } }
}

fn plan(name: &str, client: Option<&str>) -> CreateProjectRequest {
    CreateProjectRequest {
        client_id: client.map(|c| c.to_string()),
        name: name.to_string(),
        description: Some("desc".to_string()),
        hourly_rate: Some(Number { bits: 90.0f64.to_bits() }),
        budget: None,
        start_date: Some(T0),
    }
}

fn as_is() -> UpdateProjectRequest {
    UpdateProjectRequest { name: None, description: None, status: None, hourly_rate: None, budget: None, end_date: None }
}

#[test]
fn a_new_project_is_active_and_open_ended() {
    let mut state = projects_state();
    let p = create_project(&mut state, &lead(1), plan("Site", Some("0000000000000000000000dd")), T0 + 1).unwrap();
    assert_eq!(
        p,
        Project {
            id: p.id,
            user_id: lead(1).user_id,
            client_id: Some(ObjectId { hi: 0, lo: 0xdd }),
            name: "Site".to_string(),
            description: Some("desc".to_string()),
            status: ProjectStatus::Active,
            hourly_rate: Some(Number { bits: 90.0f64.to_bits() }),
            budget: None,
            start_date: Some(T0),
            end_date: None,
            created_at: T0 + 1,
            updated_at: T0 + 1,
        }
    );
    let q = create_project(&mut state, &lead(1), plan("Internal", None), T0 + 2).unwrap();
    assert_eq!(q.client_id, None);
    assert_ne!(q.id, p.id);
}

#[test]
fn a_project_for_a_malformed_client_is_a_bad_request() {
    let mut state = projects_state();
    assert_eq!(
        create_project(&mut state, &lead(1), plan("Site", Some("")), T0),
        Err(AppError::BadRequest("Invalid client ID".to_string()))
    );
    assert_eq!(state.db.projects.len(), 0);
}

#[test]
fn finishing_a_project_is_a_partial_update() {
    let mut state = projects_state();
    let p = create_project(&mut state, &lead(1), plan("Site", None), T0).unwrap();
    let id = p.id.unwrap().to_hex();
    let patch = UpdateProjectRequest {
        status: Some(ProjectStatus::Completed),
        end_date: Some(T0 + 500),
        budget: Some(Number { bits: 1 }),
        ..as_is()
    };
    let done = update_project(&mut state, &lead(1), &id, patch, T0 + 600).unwrap();
    assert_eq!(
        done,
        Project {
            status: ProjectStatus::Completed,
            end_date: Some(T0 + 500),
            budget: Some(Number { bits: 1 }),
            updated_at: T0 + 600,
            ..p
        }
    );
    let patch = UpdateProjectRequest {
        name: Some("Site v2".to_string()),
        description: Some(String::new()),
        hourly_rate: Some(Number { bits: 2 }),
        ..as_is()
    };
    let renamed = update_project(&mut state, &lead(1), &id, patch, T0 + 700).unwrap();
    assert_eq!(
        renamed,
        Project {
            name: "Site v2".to_string(),
            description: Some(String::new()),
            hourly_rate: Some(Number { bits: 2 }),
            updated_at: T0 + 700,
            ..done
        }
    );
}

#[test]
fn projects_are_scoped_to_their_owner() {
    let mut state = projects_state();
    let mine = create_project(&mut state, &lead(1), plan("Mine", None), T0).unwrap();
    let id = mine.id.unwrap().to_hex();
    let missing = AppError::NotFound("Project not found".to_string());
    assert_eq!(get_project(&state, &lead(2), &id), Err(missing.clone()));
    assert_eq!(update_project(&mut state, &lead(2), &id, as_is(), T0), Err(missing.clone()));
    assert_eq!(delete_project(&mut state, &lead(2), &id), Err(missing.clone()));
    assert_eq!(list_projects(&state, &lead(2)), vec![]);
    assert_eq!(list_projects(&state, &lead(1)), vec![mine.clone()]);
    assert_eq!(get_project(&state, &lead(1), &id), Ok(mine));
    assert_eq!(delete_project(&mut state, &lead(1), &id), Ok("Project deleted".to_string()));
    assert_eq!(delete_project(&mut state, &lead(1), &id), Err(missing));
    assert_eq!(get_project(&state, &lead(1), "x"), Err(AppError::BadRequest("Invalid ID".to_string())));
}
