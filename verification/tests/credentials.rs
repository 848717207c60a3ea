use orbix_backend::config::Config;
use orbix_backend::database::{AppState, Database};
use orbix_backend::error::AppError;
use orbix_backend::handlers::auth::{
    answer, check_credentials, enroll, login, refuse_taken, register, verify,
};
use orbix_backend::middleware::auth::AuthUser;
use orbix_backend::models::user::{CreateUserRequest, LoginRequest, User, UserResponse};
use orbix_backend::password::{check_password, hashed_or_failed, judge_password, protect};
use orbix_backend::token::validate;

const NOW: i64 = 1_700_000_000_000;

fn fresh_state() -> AppState {
    AppState {
        db: Database::new(),
        config: Config::from_env(None, "secret".to_string(), None, None, None).unwrap(),
    }
}

fn sign_up(email: &str, password: &str) -> CreateUserRequest {
    CreateUserRequest {
        email: email.to_string(),
        password: password.to_string(),
        name: "Someone".to_string(),
    }
}

fn sign_in(email: &str, password: &str) -> LoginRequest {
    LoginRequest { email: email.to_string(), password: password.to_string() }
}

#[test]
fn register_then_login_with_the_same_password_succeeds() {
    let mut state = fresh_state();
    let registered = register(&mut state, sign_up("alice@example.com", "pw1"), NOW).unwrap();
    let logged_in = login(&state, sign_in("alice@example.com", "pw1"), NOW + 5_000).unwrap();
    assert_eq!(registered.user, logged_in.user);
    assert_eq!(registered.user.email, "alice@example.com");
    assert_eq!(registered.user.name, "Someone");
    let id = registered.user.id.unwrap();
    assert_eq!(validate(&registered.token, "secret", NOW), Ok(AuthUser { user_id: id }));
    assert_eq!(validate(&logged_in.token, "secret", NOW + 5_000), Ok(AuthUser { user_id: id }));
}

#[test]
fn login_with_another_password_is_unauthorized() {
    let mut state = fresh_state();
    register(&mut state, sign_up("alice@example.com", "pw1"), NOW).unwrap();
    assert_eq!(login(&state, sign_in("alice@example.com", "pw2"), NOW), Err(AppError::Unauthorized));
    assert_eq!(login(&state, sign_in("alice@example.com", ""), NOW), Err(AppError::Unauthorized));
    assert_eq!(login(&state, sign_in("alice@example.com", "PW1"), NOW), Err(AppError::Unauthorized));
}

#[test]
fn login_with_an_unknown_address_is_unauthorized() {
    let mut state = fresh_state();
    register(&mut state, sign_up("alice@example.com", "pw1"), NOW).unwrap();
    assert_eq!(login(&state, sign_in("bob@example.com", "pw1"), NOW), Err(AppError::Unauthorized));
    assert_eq!(login(&state, sign_in("Alice@example.com", "pw1"), NOW), Err(AppError::Unauthorized));
}

#[test]
fn registering_an_address_twice_is_a_conflict_and_stores_nothing() {
    let mut state = fresh_state();
    register(&mut state, sign_up("alice@example.com", "pw1"), NOW).unwrap();
    assert_eq!(state.db.users.len(), 1);
    let second = register(&mut state, sign_up("alice@example.com", "other"), NOW + 1);
    assert_eq!(second, Err(AppError::Conflict("Email already exists".to_string())));
    assert_eq!(state.db.users.len(), 1);
    assert!(login(&state, sign_in("alice@example.com", "pw1"), NOW).is_ok());
    assert_eq!(login(&state, sign_in("alice@example.com", "other"), NOW), Err(AppError::Unauthorized));
}

#[test]
fn the_password_is_stored_as_a_salted_hash() {
    let mut state = fresh_state();
    let a = register(&mut state, sign_up("a@example.com", "same"), NOW).unwrap();
    let b = register(&mut state, sign_up("b@example.com", "same"), NOW).unwrap();
    let stored_a = verify(&state, &"a@example.com".to_string(), "same").unwrap();
    let stored_b = verify(&state, &"b@example.com".to_string(), "same").unwrap();
    assert_ne!(stored_a.password, "same");
    assert!(stored_a.password.starts_with("$2"));
    assert_ne!(stored_a.password, stored_b.password);
    assert_eq!(stored_a.id, a.user.id);
    assert_eq!(stored_b.id, b.user.id);
    assert_ne!(a.user.id, b.user.id);
    assert_eq!(stored_a.created_at, NOW);
    assert_eq!(stored_a.updated_at, NOW);
    assert_eq!(stored_a.avatar, None);
}

#[test]
fn check_password_tells_match_mismatch_and_broken_hash_apart() {
    let hash = bcrypt::hash("pw1", 4).unwrap();
    assert_eq!(check_password("pw1", &hash), Ok(()));
    assert_eq!(check_password("pw2", &hash), Err(AppError::Unauthorized));
    assert_eq!(
        check_password("pw1", "not a hash"),
        Err(AppError::InternalError("Password verification failed".to_string()))
    );
    assert_eq!(
        check_password("pw1", ""),
        Err(AppError::InternalError("Password verification failed".to_string()))
    );
}

#[test]
fn a_known_hash_is_verified() {
    let hash = "$2y$05$bvIG6Nmid91Mu9RcmmWZfO5HJIMCT8riNW0hEp8f6/FuA2/mHZFpe";
    assert_eq!(check_password("password", hash), Ok(()));
    assert_eq!(check_password("passwor", hash), Err(AppError::Unauthorized));
}

#[test]
fn judge_password_maps_each_outcome() {
    assert_eq!(judge_password(Ok(true)), Ok(()));
    assert_eq!(judge_password(Ok(false)), Err(AppError::Unauthorized));
    assert_eq!(
        judge_password(Err(bcrypt::BcryptError::InvalidSaltLen(3))),
        Err(AppError::InternalError("Password verification failed".to_string()))
    );
}

#[test]
fn enroll_without_a_hash_is_an_internal_error_and_stores_nothing() {
    let mut state = fresh_state();
    let r = enroll(
        &mut state,
        sign_up("alice@example.com", "pw1"),
        Err(bcrypt::BcryptError::CostNotAllowed(99)),
        NOW,
    );
    assert_eq!(r, Err(AppError::InternalError("Password hashing failed".to_string())));
    assert_eq!(state.db.users.len(), 0);
}

#[test]
fn enroll_stores_the_hash_it_is_given() {
    let mut state = fresh_state();
    let hash = bcrypt::hash("pw1", 4).unwrap();
    let r = enroll(&mut state, sign_up("alice@example.com", "pw1"), Ok(hash.clone()), NOW).unwrap();
    assert_eq!(state.db.users.len(), 1);
    let stored = verify(&state, &"alice@example.com".to_string(), "pw1").unwrap();
    assert_eq!(stored.password, hash);
    assert_eq!(Some(stored.id.unwrap()), r.user.id);
    let again = enroll(&mut state, sign_up("alice@example.com", "x"), Ok(hash), NOW);
    assert_eq!(again, Err(AppError::Conflict("Email already exists".to_string())));
    assert_eq!(state.db.users.len(), 1);
}

#[test]
fn a_broken_stored_hash_is_an_internal_error_at_login() {
    let mut state = fresh_state();
    enroll(&mut state, sign_up("alice@example.com", "pw1"), Ok("garbage".to_string()), NOW).unwrap();
    assert_eq!(
        login(&state, sign_in("alice@example.com", "pw1"), NOW),
        Err(AppError::InternalError("Password verification failed".to_string()))
    );
}

#[test]
fn the_answer_never_shows_the_hash() {
    let user = User {
        id: Some(orbix_backend::ident::ObjectId { hi: 0, lo: 7 }),
        email: "a@example.com".to_string(),
        password: "$2b$12$hash".to_string(),
        name: "A".to_string(),
        avatar: Some("pic".to_string()),
        created_at: 1,
        updated_at: 2,
    };
    let shown = UserResponse::from(user.clone());
    assert_eq!(
        shown,
        UserResponse {
            id: user.id,
            email: "a@example.com".to_string(),
            name: "A".to_string(),
            avatar: Some("pic".to_string()),
            created_at: 1,
            updated_at: 2,
        }
    );
    let r = answer(user, "secret", NOW).unwrap();
    assert_eq!(r.user, shown);
    assert!(!format!("{:?}", r).contains("$2b$12$hash"));
}

#[test]
fn an_account_without_identifier_gets_no_token() {
    let user = User {
        id: None,
        email: "a@example.com".to_string(),
        password: "h".to_string(),
        name: "A".to_string(),
        avatar: None,
        created_at: 1,
        updated_at: 1,
    };
    assert_eq!(
        answer(user, "secret", NOW),
        Err(AppError::InternalError("Account without identifier".to_string()))
    );
}

#[test]
fn passwords_that_agree_in_their_first_72_bytes_are_not_told_apart() {
    let long = "a".repeat(80);
    let longer = format!("{}b", long);
    let hash = bcrypt::hash(&long, 4).unwrap();
    assert_eq!(check_password(&long, &hash), Ok(()));
    assert_eq!(check_password(&longer, &hash), Ok(()));
}

#[test]
fn protect_makes_a_hash_that_accepts_the_password() {
    let hash = protect("s3cret").unwrap();
    assert_ne!(hash, "s3cret");
    assert_eq!(check_password("s3cret", &hash), Ok(()));
    assert_eq!(check_password("s3cre", &hash), Err(AppError::Unauthorized));
    assert_eq!(bcrypt::verify("s3cret", &hash).ok(), Some(true));
}

#[test]
fn hashed_or_failed_maps_each_outcome() {
    assert_eq!(hashed_or_failed(Ok("h".to_string())), Ok("h".to_string()));
    assert_eq!(
        hashed_or_failed(Err(bcrypt::BcryptError::CostNotAllowed(1))),
        Err(AppError::InternalError("Password hashing failed".to_string()))
    );
}

#[test]
fn refuse_taken_is_a_conflict_exactly_when_an_account_exists() {
    let user = User {
        id: None,
        email: "a@example.com".to_string(),
        password: "h".to_string(),
        name: "A".to_string(),
        avatar: None,
        created_at: 1,
        updated_at: 1,
    };
    assert_eq!(refuse_taken(None), Ok(()));
    assert_eq!(refuse_taken(Some(user)), Err(AppError::Conflict("Email already exists".to_string())));
}

#[test]
fn check_credentials_refuses_no_account_and_wrong_password_alike() {
    let user = User {
        id: Some(orbix_backend::ident::ObjectId { hi: 0, lo: 1 }),
        email: "a@example.com".to_string(),
        password: bcrypt::hash("pw", 4).unwrap(),
        name: "A".to_string(),
        avatar: None,
        created_at: 1,
        updated_at: 1,
    };
    assert_eq!(check_credentials(None, "pw"), Err(AppError::Unauthorized));
    assert_eq!(check_credentials(Some(user.clone()), "nope"), Err(AppError::Unauthorized));
    assert_eq!(check_credentials(Some(user.clone()), "pw"), Ok(user));
}
