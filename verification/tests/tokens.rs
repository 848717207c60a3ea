use orbix_backend::config::Config;
use orbix_backend::database::{AppState, Database};
use orbix_backend::error::AppError;
use orbix_backend::ident::ObjectId;
use orbix_backend::middleware::auth::{
    auth_middleware, bearer_token, gateway, AuthUser, Claims,
};
use orbix_backend::router::Operation;
use orbix_backend::token::{
    authorize, generate_token, is_expired, issue, issued, token_expiry, validate,
};

const HOUR: i64 = 3_600_000;
const WEEK_SECONDS: u64 = 604_800;

fn an_owner() -> ObjectId {
    ObjectId::parse_str("507f1f77bcf86cd799439011").unwrap()
}

fn state_with_secret(secret: &str) -> AppState {
    AppState {
        db: Database::new(),
        config: Config::from_env(None, secret.to_string(), None, None, None).unwrap(),
    }
}

#[test]
fn a_token_validates_to_its_owner_right_after_issuance() {
    let now = 1_700_000_000_000;
    let token = issue(an_owner(), "secret", now).unwrap();
    assert_eq!(validate(&token, "secret", now), Ok(AuthUser { user_id: an_owner() }));
}

#[test]
fn a_token_is_valid_up_to_but_not_at_its_expiry() {
    let now = 1_700_000_000_123;
    let token = issue(an_owner(), "secret", now).unwrap();
    let expiry_ms = (1_700_000_000 + WEEK_SECONDS as i64) * 1000;
    assert_eq!(validate(&token, "secret", expiry_ms - 1), Ok(AuthUser { user_id: an_owner() }));
    assert_eq!(validate(&token, "secret", expiry_ms), Err(AppError::Unauthorized));
    assert_eq!(validate(&token, "secret", expiry_ms + HOUR), Err(AppError::Unauthorized));
}

#[test]
fn expiry_is_seven_days_after_the_second_of_issuance() {
    assert_eq!(token_expiry(0), Some(WEEK_SECONDS));
    assert_eq!(token_expiry(999), Some(WEEK_SECONDS));
    assert_eq!(token_expiry(1000), Some(WEEK_SECONDS + 1));
    assert_eq!(token_expiry(1_700_000_000_999), Some(1_700_000_000 + WEEK_SECONDS));
    assert_eq!(token_expiry(-1), None);
    assert_eq!(token_expiry(i64::MAX), Some(i64::MAX as u64 / 1000 + WEEK_SECONDS));
}

#[test]
fn is_expired_compares_in_milliseconds() {
    assert!(!is_expired(10, 9_999));
    assert!(is_expired(10, 10_000));
    assert!(is_expired(0, 0));
    assert!(!is_expired(0, -1));
    assert!(!is_expired(u64::MAX, i64::MAX));
}

#[test]
fn issuing_before_1970_is_refused() {
    assert_eq!(
        issue(an_owner(), "secret", -1),
        Err(AppError::InternalError("Invalid issue time".to_string()))
    );
    assert_eq!(
        generate_token("abc", "secret", -5),
        Err(AppError::InternalError("Invalid issue time".to_string()))
    );
}

#[test]
fn a_token_has_three_parts_and_depends_on_claims_and_secret_alone() {
    let a = generate_token("507f1f77bcf86cd799439011", "secret", 1_000).unwrap();
    let b = generate_token("507f1f77bcf86cd799439011", "secret", 1_999).unwrap();
    let c = generate_token("507f1f77bcf86cd799439011", "secret", 2_000).unwrap();
    let d = generate_token("507f1f77bcf86cd799439011", "other", 1_000).unwrap();
    assert_eq!(a.split('.').count(), 3);
    assert_eq!(a, b);
    assert_ne!(a, c);
    assert_ne!(a, d);
}

#[test]
fn a_token_under_another_secret_is_refused() {
    let now = 1_700_000_000_000;
    let token = issue(an_owner(), "secret", now).unwrap();
    assert_eq!(validate(&token, "Secret", now), Err(AppError::Unauthorized));
    assert_eq!(validate(&token, "", now), Err(AppError::Unauthorized));
}

#[test]
fn tampering_with_any_character_invalidates_the_token() {
    let now = 1_700_000_000_000;
    let token = issue(an_owner(), "secret", now).unwrap();
    assert!(token.is_ascii());
    for i in 0..token.len() {
        let mut bytes = token.clone().into_bytes();
        bytes[i] = if bytes[i] == b'A' { b'B' } else { b'A' };
        let forged = String::from_utf8(bytes).unwrap();
        assert_eq!(validate(&forged, "secret", now), Err(AppError::Unauthorized), "position {}", i);
    }
}

#[test]
fn malformed_tokens_are_refused() {
    for token in ["", "a", "a.b", "a.b.c", "....", "Bearer x"] {
        assert_eq!(validate(token, "secret", 0), Err(AppError::Unauthorized), "{:?}", token);
    }
}

#[test]
fn a_token_whose_subject_is_no_identifier_is_refused() {
    let token = generate_token("alice", "secret", 1_000).unwrap();
    assert_eq!(validate(&token, "secret", 1_000), Err(AppError::Unauthorized));
}

#[test]
fn authorize_judges_claims_by_expiry_and_subject() {
    let good = Claims { sub: "507f1f77bcf86cd799439011".to_string(), exp: 100 };
    assert_eq!(authorize(Ok(good.clone()), 99_999), Ok(AuthUser { user_id: an_owner() }));
    assert_eq!(authorize(Ok(good.clone()), 100_000), Err(AppError::Unauthorized));
    let odd = Claims { sub: "507f1f77bcf86cd79943901".to_string(), exp: 100 };
    assert_eq!(authorize(Ok(odd), 0), Err(AppError::Unauthorized));
    let failure = jsonwebtoken::errors::Error::from(jsonwebtoken::errors::ErrorKind::InvalidSignature);
    assert_eq!(authorize(Err(failure), 0), Err(AppError::Unauthorized));
}

#[test]
fn issued_hands_the_token_on_or_refuses() {
    assert_eq!(issued(Ok("t".to_string())), Ok("t".to_string()));
    let failure = jsonwebtoken::errors::Error::from(jsonwebtoken::errors::ErrorKind::InvalidKeyFormat);
    assert_eq!(issued(Err(failure)), Err(AppError::Unauthorized));
}

#[test]
fn the_token_is_a_standard_signed_token() {
    let token = generate_token("507f1f77bcf86cd799439011", "secret", 5_000).unwrap();
    let mut rules = jsonwebtoken::Validation::new(jsonwebtoken::Algorithm::HS256);
    rules.validate_exp = false;
    let key = jsonwebtoken::DecodingKey::from_secret(b"secret");
    let data = jsonwebtoken::decode::<serde_json::Value>(&token, &key, &rules).unwrap();
    assert_eq!(data.claims.get("sub").and_then(|v| v.as_str()), Some("507f1f77bcf86cd799439011"));
    assert_eq!(data.claims.get("exp").and_then(|v| v.as_u64()), Some(5 + WEEK_SECONDS));
    assert_eq!(data.header.alg, jsonwebtoken::Algorithm::HS256);
}

#[test]
fn bearer_token_takes_what_follows_the_prefix() {
    assert_eq!(bearer_token("Bearer abc.def.ghi"), Some("abc.def.ghi"));
    assert_eq!(bearer_token("Bearer "), Some(""));
    assert_eq!(bearer_token("Bearer  x"), Some(" x"));
    assert_eq!(bearer_token("Bearer é"), Some("é"));
    assert_eq!(bearer_token("bearer abc"), None);
    assert_eq!(bearer_token("Bearer"), None);
    assert_eq!(bearer_token("BearerX abc"), None);
    assert_eq!(bearer_token("Basic abc"), None);
    assert_eq!(bearer_token(" Bearer abc"), None);
    assert_eq!(bearer_token(""), None);
}

#[test]
fn the_gateway_admits_a_valid_bearer_token() {
    let state = state_with_secret("secret");
    let now = 1_700_000_000_000;
    let token = issue(an_owner(), "secret", now).unwrap();
    let header = format!("Bearer {}", token);
    assert_eq!(
        auth_middleware(Some(&state.config), Some(&header), now + HOUR),
        Ok(AuthUser { user_id: an_owner() })
    );
}

#[test]
fn the_gateway_refuses_everything_else_in_one_way() {
    let state = state_with_secret("secret");
    let now = 1_700_000_000_000;
    let token = issue(an_owner(), "secret", now).unwrap();
    assert_eq!(auth_middleware(Some(&state.config), None, now), Err(AppError::Unauthorized));
    assert_eq!(auth_middleware(Some(&state.config), Some(&token), now), Err(AppError::Unauthorized));
    assert_eq!(
        auth_middleware(Some(&state.config), Some(&format!("Token {}", token)), now),
        Err(AppError::Unauthorized)
    );
    assert_eq!(
        auth_middleware(Some(&state.config), Some(&format!("Bearer {}x", token)), now),
        Err(AppError::Unauthorized)
    );
    assert_eq!(
        auth_middleware(Some(&state.config), Some(&format!("Bearer {}", token)), now + 8 * 24 * HOUR),
        Err(AppError::Unauthorized)
    );
    let other = state_with_secret("rotated");
    assert_eq!(
        auth_middleware(Some(&other.config), Some(&format!("Bearer {}", token)), now),
        Err(AppError::Unauthorized)
    );
}

#[test]
fn the_gateway_without_state_is_an_internal_error() {
    assert_eq!(
        auth_middleware(None, Some("Bearer x"), 0),
        Err(AppError::InternalError("State not found".to_string()))
    );
}

#[test]
fn open_operations_pass_the_gateway_without_a_token() {
    let state = state_with_secret("secret");
    assert_eq!(gateway(Operation::Register, Some(&state.config), None, 0), Ok(None));
    assert_eq!(gateway(Operation::Login, Some(&state.config), Some("Bearer junk"), 0), Ok(None));
    assert_eq!(gateway(Operation::Login, None, None, 0), Ok(None));
}

#[test]
fn every_other_operation_needs_a_valid_token() {
    let state = state_with_secret("secret");
    let now = 1_700_000_000_000;
    let token = issue(an_owner(), "secret", now).unwrap();
    let header = format!("Bearer {}", token);
    for operation in [
        Operation::ListClients,
        Operation::CreateInvoice,
        Operation::GetContract,
        Operation::UpdateProject,
        Operation::DeleteResume,
        Operation::OptimizeResume,
        Operation::StopTimeEntry,
    ] {
        assert_eq!(
            gateway(operation, Some(&state.config), Some(&header), now),
            Ok(Some(AuthUser { user_id: an_owner() }))
        );
        assert_eq!(gateway(operation, Some(&state.config), None, now), Err(AppError::Unauthorized));
        assert_eq!(
            gateway(operation, Some(&state.config), Some("Bearer junk"), now),
            Err(AppError::Unauthorized)
        );
        assert_eq!(
            gateway(operation, None, Some(&header), now),
            Err(AppError::InternalError("State not found".to_string()))
        );
    }
}
