//! What runs before a protected operation.

pub mod auth;

pub use auth::{auth_middleware, gateway, AuthUser, Claims};
