use vstd::prelude::*;

verus! {

/// `turso::Database`, the handle on the SQLite store; the library carries
/// it through without looking inside.
#[verifier::external_type_specification]
#[verifier::external_body]
pub struct ExDatabase(turso::Database);

/// `Clone` for `turso::Database`: the derived clone of the `Arc` it holds,
/// a second handle on the same store. Nothing is stated of the copy.
pub assume_specification[ <turso::Database as Clone>::clone ](db: &turso::Database) -> turso::Database;

/// State shared by the web routes that authenticate users.
#[derive(Clone)]
pub struct AuthState {
    pub db: turso::Database,
}

/// The user a request acts for.
#[derive(Debug, Clone, PartialEq, Eq)]
pub struct CurrentUser {
    pub name: String,
    pub email: String,
}

/// Body of `POST /api/main`.
#[derive(Debug, Clone, PartialEq, Eq)]
pub struct MainRequest {
    pub name: Option<String>,
}

/// Answer of `/api/main`.
#[derive(Debug, Clone, PartialEq, Eq)]
pub struct MainResponse {
    pub message: String,
}

/// Answer of `/api/health`.
#[derive(Debug, Clone, PartialEq, Eq)]
pub struct HealthResponse {
    pub status: String,
}

/// Login form.
#[derive(Debug, Clone, PartialEq, Eq)]
pub struct LoginRequest {
    pub email: String,
    pub password: String,
}

/// Answer to a login.
#[derive(Debug, Clone, PartialEq, Eq)]
pub struct LoginResponse {
    pub success: bool,
    pub message: String,
    pub token: Option<String>,
}

/// Registration form.
#[derive(Debug, Clone, PartialEq, Eq)]
pub struct RegisterRequest {
    pub name: String,
    pub email: String,
    pub password: String,
}

/// Answer to a registration.
#[derive(Debug, Clone, PartialEq, Eq)]
pub struct RegisterResponse {
    pub success: bool,
    pub message: String,
    pub user_id: Option<i64>,
}

} // verus!
