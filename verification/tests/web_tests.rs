use wemove::auth_proxy::{
    authorize_grant, internal_error_response, proxy_reply, AuthorizeOutcome, ProxyReply, TokenErrorResponse,
    TokenRequest, TokenResponse, MAX_RESPONSE_BYTES,
};
use wemove::common::{LoginRequest, RegisterRequest};
use wemove::error::{AppError, DbError};
use wemove::user_repo::{DbValue, User, UserRepository};
use wemove::web::{
    login_error_message, register_error_message, session_still_valid, session_valid_at, web_login_check,
    web_login_precheck, web_login_redirect, web_register_precheck, web_register_redirect,
};

fn repo() -> UserRepository {
    let rt = tokio::runtime::Runtime::new().unwrap();
    UserRepository::new(rt.block_on(turso::Builder::new_local(":memory:").build()).unwrap())
}

#[test]
fn sessions_are_open_until_they_expire() {
    assert!(session_valid_at(&Ok(Some(DbValue::Integer(100))), 99));
    assert!(!session_valid_at(&Ok(Some(DbValue::Integer(100))), 100));
    assert!(!session_valid_at(&Ok(Some(DbValue::Integer(100))), 101));
    assert!(!session_valid_at(&Ok(Some(DbValue::Text("100".to_string()))), 0));
    assert!(!session_valid_at(&Ok(None), 0));
    assert!(!session_valid_at(&Err("gone".to_string()), 0));
}

#[test]
fn sessions_by_the_clock() {
    assert!(session_still_valid(&Ok(Some(DbValue::Integer(i64::MAX)))));
    assert!(!session_still_valid(&Ok(Some(DbValue::Integer(1)))));
    assert!(!session_still_valid(&Ok(None)));
}

#[test]
fn web_login_redirects() {
    let empty = LoginRequest { email: String::new(), password: "x".to_string() };
    assert_eq!(web_login_precheck(&empty), Some("/login?error=missing_fields"));
    let full = LoginRequest { email: "a@b.c".to_string(), password: "pw".to_string() };
    assert_eq!(web_login_precheck(&full), None);

    let r = repo();
    let user = User { id: 9, email: "a@b.c".to_string(), name: "A".to_string(), password_hash: r.hash_password("pw").unwrap() };
    assert_eq!(web_login_check(&r, &full, Ok(Some(user.clone()))), Ok(9));
    let wrong = LoginRequest { email: "a@b.c".to_string(), password: "nope".to_string() };
    assert_eq!(web_login_check(&r, &wrong, Ok(Some(user))), Err("/login?error=invalid_credentials"));
    assert_eq!(web_login_check(&r, &full, Ok(None)), Err("/login?error=invalid_credentials"));
    assert_eq!(
        web_login_check(&r, &full, Err(AppError::Internal("x".to_string()))),
        Err("/login?error=invalid_credentials")
    );
    assert_eq!(web_login_redirect(true), "/dashboard");
    assert_eq!(web_login_redirect(false), "/login?error=session_error");
}

#[test]
fn web_register_redirects() {
    let missing = RegisterRequest { name: "n".to_string(), email: "e".to_string(), password: String::new() };
    assert_eq!(web_register_precheck(missing).unwrap_err(), "/register?error=missing_fields");
    let full = RegisterRequest { name: "n".to_string(), email: "e".to_string(), password: "p".to_string() };
    assert_eq!(web_register_precheck(full).unwrap().email, "e");
    assert_eq!(web_register_redirect(&Ok(1)), "/login?registered=true");
    assert_eq!(web_register_redirect(&Err(AppError::Conflict("dup".to_string()))), "/register?error=email_exists");
    assert_eq!(
        web_register_redirect(&Err(AppError::Database(DbError::Query("q".to_string())))),
        "/register?error=internal_error"
    );
}

#[test]
fn page_error_messages() {
    assert_eq!(login_error_message("missing_fields"), "Please enter your email and password.");
    assert_eq!(login_error_message("invalid_credentials"), "Invalid email or password.");
    assert_eq!(login_error_message("session_error"), "Unable to start your session. Please try again.");
    assert_eq!(login_error_message("other"), "Login failed. Please try again.");
    assert_eq!(register_error_message("missing_fields"), "Please fill in all fields.");
    assert_eq!(register_error_message("email_exists"), "This email address is already registered.");
    assert_eq!(register_error_message(""), "Registration failed. Please try again.");
}

fn outcome(error: &str) -> AuthorizeOutcome {
    AuthorizeOutcome {
        error: error.to_string(),
        error_description: "desc".to_string(),
        access_token: "tok".to_string(),
        token_type: "Bearer".to_string(),
        expires_in: 3600,
        scope: "read".to_string(),
    }
}

#[test]
fn proxy_builds_client_credentials_requests() {
    let g = authorize_grant(TokenRequest { client_id: "c".to_string(), client_secret: "s".to_string(), scope: None });
    assert_eq!(g.grant_type, "client_credentials");
    assert_eq!(g.client_id, "c");
    assert_eq!(g.scope, "read");
    assert!(g.refresh_token.is_empty() && g.code_verifier.is_empty() && g.code.is_empty() && g.redirect_uri.is_empty());
    let g = authorize_grant(TokenRequest { client_id: "c".to_string(), client_secret: "s".to_string(), scope: Some("write".to_string()) });
    assert_eq!(g.scope, "write");
    assert_eq!(MAX_RESPONSE_BYTES, 64 * 1024);
}

#[test]
fn proxy_translates_answers() {
    let (status, reply) = proxy_reply(200, outcome(""));
    assert_eq!(status, 200);
    assert_eq!(reply, ProxyReply::Granted(TokenResponse {
        access_token: "tok".to_string(),
        token_type: "Bearer".to_string(),
        expires_in: 3600,
        scope: "read".to_string(),
    }));
    let (status, reply) = proxy_reply(200, outcome("invalid_client"));
    assert_eq!(status, 400);
    assert_eq!(reply, ProxyReply::Refused(TokenErrorResponse { error: "invalid_client".to_string(), error_description: "desc".to_string() }));
    let (status, _) = proxy_reply(401, outcome("invalid_client"));
    assert_eq!(status, 401);
    let (status, _) = proxy_reply(299, outcome("x"));
    assert_eq!(status, 400);
    let (status, _) = proxy_reply(300, outcome("x"));
    assert_eq!(status, 300);
    let (status, body) = internal_error_response();
    assert_eq!(status, 502);
    assert_eq!(body.error, "server_error");
}
