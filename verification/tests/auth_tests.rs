use wemove::auth_rest::{
    login_precheck, login_with_lookup, login_with_lookup_at, register_finish, register_precheck, token, JsonTokenRequest,
    LoginError, LoginRejection, LoginSuccess, LoginUnauthorized, RegisterRejection, RegisterSuccess, TokenError,
};
use wemove::common::{LoginRequest, RegisterRequest};
use wemove::error::{AppError, DbError};
use wemove::state::AppState;
use wemove::user_repo::{DbValue, User, UserRepository, UserRow};

fn memory_db() -> turso::Database {
    let rt = tokio::runtime::Runtime::new().unwrap();
    rt.block_on(turso::Builder::new_local(":memory:").build()).unwrap()
}

fn state(secret: &[u8], expiry: u64) -> AppState {
    AppState::from_parts(memory_db(), secret.to_vec(), expiry)
}

fn decode(token: &str, secret: &[u8]) -> serde_json::Value {
    let mut validation = jsonwebtoken::Validation::new(jsonwebtoken::Algorithm::HS256);
    validation.validate_exp = false;
    jsonwebtoken::decode::<serde_json::Value>(token, &jsonwebtoken::DecodingKey::from_secret(secret), &validation)
        .unwrap()
        .claims
}

fn login(email: &str, password: &str) -> LoginRequest {
    LoginRequest { email: email.to_string(), password: password.to_string() }
}

#[test]
fn state_is_named_wemove() {
    let s = state(b"k", 10);
    assert_eq!(s.app_name, "wemove");
    assert_eq!(s.jwt_secret, b"k".to_vec());
    assert_eq!(s.token_expiry_secs, 10);
}

#[test]
fn token_at_a_fixed_time_carries_the_claims() {
    let s = state(b"top-secret", 3600);
    let t = s.create_access_token_at("mein-client", "read write", 1_000_000).unwrap();
    assert_eq!(t.split('.').count(), 3);
    let claims = decode(&t, b"top-secret");
    assert_eq!(claims["sub"], "mein-client");
    assert_eq!(claims["scope"], "read write");
    assert_eq!(claims["iat"], 1_000_000u64);
    assert_eq!(claims["exp"], 1_003_600u64);
    let again = s.create_access_token_at("mein-client", "read write", 1_000_000).unwrap();
    assert_eq!(t, again);
}

#[test]
fn token_claims_keep_their_order() {
    let s = state(b"k", 5);
    let t = s.create_access_token_at("c", "read", 7).unwrap();
    let payload = t.split('.').nth(1).unwrap();
    let json = String::from_utf8(base64_url_decode(payload)).unwrap();
    assert_eq!(json, r#"{"sub":"c","scope":"read","exp":12,"iat":7}"#);
}

fn base64_url_decode(s: &str) -> Vec<u8> {
    let alphabet = b"ABCDEFGHIJKLMNOPQRSTUVWXYZabcdefghijklmnopqrstuvwxyz0123456789-_";
    let mut bits: u32 = 0;
    let mut n = 0;
    let mut out = Vec::new();
    for c in s.bytes() {
        let v = alphabet.iter().position(|&a| a == c).unwrap() as u32;
        bits = (bits << 6) | v;
        n += 6;
        if n >= 8 {
            n -= 8;
            out.push((bits >> n) as u8);
            bits &= (1 << n) - 1;
        }
    }
    out
}

#[test]
fn token_fails_when_the_expiry_overflows() {
    let s = state(b"k", u64::MAX);
    match s.create_access_token_at("c", "read", 1) {
        Err(AppError::Internal(_)) => {}
        other => panic!("unexpected {:?}", other),
    }
    assert!(s.create_access_token_at("c", "read", 0).is_ok());
}

#[test]
fn token_endpoint_defaults_scope_to_read() {
    let s = state(b"secret", 3600);
    let ok = token(&s, JsonTokenRequest { client_id: "mein-client".to_string(), client_secret: None, scope: None }).unwrap();
    assert_eq!(ok.0.token_type, "Bearer");
    assert_eq!(ok.0.expires_in, 3600);
    assert_eq!(ok.0.scope, "read");
    let claims = decode(&ok.0.access_token, b"secret");
    assert_eq!(claims["sub"], "mein-client");
    assert_eq!(claims["scope"], "read");
    let exp = claims["exp"].as_u64().unwrap();
    let iat = claims["iat"].as_u64().unwrap();
    assert_eq!(exp, iat + 3600);
}

#[test]
fn token_endpoint_keeps_the_requested_scope() {
    let s = state(b"secret", 60);
    let ok = token(&s, JsonTokenRequest {
        client_id: "c".to_string(),
        client_secret: Some("ignored".to_string()),
        scope: Some("read write".to_string()),
    })
    .unwrap();
    assert_eq!(ok.0.scope, "read write");
    let (status, body) = ok.reply();
    assert_eq!(status, 200);
    assert_eq!(body.token_type, "Bearer");
}

#[test]
fn token_endpoint_error_answers() {
    let s = state(b"secret", u64::MAX);
    let err = token(&s, JsonTokenRequest { client_id: "c".to_string(), client_secret: None, scope: None });
    assert!(err.is_err());
    let (status, body) = TokenError.reply();
    assert_eq!(status, 500);
    assert_eq!(body.error, "server_error");
    assert_eq!(body.error_description, "Token creation failed");
}

#[test]
fn login_precheck_requires_both_fields() {
    assert!(login_precheck(&login("a@b.c", "pw")).is_ok());
    for req in [login("", "pw"), login("a@b.c", ""), login("", "")] {
        let e = login_precheck(&req).unwrap_err();
        assert_eq!(e.0, "Email and password are required");
    }
}

fn stored_user(repo: &UserRepository, password: &str) -> User {
    User {
        id: 7,
        email: "alice@example.com".to_string(),
        name: "Alice".to_string(),
        password_hash: repo.hash_password(password).unwrap(),
    }
}

#[test]
fn login_with_the_right_password_issues_a_token() {
    let s = state(b"secret", 3600);
    let repo = UserRepository::new(s.db.clone());
    let user = stored_user(&repo, "geheim");
    let ok = login_with_lookup(&s, &repo, &login("alice@example.com", "geheim"), Ok(Some(user))).unwrap();
    let claims = decode(&ok.0, b"secret");
    assert_eq!(claims["sub"], "alice@example.com");
    assert_eq!(claims["scope"], "read write");
    let (status, body) = LoginSuccess(ok.0.clone()).reply();
    assert_eq!(status, 200);
    assert!(body.success);
    assert_eq!(body.message, "Login successful");
    assert_eq!(body.token, Some(ok.0));
}

#[test]
fn login_refusals_do_not_tell_unknown_from_wrong() {
    let s = state(b"secret", 3600);
    let repo = UserRepository::new(s.db.clone());
    let user = stored_user(&repo, "geheim");
    let wrong = match login_with_lookup(&s, &repo, &login("alice@example.com", "falsch"), Ok(Some(user))) {
        Err(LoginRejection::Unauthorized(u)) => u,
        other => panic!("unexpected {:?}", other),
    };
    let unknown = match login_with_lookup(&s, &repo, &login("bob@example.com", "geheim"), Ok(None)) {
        Err(LoginRejection::Unauthorized(u)) => u,
        other => panic!("unexpected {:?}", other),
    };
    assert_eq!(wrong.0, "Invalid email or password");
    assert_eq!(unknown.0, wrong.0);
    let (status, body) = LoginUnauthorized(wrong.0).reply();
    assert_eq!(status, 401);
    assert!(!body.success);
    assert_eq!(body.token, None);
}

#[test]
fn login_with_a_failed_lookup_is_a_database_error() {
    let s = state(b"secret", 3600);
    let repo = UserRepository::new(s.db.clone());
    let failed = login_with_lookup(
        &s,
        &repo,
        &login("bob@example.com", "geheim"),
        Err(AppError::Database(DbError::Query("down".to_string()))),
    )
    .unwrap_err();
    assert!(matches!(failed, LoginRejection::DatabaseError));
    let (status, body) = failed.reply();
    assert_eq!(status, 500);
    assert!(!body.success);
    assert_eq!(body.message, "Database error");
    assert_eq!(body.token, None);
    let (status, body) = LoginRejection::Unauthorized(LoginUnauthorized("x".to_string())).reply();
    assert_eq!(status, 401);
    assert_eq!(body.message, "x");
}

#[test]
fn login_at_a_fixed_time_issues_the_token_for_that_time() {
    let s = state(b"secret", 100);
    let repo = UserRepository::new(s.db.clone());
    let user = stored_user(&repo, "geheim");
    let ok = login_with_lookup_at(&s, &repo, &login("alice@example.com", "geheim"), Ok(Some(user.clone())), 50).unwrap();
    assert_eq!(ok.0, s.create_access_token_at("alice@example.com", "read write", 50).unwrap());
    let late = login_with_lookup_at(&s, &repo, &login("alice@example.com", "geheim"), Ok(Some(user)), u64::MAX);
    match late {
        Err(LoginRejection::Unauthorized(u)) => assert_eq!(u.0, "Authentication error"),
        other => panic!("unexpected {:?}", other),
    }
}

#[test]
fn login_with_a_malformed_hash_is_an_authentication_error() {
    let s = state(b"secret", 3600);
    let repo = UserRepository::new(s.db.clone());
    let user = User { id: 1, email: "a@b.c".to_string(), name: "A".to_string(), password_hash: "not-a-hash".to_string() };
    match login_with_lookup(&s, &repo, &login("a@b.c", "pw"), Ok(Some(user))) {
        Err(LoginRejection::Unauthorized(u)) => assert_eq!(u.0, "Authentication error"),
        other => panic!("unexpected {:?}", other),
    }
    let (status, body) = LoginError.reply();
    assert_eq!(status, 500);
    assert_eq!(body.message, "Internal server error");
}

#[test]
fn passwords_hash_and_verify() {
    let repo = UserRepository::new(memory_db());
    let h = repo.hash_password("correct horse").unwrap();
    assert!(h.starts_with("$2b$12$"));
    assert_eq!(h.len(), 60);
    assert_eq!(repo.verify_password("correct horse", &h), Ok(true));
    assert_eq!(repo.verify_password("wrong horse", &h), Ok(false));
    assert!(matches!(repo.verify_password("x", "$2b$12$short"), Err(AppError::Database(DbError::PasswordHash(_)))));
    let other = repo.hash_password("correct horse").unwrap();
    assert_ne!(h, other);
}

#[test]
fn register_precheck_requires_all_fields() {
    let ok = register_precheck(RegisterRequest {
        name: "Alice".to_string(),
        email: "alice@example.com".to_string(),
        password: "geheim".to_string(),
    })
    .unwrap();
    assert_eq!(ok.email, "alice@example.com");
    assert_eq!(ok.name, "Alice");
    assert_eq!(ok.password, "geheim");
    for (n, e, p) in [("", "e", "p"), ("n", "", "p"), ("n", "e", "")] {
        let r = register_precheck(RegisterRequest { name: n.to_string(), email: e.to_string(), password: p.to_string() });
        match r {
            Err(rej @ RegisterRejection::BadRequest(_)) => {
                let (status, body) = rej.reply();
                assert_eq!(status, 400);
                assert_eq!(body.message, "Invalid request");
                assert!(!body.success);
                assert_eq!(body.user_id, None);
            }
            other => panic!("unexpected {:?}", other),
        }
    }
}

#[test]
fn register_finish_answers() {
    let ok = register_finish(Ok(1)).unwrap();
    let (status, body) = RegisterSuccess(ok.0).reply();
    assert_eq!(status, 201);
    assert!(body.success);
    assert_eq!(body.message, "Registration successful");
    assert_eq!(body.user_id, Some(1));

    let conflict = register_finish(Err(AppError::Conflict("Email already exists".to_string()))).unwrap_err();
    let (status, body) = conflict.reply();
    assert_eq!(status, 409);
    assert_eq!(body.message, "Email already exists");

    let failed = register_finish(Err(AppError::Database(DbError::Query("x".to_string())))).unwrap_err();
    let (status, body) = failed.reply();
    assert_eq!(status, 500);
    assert_eq!(body.message, "Failed to create user");
}

fn text(s: &str) -> Result<DbValue, String> {
    Ok(DbValue::Text(s.to_string()))
}

#[test]
fn rows_decode_into_users() {
    let row = UserRow { id: Ok(DbValue::Integer(3)), email: text("a@b.c"), name: text("A"), password_hash: text("h") };
    let u = UserRepository::user_from_row(row).unwrap();
    assert_eq!(u, User { id: 3, email: "a@b.c".to_string(), name: "A".to_string(), password_hash: "h".to_string() });
}

#[test]
fn row_errors_come_in_column_order() {
    let row = UserRow {
        id: Ok(DbValue::Text("3".to_string())),
        email: text("a"),
        name: Err("boom".to_string()),
        password_hash: Ok(DbValue::Null),
    };
    assert_eq!(UserRepository::user_from_row(row), Err(AppError::Internal("Failed to get name: boom".to_string())));
    let row = UserRow { id: Ok(DbValue::Real), email: text("a"), name: text("n"), password_hash: text("h") };
    assert_eq!(UserRepository::user_from_row(row), Err(AppError::Internal("Invalid id type".to_string())));
    let row = UserRow { id: Ok(DbValue::Integer(1)), email: text("a"), name: Ok(DbValue::Blob(vec![1])), password_hash: Ok(DbValue::Null) };
    assert_eq!(UserRepository::user_from_row(row), Err(AppError::Internal("Invalid name type".to_string())));
    let row = UserRow { id: Ok(DbValue::Integer(1)), email: text("a"), name: text("n"), password_hash: Ok(DbValue::Integer(2)) };
    assert_eq!(UserRepository::user_from_row(row), Err(AppError::Internal("Invalid password_hash type".to_string())));
}

#[test]
fn lookups_and_inserts() {
    assert_eq!(UserRepository::lookup_outcome(Ok(None)), Ok(None));
    assert_eq!(
        UserRepository::lookup_outcome(Err("db gone".to_string())),
        Err(AppError::Database(DbError::Query("db gone".to_string())))
    );
    assert_eq!(
        UserRepository::insert_outcome(Err("UNIQUE constraint failed: users.email".to_string())),
        Err(AppError::Conflict("Email already exists".to_string()))
    );
    assert_eq!(
        UserRepository::insert_outcome(Err("disk full".to_string())),
        Err(AppError::Database(DbError::Query("disk full".to_string())))
    );
    assert_eq!(UserRepository::insert_outcome(Ok(42)), Ok(42));
    assert_eq!(UserRepository::connection_error("x".to_string()), AppError::Internal("x".to_string()));
    assert_eq!(UserRepository::query_error("y".to_string()), AppError::Database(DbError::Query("y".to_string())));
}

#[test]
fn a_failed_password_check_carries_bcrypts_error_text() {
    let repo = UserRepository::new(memory_db());
    for hash in ["$2b$12$short", "not-a-hash", "$9z$12$L6Bc/AlTQHyd9liGgGEZyOFLPHNgyxeEPfgYfBCVxJ7JIlwxyVU3u"] {
        let expected = bcrypt::verify("pw", hash).unwrap_err().to_string();
        assert_eq!(repo.verify_password("pw", hash), Err(AppError::Database(DbError::PasswordHash(expected))));
    }
}
