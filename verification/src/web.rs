use vstd::prelude::*;
use crate::clock::unix_time_now;
use crate::common::{LoginRequest, RegisterRequest};
use crate::error::AppError;
use crate::text::str_eq;
use crate::auth_rest::credentials_match;
use crate::user_repo::{CreateUser, DbValue, User, UserRepository};

verus! {

/// Whether a stored session expiry, read at the time `now`, keeps the session
/// open: the row must exist, hold an integer, and lie after `now`.
pub open spec fn session_open(lookup: Result<Option<DbValue>, String>, now: i64) -> bool {
    match lookup {
        Ok(Some(DbValue::Integer(expires_at))) => expires_at > now,
        _ => false,
    }
}

/// Whether the session whose expiry lookup gave `lookup` is still open at
/// `now`. A failed lookup, a missing row or a value that is not an integer
/// all count as no session.
pub fn session_valid_at(lookup: &Result<Option<DbValue>, String>, now: i64) -> (r: bool)
    ensures
        r == session_open(*lookup, now),
{
    match lookup {
        Ok(Some(DbValue::Integer(expires_at))) => *expires_at > now,
        _ => false,
    }
}

/// Whether the session is still open now by the system clock (a clock
/// before the epoch reads as time 0).
pub fn session_still_valid(lookup: &Result<Option<DbValue>, String>) -> (r: bool)
    ensures
        r ==> exists|now: i64| #[trigger] session_open(*lookup, now),
        !(lookup matches Ok(Some(DbValue::Integer(_)))) ==> !r,
{
    let now: i64 = match unix_time_now() {
        Some(secs) => secs as i64,
        None => 0,
    };
    session_valid_at(lookup, now)
}

/// A session that has expired by some time stays expired later on.
pub proof fn expired_sessions_stay_expired(lookup: Result<Option<DbValue>, String>, now: i64, later: i64)
    requires
        !session_open(lookup, now),
        now <= later,
    ensures
        !session_open(lookup, later),
{
}

/// Where the web login form sends the browser when a field is empty.
pub fn web_login_precheck(payload: &LoginRequest) -> (r: Option<&'static str>)
    ensures
        r is None <==> (payload.email@.len() > 0 && payload.password@.len() > 0),
        r matches Some(to) ==> to@ == "/login?error=missing_fields"@,
{
    if payload.email.as_str().is_empty() || payload.password.as_str().is_empty() {
        return Some("/login?error=missing_fields");
    }
    None
}

/// Checks the credentials of a web login once the user has been looked up:
/// the user's id when the password matches the stored hash, else where to
/// send the browser.
pub fn web_login_check(repo: &UserRepository, payload: &LoginRequest, lookup: Result<Option<User>, AppError>) -> (r: Result<i64, &'static str>)
    ensures
        r is Ok <==> credentials_match(lookup, payload.password@),
        r matches Ok(id) ==> (lookup matches Ok(Some(u)) && u.id == id),
        r matches Err(to) ==> to@ == "/login?error=invalid_credentials"@,
{
    let user = match lookup {
        Ok(Some(u)) => u,
        _ => return Err("/login?error=invalid_credentials"),
    };
    match repo.verify_password(payload.password.as_str(), user.password_hash.as_str()) {
        Ok(true) => Ok(user.id),
        _ => Err("/login?error=invalid_credentials"),
    }
}

/// Where a web login ends once the credentials were good: the dashboard when
/// the session was started and stored, else back to the login page.
pub fn web_login_redirect(session_stored: bool) -> (r: &'static str)
    ensures
        session_stored ==> r@ == "/dashboard"@,
        !session_stored ==> r@ == "/login?error=session_error"@,
{
    if session_stored {
        "/dashboard"
    } else {
        "/login?error=session_error"
    }
}

/// First step of a web registration: the user to create, or where to send
/// the browser when a field is empty.
pub fn web_register_precheck(payload: RegisterRequest) -> (r: Result<CreateUser, &'static str>)
    ensures
        r is Ok <==> (payload.email@.len() > 0 && payload.password@.len() > 0 && payload.name@.len() > 0),
        r matches Ok(c) ==> c.email == payload.email && c.name == payload.name && c.password == payload.password,
        r matches Err(to) ==> to@ == "/register?error=missing_fields"@,
{
    if payload.email.as_str().is_empty() || payload.password.as_str().is_empty() || payload.name.as_str().is_empty() {
        return Err("/register?error=missing_fields");
    }
    Ok(CreateUser { email: payload.email, name: payload.name, password: payload.password })
}

/// Where a web registration sends the browser once the user has been created
/// or not.
pub fn web_register_redirect(created: &Result<i64, AppError>) -> (r: &'static str)
    ensures
        created is Ok ==> r@ == "/login?registered=true"@,
        created matches Err(AppError::Conflict(_)) ==> r@ == "/register?error=email_exists"@,
        created matches Err(e) ==> (!(e is Conflict) ==> r@ == "/register?error=internal_error"@),
{
    match created {
        Ok(_) => "/login?registered=true",
        Err(AppError::Conflict(_)) => "/register?error=email_exists",
        Err(_) => "/register?error=internal_error",
    }
}

/// Text shown on the login page for the `error` code in its query.
pub fn login_error_message(code: &str) -> (r: &'static str)
    ensures
        code@ == "missing_fields"@ ==> r@ == "Please enter your email and password."@,
        code@ == "invalid_credentials"@ ==> r@ == "Invalid email or password."@,
        code@ == "session_error"@ ==> r@ == "Unable to start your session. Please try again."@,
        (code@ != "missing_fields"@ && code@ != "invalid_credentials"@ && code@ != "session_error"@)
            ==> r@ == "Login failed. Please try again."@,
{
    proof {
        reveal_strlit("missing_fields");
        reveal_strlit("invalid_credentials");
        reveal_strlit("session_error");
        assert("missing_fields"@.len() == 14);
        assert("invalid_credentials"@.len() == 19);
        assert("session_error"@.len() == 13);
    }
    if str_eq(code, "missing_fields") {
        "Please enter your email and password."
    } else if str_eq(code, "invalid_credentials") {
        "Invalid email or password."
    } else if str_eq(code, "session_error") {
        "Unable to start your session. Please try again."
    } else {
        "Login failed. Please try again."
    }
}

/// Text shown on the registration page for the `error` code in its query.
pub fn register_error_message(code: &str) -> (r: &'static str)
    ensures
        code@ == "missing_fields"@ ==> r@ == "Please fill in all fields."@,
        code@ == "email_exists"@ ==> r@ == "This email address is already registered."@,
        (code@ != "missing_fields"@ && code@ != "email_exists"@) ==> r@ == "Registration failed. Please try again."@,
{
    proof {
        reveal_strlit("missing_fields");
        reveal_strlit("email_exists");
        assert("missing_fields"@.len() == 14);
        assert("email_exists"@.len() == 12);
    }
    if str_eq(code, "missing_fields") {
        "Please fill in all fields."
    } else if str_eq(code, "email_exists") {
        "This email address is already registered."
    } else {
        "Registration failed. Please try again."
    }
}

} // verus!
