use vstd::prelude::*;
use crate::common::{LoginRequest, LoginResponse, RegisterRequest, RegisterResponse};
use crate::clock::unix_time_now;
use crate::error::AppError;
use crate::state::AppState;
use crate::user_repo::{bcrypt_check, CreateUser, User, UserRepository};

verus! {

/// Body of `POST /api/auth/token`.
#[derive(Debug, Clone, PartialEq, Eq)]
pub struct JsonTokenRequest {
    pub client_id: String,
    pub client_secret: Option<String>,
    pub scope: Option<String>,
}

/// An OAuth-style error answer.
#[derive(Debug, Clone, PartialEq, Eq)]
pub struct JsonErrorResponse {
    pub error: String,
    pub error_description: String,
}

/// An issued access token.
#[derive(Debug, Clone, PartialEq, Eq)]
pub struct TokenResponse {
    pub access_token: String,
    pub token_type: String,
    pub expires_in: i64,
    pub scope: String,
}

/// A token was issued.
#[derive(Debug)]
pub struct TokenOk(pub TokenResponse);

/// No token could be issued.
#[derive(Debug)]
pub struct TokenError;

/// A login refused with the given message.
#[derive(Debug)]
pub struct LoginUnauthorized(pub String);

/// A login that failed on the server side.
#[derive(Debug)]
pub struct LoginError;

/// A login that succeeded with the given token.
#[derive(Debug)]
pub struct LoginSuccess(pub String);

/// A registration refused for its input.
#[derive(Debug)]
pub struct RegisterBadRequest(pub String);

/// A registration refused because the e-mail address is taken.
#[derive(Debug)]
pub struct RegisterConflict(pub String);

/// A registration that created the user with the given id.
#[derive(Debug)]
pub struct RegisterSuccess(pub i64);

/// A registration that failed on the server side.
#[derive(Debug)]
pub struct RegisterError;

/// Why a login did not succeed: refused credentials, or a lookup of the user
/// that failed in the store.
#[derive(Debug)]
pub enum LoginRejection {
    Unauthorized(LoginUnauthorized),
    DatabaseError,
}

/// Why a registration did not succeed.
#[derive(Debug)]
pub enum RegisterRejection {
    BadRequest(RegisterBadRequest),
    Conflict(RegisterConflict),
    Failed(RegisterError),
}

impl TokenResponse {
    /// Answered with status 200 and the token as body.
    pub fn reply(self) -> (r: (u16, TokenResponse))
        ensures
            r.0 == 200,
            r.1 == self,
    {
        (200, self)
    }
}

impl TokenOk {
    /// Answered with status 200 and the token as body.
    pub fn reply(self) -> (r: (u16, TokenResponse))
        ensures
            r.0 == 200,
            r.1 == self.0,
    {
        (200, self.0)
    }
}

impl JsonErrorResponse {
    /// Answered with status 500 and the error as body.
    pub fn reply(self) -> (r: (u16, JsonErrorResponse))
        ensures
            r.0 == 500,
            r.1 == self,
    {
        (500, self)
    }
}

impl TokenError {
    /// Answered with status 500 and a `server_error`.
    pub fn reply(self) -> (r: (u16, JsonErrorResponse))
        ensures
            r.0 == 500,
            r.1.error@ == "server_error"@,
            r.1.error_description@ == "Token creation failed"@,
    {
        (500, JsonErrorResponse {
            error: String::from_str("server_error"),
            error_description: String::from_str("Token creation failed"),
        })
    }
}

/// A failed login answer with a message.
pub open spec fn login_refusal(body: LoginResponse, message: Seq<char>) -> bool {
    !body.success && body.message@ == message && body.token is None
}

impl LoginUnauthorized {
    /// Answered with status 401 and the message.
    pub fn reply(self) -> (r: (u16, LoginResponse))
        ensures
            r.0 == 401,
            login_refusal(r.1, self.0@),
    {
        (401, LoginResponse { success: false, message: self.0, token: None })
    }
}

impl LoginError {
    /// Answered with status 500.
    pub fn reply(self) -> (r: (u16, LoginResponse))
        ensures
            r.0 == 500,
            login_refusal(r.1, "Internal server error"@),
    {
        (500, LoginResponse {
            success: false,
            message: String::from_str("Internal server error"),
            token: None,
        })
    }
}

impl LoginSuccess {
    /// Answered with status 200 and the token.
    pub fn reply(self) -> (r: (u16, LoginResponse))
        ensures
            r.0 == 200,
            r.1.success,
            r.1.message@ == "Login successful"@,
            r.1.token matches Some(t) && t@ == self.0@,
    {
        (200, LoginResponse {
            success: true,
            message: String::from_str("Login successful"),
            token: Some(self.0),
        })
    }
}

impl LoginRejection {
    /// Refused credentials are answered with 401 and their message; a failed
    /// lookup with 500 and `Database error`.
    pub fn reply(self) -> (r: (u16, LoginResponse))
        ensures
            self matches LoginRejection::Unauthorized(u) ==> r.0 == 401 && login_refusal(r.1, u.0@),
            self is DatabaseError ==> r.0 == 500 && login_refusal(r.1, "Database error"@),
    {
        match self {
            LoginRejection::Unauthorized(u) => u.reply(),
            LoginRejection::DatabaseError => (500, LoginResponse {
                success: false,
                message: String::from_str("Database error"),
                token: None,
            }),
        }
    }
}

/// A failed registration answer with a message.
pub open spec fn register_refusal(body: RegisterResponse, message: Seq<char>) -> bool {
    !body.success && body.message@ == message && body.user_id is None
}

impl RegisterBadRequest {
    /// Answered with status 400 and the message.
    pub fn reply(self) -> (r: (u16, RegisterResponse))
        ensures
            r.0 == 400,
            register_refusal(r.1, self.0@),
    {
        (400, RegisterResponse { success: false, message: self.0, user_id: None })
    }
}

impl RegisterConflict {
    /// Answered with status 409 and the message.
    pub fn reply(self) -> (r: (u16, RegisterResponse))
        ensures
            r.0 == 409,
            register_refusal(r.1, self.0@),
    {
        (409, RegisterResponse { success: false, message: self.0, user_id: None })
    }
}

impl RegisterSuccess {
    /// Answered with status 201 and the new user's id.
    pub fn reply(self) -> (r: (u16, RegisterResponse))
        ensures
            r.0 == 201,
            r.1.success,
            r.1.message@ == "Registration successful"@,
            r.1.user_id == Some(self.0),
    {
        (201, RegisterResponse {
            success: true,
            message: String::from_str("Registration successful"),
            user_id: Some(self.0),
        })
    }
}

impl RegisterError {
    /// Answered with status 500.
    pub fn reply(self) -> (r: (u16, RegisterResponse))
        ensures
            r.0 == 500,
            register_refusal(r.1, "Failed to create user"@),
    {
        (500, RegisterResponse {
            success: false,
            message: String::from_str("Failed to create user"),
            user_id: None,
        })
    }
}

impl RegisterRejection {
    /// The answer of the rejection it holds.
    pub fn reply(self) -> (r: (u16, RegisterResponse))
        ensures
            self matches RegisterRejection::BadRequest(b) ==> r.0 == 400 && register_refusal(r.1, b.0@),
            self matches RegisterRejection::Conflict(c) ==> r.0 == 409 && register_refusal(r.1, c.0@),
            self matches RegisterRejection::Failed(_) ==> r.0 == 500 && register_refusal(r.1, "Failed to create user"@),
    {
        match self {
            RegisterRejection::BadRequest(b) => b.reply(),
            RegisterRejection::Conflict(c) => c.reply(),
            RegisterRejection::Failed(e) => e.reply(),
        }
    }
}

/// The scope a token request asks for: the given one, or `read`.
pub open spec fn requested_scope(scope: Option<String>) -> Seq<char> {
    match scope {
        Some(s) => s@,
        None => "read"@,
    }
}

/// `POST /api/auth/token` at the time `now`: issues a bearer token for the
/// client id with the requested scope (`read` by default). The client secret
/// is not checked.
pub fn token_at(state: &AppState, payload: JsonTokenRequest, now: u64) -> (r: Result<TokenOk, TokenError>)
    ensures
        r is Ok <==> now + state.token_expiry_secs <= u64::MAX,
        r is Ok <==> state.issued_at(payload.client_id@, requested_scope(payload.scope), now) is Some,
        r matches Ok(ok) ==> {
            &&& ok.0.token_type@ == "Bearer"@
            &&& ok.0.expires_in == state.token_expiry_secs as i64
            &&& ok.0.scope@ == requested_scope(payload.scope)
            &&& state.issued_at(payload.client_id@, requested_scope(payload.scope), now) == Some(ok.0.access_token@)
        },
{
    let scope = match payload.scope {
        Some(s) => s,
        None => String::from_str("read"),
    };
    match state.create_access_token_at(payload.client_id.as_str(), scope.as_str(), now) {
        Ok(access_token) => Ok(TokenOk(TokenResponse {
            access_token,
            token_type: String::from_str("Bearer"),
            expires_in: state.token_expiry_secs as i64,
            scope,
        })),
        Err(_) => Err(TokenError),
    }
}

/// `POST /api/auth/token`, at the time the system clock gives (a clock
/// before the Unix epoch reads as time 0). The answer is what `token_at`
/// gives at the time read: a token issued for the client id and the requested
/// scope at that time, or a failure when none could be issued then. So a
/// token is owed whenever issuing succeeds at every time.
pub fn token(state: &AppState, payload: JsonTokenRequest) -> (r: Result<TokenOk, TokenError>)
    ensures
        exists|now: u64| #[trigger] state.issued_at(payload.client_id@, requested_scope(payload.scope), now) == match r {
            Ok(ok) => Some(ok.0.access_token@),
            Err(_) => None,
        },
        r matches Ok(ok) ==> {
            &&& ok.0.token_type@ == "Bearer"@
            &&& ok.0.expires_in == state.token_expiry_secs as i64
            &&& ok.0.scope@ == requested_scope(payload.scope)
            &&& state.issued_some_time(payload.client_id@, requested_scope(payload.scope), ok.0.access_token@)
        },
{
    let now: u64 = match unix_time_now() {
        Some(secs) => secs,
        None => 0,
    };
    let ghost id = payload.client_id@;
    let ghost sc = requested_scope(payload.scope);
    let r = token_at(state, payload, now);
    proof {
        let answer = if r is Ok { Some(r->Ok_0.0.access_token@) } else { None::<Seq<char>> };
        assert(state.issued_at(id, sc, now) == answer);
    }
    r
}

/// Whether both login fields are filled in.
pub open spec fn login_filled(payload: LoginRequest) -> bool {
    payload.email@.len() > 0 && payload.password@.len() > 0
}

/// First step of a login: refuses a form with an empty field.
pub fn login_precheck(payload: &LoginRequest) -> (r: Result<(), LoginUnauthorized>)
    ensures
        r is Ok <==> login_filled(*payload),
        r matches Err(e) ==> e.0@ == "Email and password are required"@,
{
    if payload.email.as_str().is_empty() || payload.password.as_str().is_empty() {
        return Err(LoginUnauthorized(String::from_str("Email and password are required")));
    }
    Ok(())
}

/// Whether a lookup found a user whose stored hash accepts the password.
pub open spec fn credentials_match(lookup: Result<Option<User>, AppError>, password: Seq<char>) -> bool {
    lookup matches Ok(Some(u)) && (bcrypt_check(password, u.password_hash@) matches Ok(v) && v)
}

/// How a login ends once the user has been looked up: the message of the
/// refusal, or `None` when the credentials are good and a token is owed. A
/// lookup that failed in the store is refused with `Database error`.
pub open spec fn login_verdict(lookup: Result<Option<User>, AppError>, password: Seq<char>) -> Option<Seq<char>> {
    match lookup {
        Ok(Some(u)) => match bcrypt_check(password, u.password_hash@) {
            Ok(true) => None,
            Ok(false) => Some("Invalid email or password"@),
            Err(_) => Some("Authentication error"@),
        },
        Ok(None) => Some("Invalid email or password"@),
        Err(_) => Some("Database error"@),
    }
}

/// Whether `r` is the refusal that `login_verdict` calls for: a server-side
/// failure for a failed lookup, else an unauthorized answer with the verdict's
/// message.
pub open spec fn refused_as(lookup: Result<Option<User>, AppError>, password: Seq<char>, r: LoginRejection) -> bool {
    if lookup is Err {
        r is DatabaseError
    } else {
        r matches LoginRejection::Unauthorized(e) && Some(e.0@) == login_verdict(lookup, password)
    }
}

/// The scope of a token issued at login.
pub open spec fn login_scope() -> Seq<char> {
    "read write"@
}

/// Checks the credentials of a login once the user has been looked up by
/// e-mail: the user must exist and the password must match the stored hash.
/// A lookup that failed in the store is a server-side failure.
pub fn check_credentials(
    repo: &UserRepository,
    payload: &LoginRequest,
    lookup: Result<Option<User>, AppError>,
) -> (r: Result<(), LoginRejection>)
    ensures
        r is Ok <==> login_verdict(lookup, payload.password@) is None,
        r matches Err(e) ==> refused_as(lookup, payload.password@, e),
{
    let user = match lookup {
        Ok(Some(u)) => u,
        Ok(None) => return Err(LoginRejection::Unauthorized(LoginUnauthorized(String::from_str("Invalid email or password")))),
        Err(_) => return Err(LoginRejection::DatabaseError),
    };
    let valid = match repo.verify_password(payload.password.as_str(), user.password_hash.as_str()) {
        Ok(v) => v,
        Err(_) => return Err(LoginRejection::Unauthorized(LoginUnauthorized(String::from_str("Authentication error")))),
    };
    if !valid {
        return Err(LoginRejection::Unauthorized(LoginUnauthorized(String::from_str("Invalid email or password"))));
    }
    Ok(())
}

/// Second step of a login at the time `now`, once the user has been looked
/// up by e-mail: checks the credentials and issues a token with the scope
/// `read write` for the e-mail address.
pub fn login_with_lookup_at(
    state: &AppState,
    repo: &UserRepository,
    payload: &LoginRequest,
    lookup: Result<Option<User>, AppError>,
    now: u64,
) -> (r: Result<LoginSuccess, LoginRejection>)
    ensures
        lookup is Err ==> r matches Err(LoginRejection::DatabaseError),
        login_verdict(lookup, payload.password@) is Some ==> (r matches Err(e) && refused_as(lookup, payload.password@, e)),
        login_verdict(lookup, payload.password@) is None ==> match state.issued_at(payload.email@, login_scope(), now) {
            Some(t) => r matches Ok(s) && s.0@ == t,
            None => r matches Err(LoginRejection::Unauthorized(e)) && e.0@ == "Authentication error"@,
        },
{
    check_credentials(repo, payload, lookup)?;
    match state.create_access_token_at(payload.email.as_str(), "read write", now) {
        Ok(t) => Ok(LoginSuccess(t)),
        Err(_) => Err(LoginRejection::Unauthorized(LoginUnauthorized(String::from_str("Authentication error")))),
    }
}

/// Second step of a login, at the time the system clock gives (a clock
/// before the Unix epoch reads as time 0). Refusals are as
/// `check_credentials` describes; with good credentials the answer is what
/// `login_with_lookup_at` gives at the time read.
pub fn login_with_lookup(
    state: &AppState,
    repo: &UserRepository,
    payload: &LoginRequest,
    lookup: Result<Option<User>, AppError>,
) -> (r: Result<LoginSuccess, LoginRejection>)
    ensures
        lookup is Err ==> r matches Err(LoginRejection::DatabaseError),
        login_verdict(lookup, payload.password@) is Some ==> (r matches Err(e) && refused_as(lookup, payload.password@, e)),
        login_verdict(lookup, payload.password@) is None ==> exists|now: u64| #[trigger] state.issued_at(payload.email@, login_scope(), now) == match r {
            Ok(s) => Some(s.0@),
            Err(_) => None,
        },
        login_verdict(lookup, payload.password@) is None ==> (r is Ok || (r matches Err(LoginRejection::Unauthorized(e)) && e.0@ == "Authentication error"@)),
        r matches Ok(s) ==> login_verdict(lookup, payload.password@) is None
            && state.issued_some_time(payload.email@, login_scope(), s.0@),
{
    check_credentials(repo, payload, lookup)?;
    let issued = state.create_access_token(payload.email.as_str(), "read write");
    let ghost answer = if issued is Ok { Some(issued->Ok_0@) } else { None::<Seq<char>> };
    let ghost now = choose|now: u64| #[trigger] state.issued_at(payload.email@, login_scope(), now) == answer;
    assert(state.issued_at(payload.email@, login_scope(), now) == answer);
    match issued {
        Ok(t) => Ok(LoginSuccess(t)),
        Err(_) => Err(LoginRejection::Unauthorized(LoginUnauthorized(String::from_str("Authentication error")))),
    }
}

/// Whether all registration fields are filled in.
pub open spec fn register_filled(payload: RegisterRequest) -> bool {
    payload.email@.len() > 0 && payload.password@.len() > 0 && payload.name@.len() > 0
}

/// First step of a registration: refuses a form with an empty field and
/// otherwise gives the user to create.
pub fn register_precheck(payload: RegisterRequest) -> (r: Result<CreateUser, RegisterRejection>)
    ensures
        r is Ok <==> register_filled(payload),
        r matches Ok(c) ==> c.email == payload.email && c.name == payload.name && c.password == payload.password,
        r matches Err(e) ==> (e matches RegisterRejection::BadRequest(b) && b.0@ == "Invalid request"@),
{
    if payload.email.as_str().is_empty() || payload.password.as_str().is_empty() || payload.name.as_str().is_empty() {
        return Err(RegisterRejection::BadRequest(RegisterBadRequest(String::from_str("Invalid request"))));
    }
    Ok(CreateUser { email: payload.email, name: payload.name, password: payload.password })
}

/// Second step of a registration, once the user has been created or not: a
/// taken e-mail address is a conflict, other failures a server error.
pub fn register_finish(created: Result<i64, AppError>) -> (r: Result<RegisterSuccess, RegisterRejection>)
    ensures
        created matches Ok(id) ==> (r matches Ok(s) && s.0 == id),
        created matches Err(AppError::Conflict(m)) ==> (r matches Err(RegisterRejection::Conflict(c)) && c.0 == m),
        created matches Err(e) ==> (!(e is Conflict) ==> r matches Err(RegisterRejection::Failed(_))),
{
    match created {
        Ok(id) => Ok(RegisterSuccess(id)),
        Err(AppError::Conflict(m)) => Err(RegisterRejection::Conflict(RegisterConflict(m))),
        Err(_) => Err(RegisterRejection::Failed(RegisterError)),
    }
}

/// A login for an unknown e-mail address and a login with a wrong password
/// are refused with the same message: the answer does not tell which.
pub proof fn login_does_not_reveal_accounts(user: User, password: Seq<char>)
    requires
        (bcrypt_check(password, user.password_hash@) matches Ok(v) && !v),
    ensures
        login_verdict(Ok(Some(user)), password) == login_verdict(Ok(None), password),
        login_verdict(Ok(None), password) == Some("Invalid email or password"@),
{
}

/// The REST login owes a token exactly when the credentials match, the same
/// condition on which the web login (`web::web_login_check`) lets the user in.
pub proof fn logins_accept_the_same_credentials(lookup: Result<Option<User>, AppError>, password: Seq<char>)
    ensures
        login_verdict(lookup, password) is None <==> credentials_match(lookup, password),
{
}

/// A password whose stored hash was made from it is accepted at login: the
/// hash that `hash_password` stores for a password makes `bcrypt_check`
/// answer `Ok(true)` for it, and then the verdict is that a token is owed.
pub proof fn registered_password_is_accepted(user: User, password: Seq<char>)
    requires
        (bcrypt_check(password, user.password_hash@) matches Ok(v) && v),
    ensures
        login_verdict(Ok(Some(user)), password) is None,
{
}

} // verus!
