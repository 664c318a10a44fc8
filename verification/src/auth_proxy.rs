use vstd::prelude::*;

verus! {

/// The most bytes read of an answer of the authorization service.
pub const MAX_RESPONSE_BYTES: usize = 65536;

/// Body of the JSON token request that is handed on to the authorization
/// service.
#[derive(Debug, Clone, PartialEq, Eq)]
pub struct TokenRequest {
    pub client_id: String,
    pub client_secret: String,
    pub scope: Option<String>,
}

/// A token granted by the authorization service.
#[derive(Debug, Clone, PartialEq, Eq)]
pub struct TokenResponse {
    pub access_token: String,
    pub token_type: String,
    pub expires_in: i32,
    pub scope: String,
}

/// A refusal, by the authorization service or of the proxy itself.
#[derive(Debug, Clone, PartialEq, Eq)]
pub struct TokenErrorResponse {
    pub error: String,
    pub error_description: String,
}

/// The fields of the authorization request sent to the service.
#[derive(Debug, Clone, PartialEq, Eq)]
pub struct AuthorizeGrant {
    pub grant_type: String,
    pub client_id: String,
    pub scope: String,
    pub refresh_token: String,
    pub code_verifier: String,
    pub code: String,
    pub redirect_uri: String,
}

/// The fields of the service's answer that the proxy reads.
#[derive(Debug, Clone, PartialEq, Eq)]
pub struct AuthorizeOutcome {
    pub error: String,
    pub error_description: String,
    pub access_token: String,
    pub token_type: String,
    pub expires_in: i32,
    pub scope: String,
}

/// What the proxy answers.
#[derive(Debug, Clone, PartialEq, Eq)]
pub enum ProxyReply {
    Granted(TokenResponse),
    Refused(TokenErrorResponse),
}

/// The client-credentials request for a token request: the client id, the
/// scope (`read` when none is given), every other field empty. The client
/// secret is not sent on: the service does not check it.
pub fn authorize_grant(payload: TokenRequest) -> (r: AuthorizeGrant)
    ensures
        r.grant_type@ == "client_credentials"@,
        r.client_id == payload.client_id,
        r.scope@ == match payload.scope {
            Some(s) => s@,
            None => "read"@,
        },
        r.refresh_token@.len() == 0,
        r.code_verifier@.len() == 0,
        r.code@.len() == 0,
        r.redirect_uri@.len() == 0,
{
    let scope = match payload.scope {
        Some(s) => s,
        None => String::from_str("read"),
    };
    AuthorizeGrant {
        grant_type: String::from_str("client_credentials"),
        client_id: payload.client_id,
        scope,
        refresh_token: String::new(),
        code_verifier: String::new(),
        code: String::new(),
        redirect_uri: String::new(),
    }
}

/// Whether an HTTP status is a success (2xx).
pub open spec fn is_success(status: u16) -> bool {
    200 <= status < 300
}

/// The status the proxy answers for the service's status and answer.
pub open spec fn proxy_status(status: u16, outcome: AuthorizeOutcome) -> u16 {
    if outcome.error@.len() == 0 {
        200
    } else if is_success(status) {
        400
    } else {
        status
    }
}

/// Translates the service's decoded answer: a refusal keeps the service's
/// status, or becomes 400 where the service answered with a success status;
/// a grant is answered with 200.
pub fn proxy_reply(status: u16, outcome: AuthorizeOutcome) -> (r: (u16, ProxyReply))
    ensures
        r.0 == proxy_status(status, outcome),
        outcome.error@.len() == 0 ==> r.0 == 200,
        outcome.error@.len() > 0 && 200 <= status < 300 ==> r.0 == 400,
        outcome.error@.len() > 0 && !(200 <= status < 300) ==> r.0 == status,
        outcome.error@.len() == 0 ==> r.1 == ProxyReply::Granted(TokenResponse {
            access_token: outcome.access_token,
            token_type: outcome.token_type,
            expires_in: outcome.expires_in,
            scope: outcome.scope,
        }),
        outcome.error@.len() > 0 ==> r.1 == ProxyReply::Refused(TokenErrorResponse {
            error: outcome.error,
            error_description: outcome.error_description,
        }),
{
    if !outcome.error.as_str().is_empty() {
        let http_status = if 200 <= status && status < 300 { 400 } else { status };
        return (http_status, ProxyReply::Refused(TokenErrorResponse {
            error: outcome.error,
            error_description: outcome.error_description,
        }));
    }
    (200, ProxyReply::Granted(TokenResponse {
        access_token: outcome.access_token,
        token_type: outcome.token_type,
        expires_in: outcome.expires_in,
        scope: outcome.scope,
    }))
}

/// The answer when the service cannot be reached or answers with something
/// that does not decode: 502 and a `server_error`.
pub fn internal_error_response() -> (r: (u16, TokenErrorResponse))
    ensures
        r.0 == 502,
        r.1.error@ == "server_error"@,
        r.1.error_description@ == "Auth-Backend nicht erreichbar oder ungültige Antwort"@,
{
    (502, TokenErrorResponse {
        error: String::from_str("server_error"),
        error_description: String::from_str("Auth-Backend nicht erreichbar oder ungültige Antwort"),
    })
}

/// A refusal by the service is never answered with a success status.
pub proof fn refusals_are_not_successes(status: u16, outcome: AuthorizeOutcome)
    requires
        outcome.error@.len() > 0,
    ensures
        !is_success(proxy_status(status, outcome)),
{
}

/// A refusal by the service that comes with a failure status (anything but
/// 2xx) is answered with that very status; one that comes with a success
/// status is answered with 400; a grant always with 200.
pub proof fn refusals_keep_the_service_status(status: u16, outcome: AuthorizeOutcome)
    ensures
        outcome.error@.len() > 0 && !(200 <= status < 300) ==> proxy_status(status, outcome) == status,
        outcome.error@.len() > 0 && 200 <= status < 300 ==> proxy_status(status, outcome) == 400,
        outcome.error@.len() == 0 ==> proxy_status(status, outcome) == 200,
{
}

} // verus!
