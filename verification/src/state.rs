use vstd::prelude::*;
use crate::clock::unix_time_now;
use crate::error::AppError;

verus! {

/// A user as the application state sees it.
#[derive(Debug, Clone, PartialEq, Eq)]
pub struct User {
    pub id: i64,
    pub email: String,
    pub name: String,
}

/// Shared state of the HTTP routes: the store and what issuing tokens needs.
#[derive(Clone)]
pub struct AppState {
    pub app_name: String,
    pub db: turso::Database,
    pub jwt_secret: Vec<u8>,
    pub token_expiry_secs: u64,
}

/// The claims of an access token.
#[derive(Debug, Clone, PartialEq, Eq)]
pub struct JwtClaims {
    pub sub: String,
    pub scope: String,
    pub exp: u64,
    pub iat: u64,
}

/// The token text that `jsonwebtoken::encode` gives for the default header
/// (HS256), the claims `{"sub", "scope", "exp", "iat"}` in that order and an
/// HMAC secret.
pub uninterp spec fn hs256_token(sub: Seq<char>, scope: Seq<char>, exp: u64, iat: u64, secret: Seq<u8>) -> Seq<char>;

/// `jsonwebtoken::encode` with `Header::default()` (HS256) and
/// `EncodingKey::from_secret(secret)`, on the claims serialised as a JSON
/// object with the keys `sub`, `scope`, `exp`, `iat` in that order. The token
/// is named by `hs256_token`. It always succeeds: in the source, the key's
/// family (HMAC) matches the header's algorithm, serialising the header and a
/// JSON map cannot fail, and HMAC signing returns `Ok`.
#[verifier::external_body]
fn encode_hs256(sub: &str, scope: &str, exp: u64, iat: u64, secret: &[u8]) -> (r: Result<String, String>)
    ensures
        r is Ok,
        r matches Ok(t) ==> t@ == hs256_token(sub@, scope@, exp, iat, secret@),
{
    let mut claims = serde_json::Map::new();
    claims.insert(String::from("sub"), serde_json::Value::from(sub));
    claims.insert(String::from("scope"), serde_json::Value::from(scope));
    claims.insert(String::from("exp"), serde_json::Value::from(exp));
    claims.insert(String::from("iat"), serde_json::Value::from(iat));
    let key = jsonwebtoken::EncodingKey::from_secret(secret);
    jsonwebtoken::encode(&jsonwebtoken::Header::default(), &claims, &key).map_err(|e| e.to_string())
}

impl AppState {
    /// The state of the `wemove` application on a store, with the secret and
    /// lifetime of the tokens it issues.
    pub fn from_parts(db: turso::Database, jwt_secret: Vec<u8>, token_expiry_secs: u64) -> (r: AppState)
        ensures
            r.app_name@ == "wemove"@,
            r.db == db,
            r.jwt_secret@ == jwt_secret@,
            r.token_expiry_secs == token_expiry_secs,
    {
        AppState { app_name: String::from_str("wemove"), db, jwt_secret, token_expiry_secs }
    }

    /// The claims of a token for `sub` with `scope`, issued at `now`: it
    /// expires `token_expiry_secs` later.
    pub open spec fn claims_at(&self, sub: Seq<char>, scope: Seq<char>, now: u64) -> Option<(Seq<char>, Seq<char>, u64, u64)> {
        if now + self.token_expiry_secs > u64::MAX {
            None
        } else {
            Some((sub, scope, (now + self.token_expiry_secs) as u64, now))
        }
    }

    /// The token issued at `now` for `sub` with `scope`.
    pub open spec fn issued_at(&self, sub: Seq<char>, scope: Seq<char>, now: u64) -> Option<Seq<char>> {
        match self.claims_at(sub, scope, now) {
            Some(c) => Some(hs256_token(c.0, c.1, c.2, c.3, self.jwt_secret@)),
            None => None,
        }
    }

    /// Whether the token `t` was issued for `sub` with `scope` at some time.
    pub open spec fn issued_some_time(&self, sub: Seq<char>, scope: Seq<char>, t: Seq<char>) -> bool {
        exists|now: u64| #[trigger] self.issued_at(sub, scope, now) == Some(t)
    }

    /// The claims of a token for `client_id` with `scope` issued at `now`.
    pub fn claims_for(&self, client_id: &str, scope: &str, now: u64) -> (r: Option<JwtClaims>)
        ensures
            r is Some <==> self.claims_at(client_id@, scope@, now) is Some,
            r matches Some(c) ==> self.claims_at(client_id@, scope@, now) == Some((c.sub@, c.scope@, c.exp, c.iat)),
    {
        match now.checked_add(self.token_expiry_secs) {
            Some(exp) => Some(JwtClaims {
                sub: String::from_str(client_id),
                scope: String::from_str(scope),
                exp,
                iat: now,
            }),
            None => None,
        }
    }

    /// Issues an access token for `client_id` with `scope` at the time `now`.
    /// It fails exactly when the expiry does not fit in a `u64`.
    pub fn create_access_token_at(&self, client_id: &str, scope: &str, now: u64) -> (r: Result<String, AppError>)
        ensures
            r is Ok <==> now + self.token_expiry_secs <= u64::MAX,
            r is Ok <==> self.issued_at(client_id@, scope@, now) is Some,
            r matches Ok(t) ==> self.issued_at(client_id@, scope@, now) == Some(t@),
            r matches Err(e) ==> e is Internal,
    {
        match self.claims_for(client_id, scope, now) {
            Some(claims) => {
                match encode_hs256(claims.sub.as_str(), claims.scope.as_str(), claims.exp, claims.iat, self.jwt_secret.as_slice()) {
                    Ok(t) => Ok(t),
                    Err(e) => {
                        let mut msg = String::from_str("JWT creation failed: ");
                        msg.append(e.as_str());
                        Err(AppError::Internal(msg))
                    },
                }
            },
            None => Err(AppError::Internal(String::from_str("JWT creation failed: expiry out of range"))),
        }
    }

    /// Issues an access token for `client_id` with `scope`, issued now by
    /// the system clock (a clock before the Unix epoch reads as time 0). The
    /// answer is what `create_access_token_at` gives at the time read: so a
    /// token is owed whenever issuing succeeds at every time.
    pub fn create_access_token(&self, client_id: &str, scope: &str) -> (r: Result<String, AppError>)
        ensures
            exists|now: u64| #[trigger] self.issued_at(client_id@, scope@, now) == match r {
                Ok(t) => Some(t@),
                Err(_) => None,
            },
            r matches Ok(t) ==> self.issued_some_time(client_id@, scope@, t@),
            r matches Err(e) ==> e is Internal,
    {
        let now: u64 = match unix_time_now() {
            Some(secs) => secs,
            None => 0,
        };
        let r = self.create_access_token_at(client_id, scope, now);
        proof {
            let answer = if r is Ok { Some(r->Ok_0@) } else { None::<Seq<char>> };
            assert(self.issued_at(client_id@, scope@, now) == answer);
        }
        r
    }
}

/// Every token lives exactly as long as configured: its expiry lies
/// `token_expiry_secs` after its issue time, and it names the subject and
/// scope it was asked for.
pub proof fn tokens_live_as_configured(state: AppState, sub: Seq<char>, scope: Seq<char>, now: u64)
    ensures
        state.claims_at(sub, scope, now) matches Some(c) ==> {
            &&& c.2 - c.3 == state.token_expiry_secs
            &&& c.3 == now
            &&& c.0 == sub
            &&& c.1 == scope
        },
        state.claims_at(sub, scope, now) is None <==> now + state.token_expiry_secs > u64::MAX,
{
}

} // verus!
