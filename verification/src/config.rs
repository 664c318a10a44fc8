use vstd::prelude::*;
use crate::text::{decimal, parse_u64, parsed_u64, push_decimal};

verus! {

/// `std::path::PathBuf`, the path of an optional configuration file; carried
/// through unread.
#[verifier::external_type_specification]
#[verifier::external_body]
pub struct ExPathBuf(std::path::PathBuf);

/// Server options: where to listen and how much to log.
#[derive(Debug)]
pub struct Args {
    pub host: String,
    pub port: u16,
    pub log_level: String,
    pub config: Option<std::path::PathBuf>,
}

/// Secrets for issuing tokens; they come from the environment only.
#[derive(Debug, Clone)]
pub struct AuthConfig {
    pub jwt_secret: String,
    pub token_expiry_secs: u64,
}

/// Lifetime of a token when the environment sets none, or none that reads
/// as a number.
pub const DEFAULT_TOKEN_EXPIRY_SECS: u64 = 3600;

impl Default for Args {
    /// The documented defaults: `127.0.0.1`, port `8080`, log level `info`,
    /// no configuration file.
    fn default() -> (r: Args)
        ensures
            r.host@ == "127.0.0.1"@,
            r.port == 8080,
            r.log_level@ == "info"@,
            r.config is None,
    {
        Args {
            host: String::from_str("127.0.0.1"),
            port: 8080,
            log_level: String::from_str("info"),
            config: None,
        }
    }
}

impl Args {
    /// The `host:port` text of the address to listen on.
    pub fn address_text(&self) -> (r: String)
        ensures
            r@ == self.host@ + ":"@ + decimal(self.port as nat),
    {
        let mut out = self.host.clone();
        out.append(":");
        push_decimal(&mut out, self.port as u64);
        out
    }
}

/// The token lifetime that a `TOKEN_EXPIRY_SECS` value gives.
pub open spec fn expiry_from(value: Option<Seq<char>>) -> u64 {
    match value {
        Some(v) => match parsed_u64(v) {
            Some(n) => n,
            None => DEFAULT_TOKEN_EXPIRY_SECS,
        },
        None => DEFAULT_TOKEN_EXPIRY_SECS,
    }
}

impl AuthConfig {
    /// Builds the configuration from the values of `JWT_SECRET` and
    /// `TOKEN_EXPIRY_SECS`. Without a secret there is no configuration; a
    /// lifetime that is missing or not a number becomes one hour.
    pub fn from_values(jwt_secret: Option<String>, token_expiry: Option<String>) -> (r: Option<AuthConfig>)
        ensures
            r is Some <==> jwt_secret is Some,
            r matches Some(c) ==> {
                &&& c.jwt_secret@ == jwt_secret->0@
                &&& c.token_expiry_secs == expiry_from(match token_expiry {
                    Some(t) => Some(t@),
                    None => None,
                })
            },
    {
        let token_expiry_secs = match &token_expiry {
            Some(t) => match parse_u64(t.as_str()) {
                Some(n) => n,
                None => DEFAULT_TOKEN_EXPIRY_SECS,
            },
            None => DEFAULT_TOKEN_EXPIRY_SECS,
        };
        match jwt_secret {
            Some(jwt_secret) => Some(AuthConfig { jwt_secret, token_expiry_secs }),
            None => None,
        }
    }
}

} // verus!
