use vstd::prelude::*;

verus! {

/// Errors that come from storage: the connection, a query, a constraint, or
/// password hashing.
#[derive(Debug, Clone, PartialEq, Eq)]
pub enum DbError {
    Connection(String),
    Query(String),
    Constraint(String),
    PasswordHash(String),
}

/// Framework-independent application error. How it is answered over HTTP is
/// decided in `api_error`.
#[derive(Debug, Clone, PartialEq, Eq)]
pub enum AppError {
    Internal(String),
    BadRequest(String),
    NotFound(String),
    Unauthorized(String),
    Conflict(String),
    Database(DbError),
}

impl DbError {
    /// The message the error carries.
    pub open spec fn spec_detail(&self) -> Seq<char> {
        match self {
            DbError::Connection(m) => m@,
            DbError::Query(m) => m@,
            DbError::Constraint(m) => m@,
            DbError::PasswordHash(m) => m@,
        }
    }

    /// The message the error carries.
    pub fn detail(&self) -> (r: String)
        ensures
            r@ == self.spec_detail(),
    {
        match self {
            DbError::Connection(m) => m.clone(),
            DbError::Query(m) => m.clone(),
            DbError::Constraint(m) => m.clone(),
            DbError::PasswordHash(m) => m.clone(),
        }
    }
}

} // verus!
