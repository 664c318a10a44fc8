use vstd::prelude::*;
use crate::error::{AppError, DbError};
use crate::text::{contains_text, occurs_in};

verus! {

/// A stored user, with the bcrypt hash of the password.
#[derive(Debug, Clone, PartialEq, Eq)]
pub struct User {
    pub id: i64,
    pub email: String,
    pub name: String,
    pub password_hash: String,
}

/// What registering a user needs.
#[derive(Debug, Clone, PartialEq, Eq)]
pub struct CreateUser {
    pub email: String,
    pub name: String,
    pub password: String,
}

/// Access to the `users` table.
pub struct UserRepository {
    db: turso::Database,
}

/// A column value as read from the store. A real number's value is not kept:
/// no user column holds one.
#[derive(Debug, Clone, PartialEq)]
pub enum DbValue {
    Null,
    Integer(i64),
    Real,
    Text(String),
    Blob(Vec<u8>),
}

/// The four columns `id, email, name, password_hash` of a `users` row, each
/// as read from the store or the text of the error that reading it gave.
pub struct UserRow {
    pub id: Result<DbValue, String>,
    pub email: Result<DbValue, String>,
    pub name: Result<DbValue, String>,
    pub password_hash: Result<DbValue, String>,
}

/// What `bcrypt::verify` answers for a password and a stored hash: whether
/// they match, or the text of its error when it fails (a malformed hash, for
/// instance). Both depend on the password and the hash alone.
pub uninterp spec fn bcrypt_check(password: Seq<char>, hash: Seq<char>) -> Result<bool, Seq<char>>;

/// `bcrypt::verify(password, hash)`, with its error turned into its text
/// (`to_string`). Its answer, error text included, is named by
/// `bcrypt_check`.
#[verifier::external_body]
fn bcrypt_verify(password: &str, hash: &str) -> (r: Result<bool, String>)
    ensures
        r is Ok <==> bcrypt_check(password@, hash@) is Ok,
        r matches Ok(b) ==> (bcrypt_check(password@, hash@) matches Ok(v) && v == b),
        r matches Err(m) ==> (bcrypt_check(password@, hash@) matches Err(t) && t == m@),
{
    bcrypt::verify(password, hash).map_err(|e| e.to_string())
}

/// The form of a bcrypt hash made with cost 12 (`DEFAULT_COST`): the
/// version `2b` and the cost in its prefix, then 22 characters of salt and
/// 31 of hash.
pub open spec fn default_cost_hash(h: Seq<char>) -> bool {
    h.len() == 60 && h.subrange(0, 7) == "$2b$12$"@
}

/// `bcrypt::hash(password, bcrypt::DEFAULT_COST)`. The salt is random, so
/// the hash is not named; what the source shows of every hash it returns is
/// that it is formatted as `$2b$12$` followed by the 22-character salt and
/// the 31-character hash, and that `bcrypt::verify` accepts the same
/// password against it (the hash records cost and salt, and `verify`
/// recomputes it from them). When it fails (the system's randomness failing)
/// is not stated.
#[verifier::external_body]
fn bcrypt_hash(password: &str) -> (r: Result<String, String>)
    ensures
        r matches Ok(h) ==> (bcrypt_check(password@, h@) matches Ok(v) && v),
        r matches Ok(h) ==> default_cost_hash(h@),
{
    bcrypt::hash(password, bcrypt::DEFAULT_COST).map_err(|e| e.to_string())
}

/// The text an insert error must hold to be a duplicate e-mail address.
pub open spec fn unique_violation(msg: Seq<char>) -> bool {
    occurs_in(msg, "UNIQUE constraint"@)
}

/// A column that should be an integer.
pub open spec fn integer_column(v: Result<DbValue, String>) -> Option<i64> {
    match v {
        Ok(DbValue::Integer(i)) => Some(i),
        _ => None,
    }
}

/// A column that should be text.
pub open spec fn text_column(v: Result<DbValue, String>) -> Option<Seq<char>> {
    match v {
        Ok(DbValue::Text(s)) => Some(s@),
        _ => None,
    }
}

/// The error a failed column read gives.
pub open spec fn read_failure(label: Seq<char>, v: Result<DbValue, String>) -> Option<Seq<char>> {
    match v {
        Err(e) => Some("Failed to get "@ + label + ": "@ + e@),
        Ok(_) => None,
    }
}

/// The error of a row: the first failed read in column order, else the
/// first column of the wrong type.
pub open spec fn row_error(row: UserRow) -> Option<Seq<char>> {
    if read_failure("id"@, row.id) is Some {
        read_failure("id"@, row.id)
    } else if read_failure("email"@, row.email) is Some {
        read_failure("email"@, row.email)
    } else if read_failure("name"@, row.name) is Some {
        read_failure("name"@, row.name)
    } else if read_failure("password_hash"@, row.password_hash) is Some {
        read_failure("password_hash"@, row.password_hash)
    } else if integer_column(row.id) is None {
        Some("Invalid id type"@)
    } else if text_column(row.email) is None {
        Some("Invalid email type"@)
    } else if text_column(row.name) is None {
        Some("Invalid name type"@)
    } else if text_column(row.password_hash) is None {
        Some("Invalid password_hash type"@)
    } else {
        None
    }
}

fn read_error(label: &str, v: &Result<DbValue, String>) -> (r: Option<AppError>)
    ensures
        r is Some <==> read_failure(label@, *v) is Some,
        r matches Some(e) ==> (e matches AppError::Internal(m) && m@ == read_failure(label@, *v)->0),
{
    match v {
        Err(e) => {
            let mut m = String::from_str("Failed to get ");
            m.append(label);
            m.append(": ");
            m.append(e.as_str());
            Some(AppError::Internal(m))
        },
        Ok(_) => None,
    }
}

fn take_text(v: Result<DbValue, String>) -> (r: Option<String>)
    ensures
        r is Some <==> text_column(v) is Some,
        r matches Some(s) ==> text_column(v) == Some(s@),
{
    match v {
        Ok(DbValue::Text(s)) => Some(s),
        _ => None,
    }
}

impl UserRepository {
    /// The store the repository works on.
    pub closed spec fn store(&self) -> turso::Database {
        self.db
    }

    /// A repository on the store.
    pub fn new(db: turso::Database) -> (r: UserRepository)
        ensures
            r.store() == db,
    {
        UserRepository { db }
    }

    /// The store the repository works on.
    pub fn db(&self) -> (r: &turso::Database)
        ensures
            *r == self.store(),
    {
        &self.db
    }

    /// Checks a password against a stored bcrypt hash. A failure of the check
    /// itself is a password-hash database error carrying bcrypt's error text.
    pub fn verify_password(&self, password: &str, hash: &str) -> (r: Result<bool, AppError>)
        ensures
            r is Ok <==> bcrypt_check(password@, hash@) is Ok,
            r matches Ok(b) ==> (bcrypt_check(password@, hash@) matches Ok(v) && v == b),
            r matches Err(e) ==> (e matches AppError::Database(DbError::PasswordHash(m))
                && (bcrypt_check(password@, hash@) matches Err(t) && t == m@)),
    {
        match bcrypt_verify(password, hash) {
            Ok(b) => Ok(b),
            Err(m) => Err(AppError::Database(DbError::PasswordHash(m))),
        }
    }

    /// The stored form of a new user's password (the first step of creating
    /// the user): a bcrypt hash with cost 12 that accepts the same password.
    pub fn hash_password(&self, password: &str) -> (r: Result<String, AppError>)
        ensures
            r matches Ok(h) ==> (bcrypt_check(password@, h@) matches Ok(v) && v),
            r matches Ok(h) ==> default_cost_hash(h@),
            r matches Err(e) ==> e matches AppError::Database(DbError::PasswordHash(_)),
    {
        match bcrypt_hash(password) {
            Ok(h) => Ok(h),
            Err(m) => Err(AppError::Database(DbError::PasswordHash(m))),
        }
    }

    /// The error for a store that cannot be reached.
    pub fn connection_error(msg: String) -> (r: AppError)
        ensures
            r == AppError::Internal(msg),
    {
        AppError::Internal(msg)
    }

    /// The error for a query that fails.
    pub fn query_error(msg: String) -> (r: AppError)
        ensures
            r == AppError::Database(DbError::Query(msg)),
    {
        AppError::Database(DbError::Query(msg))
    }

    /// The error for an insert of a user that fails: a duplicate e-mail
    /// address is a conflict, anything else a query error.
    pub fn insert_error(msg: String) -> (r: AppError)
        ensures
            unique_violation(msg@) ==> (r matches AppError::Conflict(m) && m@ == "Email already exists"@),
            !unique_violation(msg@) ==> r == AppError::Database(DbError::Query(msg)),
    {
        if contains_text(msg.as_str(), "UNIQUE constraint") {
            AppError::Conflict(String::from_str("Email already exists"))
        } else {
            AppError::Database(DbError::Query(msg))
        }
    }

    /// What creating a user answers once the insert has run: the id of the
    /// new row, or the insert's error.
    pub fn insert_outcome(result: Result<i64, String>) -> (r: Result<i64, AppError>)
        ensures
            result matches Ok(id) ==> r == Ok::<i64, AppError>(id),
            result matches Err(m) ==> (unique_violation(m@) ==> (r matches Err(AppError::Conflict(c)) && c@ == "Email already exists"@)),
            result matches Err(m) ==> (!unique_violation(m@) ==> r == Err::<i64, AppError>(AppError::Database(DbError::Query(m)))),
    {
        match result {
            Ok(id) => Ok(id),
            Err(m) => Err(Self::insert_error(m)),
        }
    }

    /// Decodes a `users` row. Column reads that failed come first, in column
    /// order; then columns of the wrong type.
    pub fn user_from_row(row: UserRow) -> (r: Result<User, AppError>)
        ensures
            row_error(row) is Some <==> r is Err,
            r matches Err(e) ==> (e matches AppError::Internal(m) && m@ == row_error(row)->0),
            r matches Ok(u) ==> {
                &&& integer_column(row.id) == Some(u.id)
                &&& text_column(row.email) == Some(u.email@)
                &&& text_column(row.name) == Some(u.name@)
                &&& text_column(row.password_hash) == Some(u.password_hash@)
            },
    {
        if let Some(e) = read_error("id", &row.id) {
            return Err(e);
        }
        if let Some(e) = read_error("email", &row.email) {
            return Err(e);
        }
        if let Some(e) = read_error("name", &row.name) {
            return Err(e);
        }
        if let Some(e) = read_error("password_hash", &row.password_hash) {
            return Err(e);
        }
        let id = match &row.id {
            Ok(DbValue::Integer(i)) => *i,
            _ => return Err(AppError::Internal(String::from_str("Invalid id type"))),
        };
        let ghost spec_row = row;
        let UserRow { id: _, email, name, password_hash } = row;
        let email = match take_text(email) {
            Some(s) => s,
            None => return Err(AppError::Internal(String::from_str("Invalid email type"))),
        };
        let name = match take_text(name) {
            Some(s) => s,
            None => return Err(AppError::Internal(String::from_str("Invalid name type"))),
        };
        let password_hash = match take_text(password_hash) {
            Some(s) => s,
            None => return Err(AppError::Internal(String::from_str("Invalid password_hash type"))),
        };
        Ok(User { id, email, name, password_hash })
    }

    /// What looking a user up by e-mail answers, from the first row the query
    /// gave (or the error of fetching it).
    pub fn lookup_outcome(next: Result<Option<UserRow>, String>) -> (r: Result<Option<User>, AppError>)
        ensures
            next matches Err(m) ==> r == Err::<Option<User>, AppError>(AppError::Database(DbError::Query(m))),
            next matches Ok(None) ==> r == Ok::<Option<User>, AppError>(None),
            next matches Ok(Some(row)) ==> (row_error(row) is Some <==> r is Err),
            next matches Ok(Some(row)) ==> (r matches Ok(Some(u)) ==> {
                &&& integer_column(row.id) == Some(u.id)
                &&& text_column(row.email) == Some(u.email@)
                &&& text_column(row.name) == Some(u.name@)
                &&& text_column(row.password_hash) == Some(u.password_hash@)
            }),
            next matches Ok(Some(row)) ==> (r matches Err(e) ==> (e matches AppError::Internal(m) && m@ == row_error(row)->0)),
            next matches Ok(Some(_)) ==> !(r matches Ok(None)),
    {
        match next {
            Err(m) => Err(AppError::Database(DbError::Query(m))),
            Ok(None) => Ok(None),
            Ok(Some(row)) => match Self::user_from_row(row) {
                Ok(u) => Ok(Some(u)),
                Err(e) => Err(e),
            },
        }
    }
}

} // verus!
