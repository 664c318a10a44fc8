use vstd::prelude::*;
use crate::error::AppError;

verus! {

/// An application error on its way to becoming an HTTP answer.
pub struct ApiError(pub AppError);

/// HTTP status for each kind of application error.
pub open spec fn status_of(e: AppError) -> u16 {
    match e {
        AppError::Internal(_) => 500,
        AppError::BadRequest(_) => 400,
        AppError::NotFound(_) => 404,
        AppError::Unauthorized(_) => 401,
        AppError::Conflict(_) => 409,
        AppError::Database(_) => 500,
    }
}

/// The text that goes into the `error` field of the answer.
pub open spec fn message_of(e: AppError) -> Seq<char> {
    match e {
        AppError::Internal(m) => m@,
        AppError::BadRequest(m) => m@,
        AppError::NotFound(m) => m@,
        AppError::Unauthorized(m) => m@,
        AppError::Conflict(m) => m@,
        AppError::Database(d) => d.spec_detail(),
    }
}

/// Server-side failures are logged; refusals of the request are not.
pub open spec fn logged(e: AppError) -> bool {
    match e {
        AppError::Internal(_) => true,
        AppError::Database(_) => true,
        _ => false,
    }
}

impl From<AppError> for ApiError {
    fn from(err: AppError) -> (r: ApiError) {
        ApiError(err)
    }
}

impl vstd::std_specs::convert::FromSpecImpl<AppError> for ApiError {
    open spec fn obeys_from_spec() -> bool {
        true
    }

    open spec fn from_spec(v: AppError) -> ApiError {
        ApiError(v)
    }
}

impl ApiError {
    /// The status code and the `error` text of the answer.
    pub fn reply(&self) -> (r: (u16, String))
        ensures
            r.0 == status_of(self.0),
            r.1@ == message_of(self.0),
    {
        match &self.0 {
            AppError::Internal(m) => (500, m.clone()),
            AppError::BadRequest(m) => (400, m.clone()),
            AppError::NotFound(m) => (404, m.clone()),
            AppError::Unauthorized(m) => (401, m.clone()),
            AppError::Conflict(m) => (409, m.clone()),
            AppError::Database(d) => (500, d.detail()),
        }
    }

    /// Whether the answer is a server-side failure that gets logged.
    pub fn is_logged(&self) -> (r: bool)
        ensures
            r == logged(self.0),
    {
        match &self.0 {
            AppError::Internal(_) => true,
            AppError::Database(_) => true,
            _ => false,
        }
    }
}

/// Every error is answered with a client error status (4xx) or a server
/// error status (5xx), and exactly the logged ones with 500.
pub proof fn error_status_classes(e: AppError)
    ensures
        400 <= status_of(e) < 600,
        logged(e) <==> status_of(e) == 500,
        status_of(e) < 500 <==> !logged(e),
{
}

} // verus!
