use vstd::prelude::*;

verus! {

/// The errors that the service answers a request with.
#[derive(Debug)]
pub enum AppError {
    Internal(String),
    Unauthorized(String),
    Validation(String),
    Conflict(String),
    BadRequest(String),
    NotFound(String),
}

/// The HTTP status code that answers an error of the given kind.
pub open spec fn spec_status_code(e: AppError) -> u16 {
    match e {
        AppError::Internal(_) => 500,
        AppError::Unauthorized(_) => 401,
        AppError::Validation(_) => 422,
        AppError::Conflict(_) => 409,
        AppError::BadRequest(_) => 400,
        AppError::NotFound(_) => 404,
    }
}

impl AppError {
    /// The text carried by the error.
    pub open spec fn spec_message(&self) -> Seq<char> {
        match self {
            AppError::Internal(m) => m@,
            AppError::Unauthorized(m) => m@,
            AppError::Validation(m) => m@,
            AppError::Conflict(m) => m@,
            AppError::BadRequest(m) => m@,
            AppError::NotFound(m) => m@,
        }
    }

    /// The HTTP status code of the response for this error.
    pub fn status_code(&self) -> (code: u16)
        ensures
            code == spec_status_code(*self),
    {
        match self {
            AppError::Internal(_) => 500,
            AppError::Unauthorized(_) => 401,
            AppError::Validation(_) => 422,
            AppError::Conflict(_) => 409,
            AppError::BadRequest(_) => 400,
            AppError::NotFound(_) => 404,
        }
    }

    /// The text that a client is shown for this error: an internal error
    /// shows only "Internal error", whatever its own text, so that details of
    /// the database or of a library do not reach clients; every other error
    /// shows its text.
    pub open spec fn spec_public_message(&self) -> Seq<char> {
        match self {
            AppError::Internal(_) => "Internal error"@,
            _ => self.spec_message(),
        }
    }

    /// The text that a client is shown for this error.
    pub fn public_message(&self) -> (m: String)
        ensures
            m@ == self.spec_public_message(),
    {
        match self {
            AppError::Internal(_) => "Internal error".to_owned(),
            _ => self.message(),
        }
    }

    /// The text carried by the error.
    pub fn message(&self) -> (m: String)
        ensures
            m@ == self.spec_message(),
    {
        match self {
            AppError::Internal(m) => m.clone(),
            AppError::Unauthorized(m) => m.clone(),
            AppError::Validation(m) => m.clone(),
            AppError::Conflict(m) => m.clone(),
            AppError::BadRequest(m) => m.clone(),
            AppError::NotFound(m) => m.clone(),
        }
    }
}

} // verus!
