//! The error taxonomy surfaced to callers: every failure of the library is
//! one of these kinds, mapped to an HTTP status code at the boundary.

use vstd::prelude::*;

verus! {

/// A failure of one of the services, classified for the caller.
#[derive(Debug)]
pub enum AppError {
    /// The referenced entity is absent.
    NotFound(String),
    /// The credential is missing, malformed, expired or forged.
    Unauthorized(String),
    /// The request violates a rule (self-follow, authorship mismatch).
    BadRequest(String),
    /// A unique-key constraint would be violated.
    Conflict(String),
    /// An unexpected internal failure.
    Internal(String),
}

/// The status code each error kind maps to.
pub open spec fn spec_status_code(e: AppError) -> u16 {
    match e {
        AppError::NotFound(_) => 404,
        AppError::Unauthorized(_) => 401,
        AppError::BadRequest(_) => 400,
        AppError::Conflict(_) => 409,
        AppError::Internal(_) => 500,
    }
}

/// The human-readable message carried by an error.
pub open spec fn spec_message(e: AppError) -> Seq<char> {
    match e {
        AppError::NotFound(m) => m@,
        AppError::Unauthorized(m) => m@,
        AppError::BadRequest(m) => m@,
        AppError::Conflict(m) => m@,
        AppError::Internal(m) => m@,
    }
}

impl AppError {
    /// The HTTP status code for this error.
    pub fn status_code(&self) -> (r: u16)
        ensures
            r == spec_status_code(*self),
    {
        match self {
            AppError::NotFound(_) => 404,
            AppError::Unauthorized(_) => 401,
            AppError::BadRequest(_) => 400,
            AppError::Conflict(_) => 409,
            AppError::Internal(_) => 500,
        }
    }

    /// The short message carried by this error.
    pub fn message(&self) -> (r: String)
        ensures
            r@ == spec_message(*self),
    {
        match self {
            AppError::NotFound(m) => m.clone(),
            AppError::Unauthorized(m) => m.clone(),
            AppError::BadRequest(m) => m.clone(),
            AppError::Conflict(m) => m.clone(),
            AppError::Internal(m) => m.clone(),
        }
    }
}

} // verus!
