//! Error taxonomy of the backend core.
//!
//! Validation and authorization errors are raised before any store mutation,
//! so a caller that receives one may retry with corrected input.

use vstd::prelude::*;

verus! {

/// The errors that the core's operations report.
#[derive(Debug, Clone)]
pub enum AppError {
    /// Malformed or out-of-range input, rejected before any store call.
    ValidationError(String),
    /// The target id does not exist at the store.
    NotFound(String),
    /// No valid identity accompanied the request.
    Unauthorized(String),
    /// A valid identity with insufficient role, or not the owner.
    Forbidden(String),
    /// A duplicate create, such as an account that already exists.
    Conflict(String),
    /// A store-layer failure, opaque to the caller.
    DatabaseError(String),
    /// A stored document that does not parse back.
    SerializationError(String),
}

impl AppError {
    /// The human-readable message carried by the error.
    pub fn message(&self) -> (m: &String)
        ensures
            m@ == self.spec_message(),
    {
        match self {
            AppError::ValidationError(m) => m,
            AppError::NotFound(m) => m,
            AppError::Unauthorized(m) => m,
            AppError::Forbidden(m) => m,
            AppError::Conflict(m) => m,
            AppError::DatabaseError(m) => m,
            AppError::SerializationError(m) => m,
        }
    }

    /// The message, as a mathematical sequence of characters.
    pub open spec fn spec_message(self) -> Seq<char> {
        match self {
            AppError::ValidationError(m) => m@,
            AppError::NotFound(m) => m@,
            AppError::Unauthorized(m) => m@,
            AppError::Forbidden(m) => m@,
            AppError::Conflict(m) => m@,
            AppError::DatabaseError(m) => m@,
            AppError::SerializationError(m) => m@,
        }
    }
}

} // verus!
