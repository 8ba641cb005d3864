//! Error taxonomy shared by every operation of the library.

use vstd::prelude::*;

verus! {

/// Why an operation was refused or failed.
#[derive(Debug, Clone, Copy, PartialEq, Eq, Structural)]
pub enum AppError {
    /// A caller-supplied value was rejected before any mutation
    /// (bad page or page size, malformed id, empty or oversized field).
    InvalidArgument,
    /// The referenced post or user does not exist.
    NotFound,
    /// The request carried no acceptable credential.
    Unauthenticated,
    /// The caller's role does not permit the operation.
    Unauthorized,
    /// The store or an outbound channel failed mid-operation.
    Internal,
}

impl AppError {
    /// A short human-readable name for the error, for session replies.
    pub fn message(&self) -> (r: &'static str)
        ensures
            self is InvalidArgument ==> r@ == "invalid argument"@,
            self is NotFound ==> r@ == "not found"@,
            self is Unauthenticated ==> r@ == "unauthenticated"@,
            self is Unauthorized ==> r@ == "access denied"@,
            self is Internal ==> r@ == "internal error"@,
    {
        match self {
            AppError::InvalidArgument => "invalid argument",
            AppError::NotFound => "not found",
            AppError::Unauthenticated => "unauthenticated",
            AppError::Unauthorized => "access denied",
            AppError::Internal => "internal error",
        }
    }
}

} // verus!
