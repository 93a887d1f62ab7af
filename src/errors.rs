//! The failures that the session core reports to its callers.

use vstd::prelude::*;
use vstd::string::*;

verus! {

/// A failure, with the detail that describes it.
#[derive(Clone, Debug)]
pub enum AppError {
    Database(String),
    Io(String),
    Serialization(String),
    Encryption(String),
    NotFound(String),
    InvalidInput(String),
    Internal(String),
}

/// The text that introduces the message of each kind of failure.
pub open spec fn message_prefix(e: AppError) -> Seq<char> {
    match e {
        AppError::Database(_) => "Database error: "@,
        AppError::Io(_) => "IO error: "@,
        AppError::Serialization(_) => "Serialization error: "@,
        AppError::Encryption(_) => "Encryption error: "@,
        AppError::NotFound(_) => "Not found: "@,
        AppError::InvalidInput(_) => "Invalid input: "@,
        AppError::Internal(_) => "Internal error: "@,
    }
}

/// The detail that a failure carries.
pub open spec fn detail(e: AppError) -> Seq<char> {
    match e {
        AppError::Database(s) => s@,
        AppError::Io(s) => s@,
        AppError::Serialization(s) => s@,
        AppError::Encryption(s) => s@,
        AppError::NotFound(s) => s@,
        AppError::InvalidInput(s) => s@,
        AppError::Internal(s) => s@,
    }
}

impl AppError {
    /// The message shown to a caller: the kind of failure, then its detail.
    pub fn message(&self) -> (r: String)
        ensures
            r@ == message_prefix(*self) + detail(*self),
    {
        match self {
            AppError::Database(s) => String::from_str("Database error: ").concat(s.as_str()),
            AppError::Io(s) => String::from_str("IO error: ").concat(s.as_str()),
            AppError::Serialization(s) => String::from_str("Serialization error: ").concat(s.as_str()),
            AppError::Encryption(s) => String::from_str("Encryption error: ").concat(s.as_str()),
            AppError::NotFound(s) => String::from_str("Not found: ").concat(s.as_str()),
            AppError::InvalidInput(s) => String::from_str("Invalid input: ").concat(s.as_str()),
            AppError::Internal(s) => String::from_str("Internal error: ").concat(s.as_str()),
        }
    }
}

} // verus!
