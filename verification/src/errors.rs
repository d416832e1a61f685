//! The error taxonomy: storage failures, boot-time configuration faults,
//! missing resources, and rejected requests. An action failure is not an
//! error in this sense; it is data recorded on an execution row.

use vstd::prelude::*;

verus! {

/// An error surfaced by the service.
#[derive(Debug)]
pub enum AppError {
    /// Any persistence-layer failure, with its detail.
    Database(String),
    /// Invalid environment at boot; fatal before serving.
    Config(String),
    /// The requested resource is absent.
    NotFound,
    /// A malformed or semantically invalid request, with the violated rule.
    ValidationError(String),
}

impl AppError {
    /// The HTTP status code under which the error is surfaced.
    pub fn status_code(&self) -> (code: u16)
        ensures
            code == match *self {
                AppError::Database(_) => 500u16,
                AppError::Config(_) => 500u16,
                AppError::NotFound => 404u16,
                AppError::ValidationError(_) => 400u16,
            },
    {
        match self {
            AppError::Database(_) => 500,
            AppError::Config(_) => 500,
            AppError::NotFound => 404,
            AppError::ValidationError(_) => 400,
        }
    }

    /// The message exposed to callers: the violated rule for a rejected
    /// request, the configuration fault's detail, and fixed texts otherwise
    /// (the detail of a storage failure is internal).
    pub fn message(&self) -> (msg: String)
        ensures
            msg@ == match *self {
                AppError::Database(_) => "Internal Server Error"@,
                AppError::Config(m) => m@,
                AppError::NotFound => "Resource Not Found"@,
                AppError::ValidationError(m) => m@,
            },
    {
        match self {
            AppError::Database(_) => "Internal Server Error".to_owned(),
            AppError::Config(m) => m.clone(),
            AppError::NotFound => "Resource Not Found".to_owned(),
            AppError::ValidationError(m) => m.clone(),
        }
    }
}

} // verus!
