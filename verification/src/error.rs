//! The errors of the service, and how they are answered over HTTP and over
//! the tool protocol.

use vstd::prelude::*;

verus! {

/// What can go wrong in a service operation.
#[derive(Clone, Debug, PartialEq, Eq)]
pub enum AppError {
    /// The request itself is wrong; the text says how.
    BadRequest(String),
    /// A memory that the request names does not exist.
    NotFound,
    /// The record store failed or answered out of turn.
    Internal,
}

/// The HTTP status that answers each error.
pub open spec fn status_of(error: AppError) -> u16 {
    match error {
        AppError::BadRequest(_) => 400,
        AppError::NotFound => 404,
        AppError::Internal => 500,
    }
}

impl AppError {
    /// The HTTP status code that answers this error.
    pub fn status_code(&self) -> (code: u16)
        ensures
            code == status_of(*self),
    {
        match self {
            AppError::BadRequest(_) => 400,
            AppError::NotFound => 404,
            AppError::Internal => 500,
        }
    }
}

/// How a failed tool call is reported over the tool protocol.
#[derive(Clone, Debug, PartialEq, Eq)]
pub enum McpFailure {
    /// The caller's input was at fault.
    InvalidInput(String),
    /// The tool could not carry out a valid call.
    ToolExecution(String),
}

/// The tool-protocol failure that reports an error of the service: the
/// caller's faults are invalid input, a missing memory is reported as
/// invalid input too, and an internal failure as a failed execution.
pub fn map_app_error(error: AppError) -> (failure: McpFailure)
    ensures
        match error {
            AppError::BadRequest(message) => failure == McpFailure::InvalidInput(message),
            AppError::NotFound => failure is InvalidInput
                && failure->InvalidInput_0@ == "memory not found"@,
            AppError::Internal => failure is ToolExecution
                && failure->ToolExecution_0@ == "internal server error"@,
        },
{
    match error {
        AppError::BadRequest(message) => McpFailure::InvalidInput(message),
        AppError::NotFound => McpFailure::InvalidInput(String::from_str("memory not found")),
        AppError::Internal => McpFailure::ToolExecution(String::from_str("internal server error")),
    }
}

} // verus!
