//! Error taxonomy and the response envelope that every operation's outcome
//! is reported through.

use vstd::prelude::*;

verus! {

/// The kinds of failure an operation can report.
///
/// Validation failures are detected before any storage access; permission
/// failures before any mutating access; conflict and not-found failures as
/// the first steps of the mutation itself; storage failures stand for the
/// store refusing a write.
#[derive(Clone, Copy, Debug, PartialEq, Eq, Structural)]
pub enum AppError {
    /// The payload fails a field-level rule.
    Validation,
    /// A unique field, date or role attachment is already taken.
    Conflict,
    /// A referenced row is absent or already soft-deleted.
    NotFound,
    /// The actor fails the permission evaluator.
    Permission,
    /// The store refused the write.
    Storage,
}

impl AppError {
    /// The transport status each failure kind maps to, applied uniformly.
    pub open spec fn spec_status_code(self) -> u16 {
        match self {
            AppError::Validation => 400,
            AppError::Conflict => 409,
            AppError::NotFound => 404,
            AppError::Permission => 403,
            AppError::Storage => 500,
        }
    }

    /// Map the failure kind to its transport status.
    pub fn status_code(self) -> (r: u16)
        ensures
            r == self.spec_status_code(),
    {
        match self {
            AppError::Validation => 400,
            AppError::Conflict => 409,
            AppError::NotFound => 404,
            AppError::Permission => 403,
            AppError::Storage => 500,
        }
    }
}

/// The response envelope: a message, and for successful reads a payload.
pub struct AppResponse<T> {
    pub message: String,
    pub data: Option<T>,
}

impl<T> AppResponse<T> {
    /// A successful response carrying a payload and the fixed message `OK`.
    pub fn success_with_data(data: T) -> (r: AppResponse<T>)
        ensures
            r.message@ == "OK"@,
            r.data == Some(data),
    {
        AppResponse { message: "OK".to_owned(), data: Some(data) }
    }

    /// A successful response carrying only a message.
    pub fn success(message: String) -> (r: AppResponse<T>)
        ensures
            r.message == message,
            r.data is None,
    {
        AppResponse { message, data: None }
    }

    /// A failure response: the failure kind paired with a message-only
    /// envelope, mirroring the status-plus-body shape of the transport.
    pub fn error(kind: AppError, message: String) -> (r: (AppError, AppResponse<T>))
        ensures
            r.0 == kind,
            r.1.message == message,
            r.1.data is None,
    {
        (kind, AppResponse { message, data: None })
    }
}

} // verus!
