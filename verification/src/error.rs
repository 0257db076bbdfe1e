//! The error taxonomy every operation reports through.

use vstd::prelude::*;

verus! {

/// Classifies every failure a caller can see: a missing entity, a fault in
/// the request itself (bad input or a violated business rule), an identifier
/// collision, or a failure of the storage engine.
#[derive(Debug, Clone, PartialEq, Eq)]
pub enum ApiError {
    /// No entity with the requested identifier exists.
    NotFound,
    /// The request is at fault: malformed input, a missing required
    /// parameter, or a violated business rule. Carries a description.
    BadRequest(String),
    /// An identifier collided with one already stored.
    Conflict(String),
    /// The storage engine failed; the message is engine-specific.
    Storage(String),
}

impl ApiError {
    /// The response class the error maps to: not-found for a missing
    /// entity, client-fault for a bad request, server-fault for
    /// everything the engine caused.
    pub fn status_code(&self) -> (c: u16)
        ensures
            c == (match self {
                ApiError::NotFound => 404u16,
                ApiError::BadRequest(_) => 400u16,
                ApiError::Conflict(_) => 500u16,
                ApiError::Storage(_) => 500u16,
            }),
    {
        match self {
            ApiError::NotFound => 404,
            ApiError::BadRequest(_) => 400,
            ApiError::Conflict(_) => 500,
            ApiError::Storage(_) => 500,
        }
    }

    /// The human-readable description the wire responses carry.
    pub fn message(&self) -> (r: String)
        ensures
            match self {
                ApiError::NotFound => r@ == "not found"@,
                ApiError::BadRequest(m) => r@ == "bad request: "@ + m@,
                ApiError::Conflict(m) => r@ == m@,
                ApiError::Storage(m) => r@ == m@,
            },
    {
        match self {
            ApiError::NotFound => "not found".to_owned(),
            ApiError::BadRequest(m) => "bad request: ".to_owned().concat(m.as_str()),
            ApiError::Conflict(m) => m.clone(),
            ApiError::Storage(m) => m.clone(),
        }
    }
}

} // verus!
