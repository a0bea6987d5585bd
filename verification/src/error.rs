//! The error type of the gateway's request handling.
use vstd::prelude::*;
use crate::ids::Uuid;

verus! {

/// Errors that the gateway reports to its clients.
#[derive(Debug)]
pub enum GatewayError {
    /// A request field failed validation.
    InvalidField { field: String, message: String },
    ContextNotFound(i32),
    DocumentNotFound(Uuid),
    DocumentResultUnavailable(Uuid),
    FileNotFound(i64),
    UserNotFound(Uuid),
    NotFound(String),
    Unauthorized(String),
    Forbidden(String),
    Conflict(String),
    ResultUnavailable(String),
    ArtifactMissing { job_id: String },
    /// An uploaded archive could not be read.
    Archive(String),
    /// The upload carried no file part.
    MissingFile,
    /// A store or a downstream service failed, by its message.
    Storage(String),
}

/// `e` is an `InvalidField` error for `field` with `message`.
pub open spec fn is_invalid_field(e: GatewayError, field: Seq<char>, message: Seq<char>) -> bool {
    e matches GatewayError::InvalidField { field: f, message: m } && f@ == field && m@ == message
}

/// `e` is a `Forbidden` error with `message`.
pub open spec fn is_forbidden(e: GatewayError, message: Seq<char>) -> bool {
    e matches GatewayError::Forbidden(m) && m@ == message
}

/// `e` is a `Conflict` error with `message`.
pub open spec fn is_conflict(e: GatewayError, message: Seq<char>) -> bool {
    e matches GatewayError::Conflict(m) && m@ == message
}

/// Builds an `InvalidField` error.
pub fn invalid_field(field: &str, message: &str) -> (e: GatewayError)
    ensures
        is_invalid_field(e, field@, message@),
{
    GatewayError::InvalidField { field: field.to_owned(), message: message.to_owned() }
}

} // verus!
