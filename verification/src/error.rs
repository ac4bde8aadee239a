use vstd::prelude::*;

verus! {

/// The operating-system I/O error, carried through unchanged.
#[verifier::external_type_specification]
#[verifier::external_body]
pub struct ExIoError(std::io::Error);

/// An arbitrary JSON document, carried through unchanged.
#[verifier::external_type_specification]
#[verifier::external_body]
pub struct ExJsonValue(serde_json::Value);

/// HTTP-specific errors.
#[derive(Debug)]
pub enum HttpError {
    Connection(String),
    Timeout(std::time::Duration),
    Tls(String),
    Hyper(String),
    InvalidUri(String),
}

/// Top-level error type for cog-core operations.
#[derive(Debug)]
pub enum Error {
    Http(HttpError),
    AuthRequired(String),
    OAuth2(String),
    Api { status: u16, message: String, details: Option<serde_json::Value> },
    NotFound(String),
    PermissionDenied(String),
    RateLimited { retry_after_secs: Option<u64> },
    Retryable(String),
    Config(String),
    PermanentDeleteDenied,
    BulkTrashDenied { count: usize },
    FeatureDisabled(String),
    Serialization(String),
    Io(std::io::Error),
    /// A JSON (de)serialisation failure, by its message.
    Json(String),
    Keyring(String),
    CircuitBreakerOpen { service: String },
    Cancelled,
    Other(String),
}

/// The CLI exit code that each kind of error maps to.
pub open spec fn exit_code_of(e: Error) -> i32 {
    match e {
        Error::AuthRequired(_) | Error::OAuth2(_) => 4,
        Error::NotFound(_) => 5,
        Error::PermissionDenied(_) => 6,
        Error::RateLimited { .. } => 7,
        Error::Retryable(_) | Error::CircuitBreakerOpen { .. } => 8,
        Error::Config(_) => 10,
        Error::Cancelled => 130,
        _ => 1,
    }
}

impl Error {
    /// Map this error to a CLI exit code.
    pub fn exit_code(&self) -> (code: i32)
        ensures
            code == exit_code_of(*self),
    {
        match self {
            Error::Api { .. } | Error::Http(_) | Error::Other(_) => 1,
            Error::AuthRequired(_) | Error::OAuth2(_) => 4,
            Error::NotFound(_) => 5,
            Error::PermissionDenied(_) => 6,
            Error::RateLimited { .. } => 7,
            Error::Retryable(_) | Error::CircuitBreakerOpen { .. } => 8,
            Error::Config(_) => 10,
            Error::Cancelled => 130,
            Error::PermanentDeleteDenied | Error::BulkTrashDenied { .. } => 1,
            Error::FeatureDisabled(_) => 1,
            _ => 1,
        }
    }
}

/// Result type of cog-core operations.
pub type Result<T> = std::result::Result<T, Error>;

} // verus!
