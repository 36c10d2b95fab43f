//! Error types: provider failures surfaced to a single caller, invalid
//! configuration rejected at startup, and the error bodies of the HTTP
//! layer.

use vstd::prelude::*;

verus! {

/// The metrics provider failed to capture a snapshot. The error is returned
/// to the caller whose request performed the failing refresh; the cached
/// snapshot is left untouched.
#[derive(Clone, Debug)]
pub struct ProviderError {
    /// What went wrong, as text.
    pub message: String,
}

/// Invalid configuration, detected at startup; the process does not start.
#[derive(Clone, Copy, PartialEq, Eq, Structural, Debug)]
pub enum ConfigError {
    /// The refresh interval was negative.
    NegativeRefreshInterval,
}

impl ConfigError {
    /// A human-readable description of the configuration error.
    pub fn message(&self) -> (r: &'static str)
        ensures
            r@ == "refresh interval must not be negative"@,
    {
        match self {
            ConfigError::NegativeRefreshInterval => "refresh interval must not be negative",
        }
    }
}

/// An error message together with the chain of causes that led to it.
#[derive(Clone, Debug)]
pub struct FormattedError {
    /// The outermost error message.
    pub message: String,
    /// The messages of the underlying causes, outermost first.
    pub caused_by: Vec<String>,
}

impl FormattedError {
    /// Packs a message and its chain of causes.
    pub fn new(message: String, caused_by: Vec<String>) -> (r: Self)
        ensures
            r.message == message,
            r.caused_by == caused_by,
    {
        FormattedError { message, caused_by }
    }
}

/// A formatted error paired with the HTTP status code to respond with.
#[derive(Clone, Debug)]
pub struct RequestError {
    /// The HTTP status code of the response.
    pub status_code: u16,
    /// The body of the response.
    pub formatted: FormattedError,
}

/// Turns an error into a [`RequestError`] carrying a chosen status code.
pub trait IntoRequestError: Sized {
    /// The formatted payload the request error will carry.
    spec fn spec_formatted(&self) -> FormattedError;

    /// Attaches the status code to this error.
    fn with_status_code(self, code: u16) -> (r: RequestError)
        ensures
            r.status_code == code,
            r.formatted == self.spec_formatted(),
    ;
}

impl IntoRequestError for RequestError {
    open spec fn spec_formatted(&self) -> FormattedError {
        self.formatted
    }

    fn with_status_code(self, code: u16) -> (r: RequestError)
        ensures
            r.status_code == code,
            r.formatted == self.formatted,
    {
        RequestError { status_code: code, ..self }
    }
}

impl IntoRequestError for FormattedError {
    open spec fn spec_formatted(&self) -> FormattedError {
        *self
    }

    fn with_status_code(self, code: u16) -> (r: RequestError)
        ensures
            r.status_code == code,
            r.formatted == self,
    {
        RequestError { status_code: code, formatted: self }
    }
}

impl From<FormattedError> for RequestError {
    /// Wraps a formatted error as an internal server error (status 500).
    fn from(formatted: FormattedError) -> Self {
        RequestError { status_code: 500, formatted }
    }
}

impl vstd::std_specs::convert::FromSpecImpl<FormattedError> for RequestError {
    open spec fn obeys_from_spec() -> bool {
        true
    }

    open spec fn from_spec(formatted: FormattedError) -> Self {
        RequestError { status_code: 500, formatted }
    }
}

/// The error a route handler returns; rendered as an internal-error
/// response.
#[derive(Clone, Debug)]
pub enum RouteError {
    /// Something inside the handler failed; the payload is its message.
    InternalError(String),
}

/// The result a route handler returns.
pub type RouteResult<T> = Result<T, RouteError>;

impl From<ProviderError> for RouteError {
    /// Wraps a provider failure as an internal handler error.
    fn from(error: ProviderError) -> Self {
        RouteError::InternalError(error.message)
    }
}

impl vstd::std_specs::convert::FromSpecImpl<ProviderError> for RouteError {
    open spec fn obeys_from_spec() -> bool {
        true
    }

    open spec fn from_spec(error: ProviderError) -> Self {
        RouteError::InternalError(error.message)
    }
}

} // verus!
