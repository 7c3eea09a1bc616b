//! The failures of the container platform's client.

use crate::error::{code_of, exit_code_of, message_of, ErrorKind, Failure};
use crate::output::{envelope_of, ErrorOutput};
use crate::text::join;
use vstd::prelude::*;

verus! {

/// A failure of the container platform's client, with the text that says
/// what went wrong.
#[derive(Debug)]
pub enum PortainerError {
    ConfigError(String),
    AuthError(String),
    NotFound(String),
    NetworkError(String),
    ApiError(String),
}

impl View for PortainerError {
    type V = Failure;

    open spec fn view(&self) -> Failure {
        match self {
            PortainerError::ConfigError(s) => Failure { kind: ErrorKind::Config, detail: s@ },
            PortainerError::AuthError(s) => Failure { kind: ErrorKind::Auth, detail: s@ },
            PortainerError::NotFound(s) => Failure { kind: ErrorKind::NotFound, detail: s@ },
            PortainerError::NetworkError(s) => Failure { kind: ErrorKind::Network, detail: s@ },
            PortainerError::ApiError(s) => Failure { kind: ErrorKind::Api, detail: s@ },
        }
    }
}

impl PortainerError {
    /// The error of this kind with this text.
    pub fn new(kind: ErrorKind, detail: String) -> (r: PortainerError)
        ensures
            r@ == (Failure { kind, detail: detail@ }),
    {
        match kind {
            ErrorKind::Config => PortainerError::ConfigError(detail),
            ErrorKind::Auth => PortainerError::AuthError(detail),
            ErrorKind::NotFound => PortainerError::NotFound(detail),
            ErrorKind::Network => PortainerError::NetworkError(detail),
            ErrorKind::Api => PortainerError::ApiError(detail),
        }
    }

    /// The kind of the failure.
    pub fn kind(&self) -> (r: ErrorKind)
        ensures
            r == self@.kind,
    {
        match self {
            PortainerError::ConfigError(_) => ErrorKind::Config,
            PortainerError::AuthError(_) => ErrorKind::Auth,
            PortainerError::NotFound(_) => ErrorKind::NotFound,
            PortainerError::NetworkError(_) => ErrorKind::Network,
            PortainerError::ApiError(_) => ErrorKind::Api,
        }
    }

    /// The text that the failure carries.
    pub fn detail(&self) -> (r: &str)
        ensures
            r@ == self@.detail,
    {
        match self {
            PortainerError::ConfigError(s) => s.as_str(),
            PortainerError::AuthError(s) => s.as_str(),
            PortainerError::NotFound(s) => s.as_str(),
            PortainerError::NetworkError(s) => s.as_str(),
            PortainerError::ApiError(s) => s.as_str(),
        }
    }

    /// The exit code of the process that ends with this failure.
    pub fn exit_code(&self) -> (r: i32)
        ensures
            r == exit_code_of(self@.kind),
    {
        self.kind().exit_code()
    }

    /// The code string of the failure.
    pub fn code(&self) -> (r: &'static str)
        ensures
            r@ == code_of(self@.kind),
    {
        self.kind().code()
    }

    /// The message of the failure: the heading of its kind, then its text.
    pub fn message(&self) -> (r: String)
        ensures
            r@ == message_of(self@),
    {
        join(self.kind().heading(), self.detail())
    }

    /// The report of the failure.
    pub fn to_output(&self) -> (r: ErrorOutput)
        ensures
            r@ == envelope_of(self@),
    {
        ErrorOutput::new(self.code(), self.message())
    }
}

} // verus!
