//! The failures of the reverse-proxy manager's client.

use crate::error::{code_of, exit_code_of, message_of, ErrorKind, Failure};
use crate::output::{envelope_of, ErrorOutput};
use crate::text::join;
use vstd::prelude::*;

verus! {

/// A failure of the reverse-proxy manager's client, with the text that says
/// what went wrong.
#[derive(Debug)]
pub enum NproxyError {
    ConfigError(String),
    AuthError(String),
    NotFound(String),
    NetworkError(String),
    ApiError(String),
}

impl View for NproxyError {
    type V = Failure;

    open spec fn view(&self) -> Failure {
        match self {
            NproxyError::ConfigError(s) => Failure { kind: ErrorKind::Config, detail: s@ },
            NproxyError::AuthError(s) => Failure { kind: ErrorKind::Auth, detail: s@ },
            NproxyError::NotFound(s) => Failure { kind: ErrorKind::NotFound, detail: s@ },
            NproxyError::NetworkError(s) => Failure { kind: ErrorKind::Network, detail: s@ },
            NproxyError::ApiError(s) => Failure { kind: ErrorKind::Api, detail: s@ },
        }
    }
}

impl NproxyError {
    /// The error of this kind with this text.
    pub fn new(kind: ErrorKind, detail: String) -> (r: NproxyError)
        ensures
            r@ == (Failure { kind, detail: detail@ }),
    {
        match kind {
            ErrorKind::Config => NproxyError::ConfigError(detail),
            ErrorKind::Auth => NproxyError::AuthError(detail),
            ErrorKind::NotFound => NproxyError::NotFound(detail),
            ErrorKind::Network => NproxyError::NetworkError(detail),
            ErrorKind::Api => NproxyError::ApiError(detail),
        }
    }

    /// The kind of the failure.
    pub fn kind(&self) -> (r: ErrorKind)
        ensures
            r == self@.kind,
    {
        match self {
            NproxyError::ConfigError(_) => ErrorKind::Config,
            NproxyError::AuthError(_) => ErrorKind::Auth,
            NproxyError::NotFound(_) => ErrorKind::NotFound,
            NproxyError::NetworkError(_) => ErrorKind::Network,
            NproxyError::ApiError(_) => ErrorKind::Api,
        }
    }

    /// The text that the failure carries.
    pub fn detail(&self) -> (r: &str)
        ensures
            r@ == self@.detail,
    {
        match self {
            NproxyError::ConfigError(s) => s.as_str(),
            NproxyError::AuthError(s) => s.as_str(),
            NproxyError::NotFound(s) => s.as_str(),
            NproxyError::NetworkError(s) => s.as_str(),
            NproxyError::ApiError(s) => s.as_str(),
        }
    }

    /// The exit code of the process that ends with this failure.
    pub fn exit_code(&self) -> (r: i32)
        ensures
            r == exit_code_of(self@.kind),
    {
        self.kind().exit_code()
    }

    /// The code string of the failure.
    pub fn code(&self) -> (r: &'static str)
        ensures
            r@ == code_of(self@.kind),
    {
        self.kind().code()
    }

    /// The message of the failure: the heading of its kind, then its text.
    pub fn message(&self) -> (r: String)
        ensures
            r@ == message_of(self@),
    {
        join(self.kind().heading(), self.detail())
    }

    /// The report of the failure.
    pub fn to_output(&self) -> (r: ErrorOutput)
        ensures
            r@ == envelope_of(self@),
    {
        ErrorOutput::new(self.code(), self.message())
    }
}

} // verus!
