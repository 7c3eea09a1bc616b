//! The kinds of failure that both clients know, with the exit code, the code
//! string and the heading that each kind carries.

use vstd::prelude::*;

verus! {

/// Why an invocation failed.
#[derive(Debug, Clone, Copy, PartialEq, Eq, Structural)]
pub enum ErrorKind {
    /// A local input is missing or invalid; nothing was sent.
    Config,
    /// The server did not accept the credential.
    Auth,
    /// The resource does not exist.
    NotFound,
    /// The transport failed.
    Network,
    /// The server answered what the client cannot use.
    Api,
}

/// What an error stands for: its kind and the text it carries.
pub struct Failure {
    pub kind: ErrorKind,
    pub detail: Seq<char>,
}

/// The exit code of each kind.
pub open spec fn exit_code_of(kind: ErrorKind) -> i32 {
    match kind {
        ErrorKind::Config => 1,
        ErrorKind::Auth => 2,
        ErrorKind::NotFound => 3,
        ErrorKind::Network => 4,
        ErrorKind::Api => 5,
    }
}

/// The code string of each kind.
pub open spec fn code_of(kind: ErrorKind) -> Seq<char> {
    match kind {
        ErrorKind::Config => "CONFIG_ERROR"@,
        ErrorKind::Auth => "AUTH_FAILED"@,
        ErrorKind::NotFound => "NOT_FOUND"@,
        ErrorKind::Network => "NETWORK_ERROR"@,
        ErrorKind::Api => "API_ERROR"@,
    }
}

/// The words that open the message of each kind.
pub open spec fn heading_of(kind: ErrorKind) -> Seq<char> {
    match kind {
        ErrorKind::Config => "Missing configuration: "@,
        ErrorKind::Auth => "Authentication failed: "@,
        ErrorKind::NotFound => "Resource not found: "@,
        ErrorKind::Network => "Network error: "@,
        ErrorKind::Api => "API error: "@,
    }
}

/// The message of an error: the heading of its kind, then its text.
pub open spec fn message_of(failure: Failure) -> Seq<char> {
    heading_of(failure.kind) + failure.detail
}

impl ErrorKind {
    /// The exit code of this kind.
    pub fn exit_code(self) -> (r: i32)
        ensures
            r == exit_code_of(self),
    {
        match self {
            ErrorKind::Config => 1,
            ErrorKind::Auth => 2,
            ErrorKind::NotFound => 3,
            ErrorKind::Network => 4,
            ErrorKind::Api => 5,
        }
    }

    /// The code string of this kind.
    pub fn code(self) -> (r: &'static str)
        ensures
            r@ == code_of(self),
    {
        match self {
            ErrorKind::Config => "CONFIG_ERROR",
            ErrorKind::Auth => "AUTH_FAILED",
            ErrorKind::NotFound => "NOT_FOUND",
            ErrorKind::Network => "NETWORK_ERROR",
            ErrorKind::Api => "API_ERROR",
        }
    }

    /// The words that open a message of this kind.
    pub fn heading(self) -> (r: &'static str)
        ensures
            r@ == heading_of(self),
    {
        match self {
            ErrorKind::Config => "Missing configuration: ",
            ErrorKind::Auth => "Authentication failed: ",
            ErrorKind::NotFound => "Resource not found: ",
            ErrorKind::Network => "Network error: ",
            ErrorKind::Api => "API error: ",
        }
    }
}

/// No kind exits with the code of success, and no two kinds share an exit
/// code.
pub proof fn lemma_exit_codes_tell_kinds_apart(a: ErrorKind, b: ErrorKind)
    ensures
        1 <= exit_code_of(a) <= 5,
        exit_code_of(a) == exit_code_of(b) ==> a == b,
{
}

/// No two kinds share a code string.
pub proof fn lemma_codes_tell_kinds_apart(a: ErrorKind, b: ErrorKind)
    ensures
        code_of(a) == code_of(b) ==> a == b,
{
    reveal_strlit("CONFIG_ERROR");
    reveal_strlit("AUTH_FAILED");
    reveal_strlit("NOT_FOUND");
    reveal_strlit("NETWORK_ERROR");
    reveal_strlit("API_ERROR");
    if code_of(a) == code_of(b) {
        assert(code_of(a).len() == code_of(b).len());
        assert(code_of(a)[0] == code_of(b)[0]);
        assert(code_of(a)[1] == code_of(b)[1]);
    }
}

} // verus!
