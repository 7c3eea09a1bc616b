//! Where the reverse-proxy manager is and with which token it is asked.

use crate::config::Setting;
use crate::error::{ErrorKind, Failure};
use crate::nproxy::error::NproxyError;
use vstd::prelude::*;
use vstd::string::*;

verus! {

/// The environment variable that names the manager's URL.
pub const URL_VARIABLE: &'static str = "NPROXY_URL";

/// The environment variable that holds the token.
pub const TOKEN_VARIABLE: &'static str = "NPROXY_TOKEN";

/// Why an invocation without a URL is turned away.
pub open spec fn missing_url() -> Failure {
    Failure { kind: ErrorKind::Config, detail: "Missing URL. Use --url or set NPROXY_URL"@ }
}

/// Why an invocation without a token is turned away.
pub open spec fn missing_token() -> Failure {
    Failure { kind: ErrorKind::Config, detail: "Missing token. Use --token or set NPROXY_TOKEN"@ }
}

/// The URL of an invocation, or the failure of one that has none.
pub open spec fn url_of(url: Setting) -> Result<Seq<char>, Failure> {
    match url.chosen() {
        None => Err(missing_url()),
        Some(u) => Ok(u),
    }
}

/// The URL and the token of an invocation, or the failure of the first of
/// the two that neither the command line nor the environment gives.
pub open spec fn config_of(url: Setting, token: Setting) -> Result<(Seq<char>, Seq<char>), Failure> {
    match url.chosen() {
        None => Err(missing_url()),
        Some(u) => match token.chosen() {
            None => Err(missing_token()),
            Some(t) => Ok((u, t)),
        },
    }
}

/// The URL of an invocation.
pub fn get_url(url: Setting) -> (r: Result<String, NproxyError>)
    ensures
        match r {
            Ok(u) => url_of(url) == Ok::<Seq<char>, Failure>(u@),
            Err(e) => url_of(url) == Err::<Seq<char>, Failure>(e@),
        },
{
    match url.resolve() {
        Some(u) => Ok(u),
        None => Err(
            NproxyError::ConfigError(String::from_str("Missing URL. Use --url or set NPROXY_URL")),
        ),
    }
}

/// The URL and the token of an invocation.
pub fn get_config(url: Setting, token: Setting) -> (r: Result<(String, String), NproxyError>)
    ensures
        match r {
            Ok((u, t)) => config_of(url, token) == Ok::<(Seq<char>, Seq<char>), Failure>((u@, t@)),
            Err(e) => config_of(url, token) == Err::<(Seq<char>, Seq<char>), Failure>(e@),
        },
{
    let u = match get_url(url) {
        Ok(u) => u,
        Err(e) => {
            return Err(e);
        },
    };
    let t = match token.resolve() {
        Some(t) => t,
        None => {
            return Err(
                NproxyError::ConfigError(
                    String::from_str("Missing token. Use --token or set NPROXY_TOKEN"),
                ),
            );
        },
    };
    Ok((u, t))
}

} // verus!
