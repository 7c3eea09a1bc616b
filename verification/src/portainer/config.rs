//! Where the container platform is and with which key it is asked.

use crate::config::Setting;
use crate::error::{ErrorKind, Failure};
use crate::portainer::error::PortainerError;
use vstd::prelude::*;
use vstd::string::*;

verus! {

/// The environment variable that names the platform's URL.
pub const URL_VARIABLE: &'static str = "PORTAINER_URL";

/// The environment variable that holds the API key.
pub const TOKEN_VARIABLE: &'static str = "PORTAINER_TOKEN";

/// Why an invocation without a URL is turned away.
pub open spec fn missing_url() -> Failure {
    Failure { kind: ErrorKind::Config, detail: "Missing URL. Use --url or set PORTAINER_URL"@ }
}

/// Why an invocation without an API key is turned away.
pub open spec fn missing_token() -> Failure {
    Failure {
        kind: ErrorKind::Config,
        detail: "Missing token. Use --token or set PORTAINER_TOKEN"@,
    }
}

/// The URL and the API key of an invocation, or the failure of the first of
/// the two that neither the command line nor the environment gives.
pub open spec fn config_of(url: Setting, token: Setting) -> Result<(Seq<char>, Seq<char>), Failure> {
    match url.chosen() {
        None => Err(missing_url()),
        Some(u) => match token.chosen() {
            None => Err(missing_token()),
            Some(t) => Ok((u, t)),
        },
    }
}

/// The URL and the API key of an invocation.
pub fn get_config(url: Setting, token: Setting) -> (r: Result<(String, String), PortainerError>)
    ensures
        match r {
            Ok((u, t)) => config_of(url, token) == Ok::<(Seq<char>, Seq<char>), Failure>((u@, t@)),
            Err(e) => config_of(url, token) == Err::<(Seq<char>, Seq<char>), Failure>(e@),
        },
{
    let u = match url.resolve() {
        Some(u) => u,
        None => {
            return Err(
                PortainerError::ConfigError(
                    String::from_str("Missing URL. Use --url or set PORTAINER_URL"),
                ),
            );
        },
    };
    let t = match token.resolve() {
        Some(t) => t,
        None => {
            return Err(
                PortainerError::ConfigError(
                    String::from_str("Missing token. Use --token or set PORTAINER_TOKEN"),
                ),
            );
        },
    };
    Ok((u, t))
}

} // verus!
