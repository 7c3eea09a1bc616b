//! What the client of the reverse-proxy manager sends, and what it makes of
//! the answer.
//!
//! The client does not send anything itself. It builds the request for each
//! resource and for a login, and it says what a status, an undecodable body
//! and a transport failure mean. A base URL must name its scheme, `http://`
//! or `https://`; one that does not is turned away before anything is sent.
//! Every request for a resource is a GET that carries the token in the
//! header `Authorization`, after the word `Bearer`.

use crate::document::{entries_of, lemma_nothing, put, Field, Node, Value};
use crate::error::{ErrorKind, Failure};
use crate::http::{
    class_of, status_text, ClientModel, Header, Method, Request, RequestView, Status,
    StatusClass, Transport, REQUEST_TIMEOUT_SECS,
};
use crate::nproxy::error::NproxyError;
use crate::nproxy::models::ApiLoginResponse;
use crate::text::{
    decimal, join, lemma_occurs_between, occurs_in, push_decimal, starts_with,
    trim_trailing_slashes, without_trailing_slashes,
};
use vstd::prelude::*;
use vstd::string::*;

verus! {

/// A resource of the reverse-proxy manager.
#[derive(Debug, Clone, Copy, PartialEq, Eq, Structural)]
pub enum Resource {
    /// All proxy hosts.
    ProxyHosts,
    /// One proxy host.
    ProxyHost { id: i64 },
    /// All certificates.
    Certificates,
    /// One certificate.
    Certificate { id: i64 },
}

/// The path of each resource.
pub open spec fn path_of(resource: Resource) -> Seq<char> {
    match resource {
        Resource::ProxyHosts => "/api/nginx/proxy-hosts"@,
        Resource::ProxyHost { id } => "/api/nginx/proxy-hosts/"@ + decimal(id as int),
        Resource::Certificates => "/api/nginx/certificates"@,
        Resource::Certificate { id } => "/api/nginx/certificates/"@ + decimal(id as int),
    }
}

/// The path to which a login is sent.
pub const LOGIN_PATH: &'static str = "/api/tokens";

/// The path to which a login is sent.
pub open spec fn login_path() -> Seq<char> {
    "/api/tokens"@
}

/// Whether a URL names its scheme.
pub open spec fn has_scheme(url: Seq<char>) -> bool {
    "http://"@.is_prefix_of(url) || "https://"@.is_prefix_of(url)
}

/// Why a URL that does not name its scheme is turned away.
pub open spec fn scheme_failure() -> Failure {
    Failure { kind: ErrorKind::Config, detail: "URL must start with http:// or https://"@ }
}

/// The request for a path: a GET of the base URL followed by the path, with
/// the token in its header and without a body.
pub open spec fn request_for(client: ClientModel, path: Seq<char>) -> RequestView {
    RequestView {
        method: Method::Get,
        url: client.base_url + path,
        header: Some(("Authorization"@, "Bearer "@ + client.token)),
        body: None,
    }
}

/// The request of a login: a POST to the token endpoint under the base URL,
/// without a credential, whose body names the identity and the secret.
pub open spec fn login_request(base_url: Seq<char>, email: Seq<char>, password: Seq<char>)
    -> RequestView {
    RequestView {
        method: Method::Post,
        url: base_url + login_path(),
        header: None,
        body: Some(
            Node::Record(
                seq![("identity"@, Node::Text(email)), ("secret"@, Node::Text(password))],
            ),
        ),
    }
}

/// What a status says went wrong with the request for `path`, if anything:
/// nothing for 200, a refused token for 401 and 403, a missing resource for
/// 404, and an answer of no use for every other status.
pub open spec fn status_failure(code: u16, path: Seq<char>) -> Option<Failure> {
    match class_of(code) {
        StatusClass::Success => None,
        StatusClass::Denied => Some(
            Failure { kind: ErrorKind::Auth, detail: "Invalid or expired token"@ },
        ),
        StatusClass::Missing => Some(
            Failure { kind: ErrorKind::NotFound, detail: "Resource not found: "@ + path },
        ),
        StatusClass::Unexpected => Some(
            Failure {
                kind: ErrorKind::Api,
                detail: "Unexpected status "@ + status_text(code) + " from "@ + path,
            },
        ),
    }
}

/// What a status says went wrong with a login, if anything: nothing for
/// 200, refused credentials for 401 and 403, a missing resource for 404,
/// and an answer of no use for every other status. The failure of a missing
/// resource names the path of the login; that of an answer of no use names
/// the status and the path.
pub open spec fn login_status_failure(code: u16) -> Option<Failure> {
    match class_of(code) {
        StatusClass::Success => None,
        StatusClass::Denied => Some(
            Failure { kind: ErrorKind::Auth, detail: "Invalid credentials"@ },
        ),
        StatusClass::Missing => Some(
            Failure { kind: ErrorKind::NotFound, detail: "Resource not found: "@ + login_path() },
        ),
        StatusClass::Unexpected => Some(
            Failure {
                kind: ErrorKind::Api,
                detail: "Login failed with status "@ + status_text(code) + " from "@
                    + login_path(),
            },
        ),
    }
}

/// What a body that cannot be decoded means, given the path that was asked
/// for and the decoder's message.
pub open spec fn decode_failure(path: Seq<char>, message: Seq<char>) -> Failure {
    Failure {
        kind: ErrorKind::Api,
        detail: "Failed to parse response from "@ + path + ": "@ + message,
    }
}

/// What the body of a login that cannot be decoded means, given the
/// decoder's message. The failure names the path of the login.
pub open spec fn login_decode_failure(message: Seq<char>) -> Failure {
    Failure {
        kind: ErrorKind::Api,
        detail: "Failed to parse login response from "@ + login_path() + ": "@ + message,
    }
}

/// What a failure of the transport means, given the transport's message.
pub open spec fn transport_failure(message: Seq<char>) -> Failure {
    Failure { kind: ErrorKind::Network, detail: message }
}

impl Resource {
    /// The path of the resource.
    pub fn path(&self) -> (r: String)
        ensures
            r@ == path_of(*self),
    {
        match *self {
            Resource::ProxyHosts => String::from_str("/api/nginx/proxy-hosts"),
            Resource::ProxyHost { id } => {
                let mut out = String::from_str("/api/nginx/proxy-hosts/");
                push_decimal(&mut out, id);
                out
            },
            Resource::Certificates => String::from_str("/api/nginx/certificates"),
            Resource::Certificate { id } => {
                let mut out = String::from_str("/api/nginx/certificates/");
                push_decimal(&mut out, id);
                out
            },
        }
    }
}

/// The base URL that `url` stands for: `url` without its trailing slashes,
/// where that names its scheme.
pub fn base_url_of(url: &str) -> (r: Result<String, NproxyError>)
    ensures
        match r {
            Ok(base) => has_scheme(base@) && base@ == without_trailing_slashes(url@),
            Err(e) => !has_scheme(without_trailing_slashes(url@)) && e@ == scheme_failure(),
        },
{
    let base = trim_trailing_slashes(url);
    if !starts_with(base.as_str(), "http://") && !starts_with(base.as_str(), "https://") {
        return Err(
            NproxyError::ConfigError(String::from_str("URL must start with http:// or https://")),
        );
    }
    Ok(base)
}

/// The client of the reverse-proxy manager: a base URL that names its
/// scheme and has no trailing slashes, and the token.
#[derive(Debug)]
pub struct NproxyClient {
    base_url: String,
    token: String,
    insecure: bool,
}

impl View for NproxyClient {
    type V = ClientModel;

    closed spec fn view(&self) -> ClientModel {
        ClientModel { base_url: self.base_url@, token: self.token@, insecure: self.insecure }
    }
}

impl NproxyClient {
    /// The client for the manager at `url`. The slashes at the end of the
    /// URL are dropped; what is left must begin with `http://` or
    /// `https://`.
    pub fn new(url: &str, token: &str, insecure: bool) -> (r: Result<Self, NproxyError>)
        ensures
            match r {
                Ok(client) => has_scheme(client@.base_url) && client@ == (ClientModel {
                    base_url: without_trailing_slashes(url@),
                    token: token@,
                    insecure,
                }),
                Err(e) => !has_scheme(without_trailing_slashes(url@)) && e@ == scheme_failure(),
            },
    {
        match base_url_of(url) {
            Ok(base_url) => Ok(NproxyClient { base_url, token: String::from_str(token), insecure }),
            Err(e) => Err(e),
        }
    }

    /// The base URL.
    pub fn base_url(&self) -> (r: &str)
        ensures
            r@ == self@.base_url,
    {
        self.base_url.as_str()
    }

    /// The token.
    pub fn token(&self) -> (r: &str)
        ensures
            r@ == self@.token,
    {
        self.token.as_str()
    }

    /// The settings with which the transport of this client is built.
    pub fn transport(&self) -> (r: Transport)
        ensures
            r == (Transport { timeout_secs: REQUEST_TIMEOUT_SECS, insecure: self@.insecure }),
    {
        Transport::new(self.insecure)
    }

    /// The request for `path`.
    pub fn get(&self, path: &str) -> (r: Request)
        ensures
            r@ == request_for(self@, path@),
    {
        Request {
            method: Method::Get,
            url: join(self.base_url.as_str(), path),
            header: Some(
                Header {
                    name: String::from_str("Authorization"),
                    value: join("Bearer ", self.token.as_str()),
                },
            ),
            body: None,
        }
    }

    /// The request for a resource.
    pub fn fetch(&self, resource: Resource) -> (r: Request)
        ensures
            r@ == request_for(self@, path_of(resource)),
    {
        let path = resource.path();
        self.get(path.as_str())
    }

    /// The request for all proxy hosts.
    pub fn list_proxy_hosts(&self) -> (r: Request)
        ensures
            r@ == request_for(self@, path_of(Resource::ProxyHosts)),
    {
        self.fetch(Resource::ProxyHosts)
    }

    /// The request for one proxy host.
    pub fn get_proxy_host(&self, id: i64) -> (r: Request)
        ensures
            r@ == request_for(self@, path_of(Resource::ProxyHost { id })),
    {
        self.fetch(Resource::ProxyHost { id })
    }

    /// The request for all certificates.
    pub fn list_certificates(&self) -> (r: Request)
        ensures
            r@ == request_for(self@, path_of(Resource::Certificates)),
    {
        self.fetch(Resource::Certificates)
    }

    /// The request for one certificate.
    pub fn get_certificate(&self, id: i64) -> (r: Request)
        ensures
            r@ == request_for(self@, path_of(Resource::Certificate { id })),
    {
        self.fetch(Resource::Certificate { id })
    }
}

/// What a login needs from the transport: how to build it, and what to
/// send.
#[derive(Debug)]
pub struct Login {
    pub transport: Transport,
    pub request: Request,
}

/// The login at the manager at `url` with these credentials. The URL is
/// held to the same rule as a client's: without a scheme, nothing is sent.
pub fn login(url: &str, email: &str, password: &str, insecure: bool) -> (r: Result<
    Login,
    NproxyError,
>)
    ensures
        match r {
            Ok(login) => has_scheme(without_trailing_slashes(url@)) && login.transport == (
            Transport { timeout_secs: REQUEST_TIMEOUT_SECS, insecure }) && login.request@
                == login_request(without_trailing_slashes(url@), email@, password@),
            Err(e) => !has_scheme(without_trailing_slashes(url@)) && e@ == scheme_failure(),
        },
{
    match base_url_of(url) {
        Ok(base_url) => {
            let mut fields: Vec<Field> = Vec::new();
            proof {
                lemma_nothing();
            }
            put(&mut fields, "identity", Value::text(email));
            put(&mut fields, "secret", Value::text(password));
            assert(entries_of(fields@) =~= seq![
                ("identity"@, Node::Text(email@)),
                ("secret"@, Node::Text(password@)),
            ]);
            Ok(
                Login {
                    transport: Transport::new(insecure),
                    request: Request {
                        method: Method::Post,
                        url: join(base_url.as_str(), LOGIN_PATH),
                        header: None,
                        body: Some(Value::Record(fields)),
                    },
                },
            )
        },
        Err(e) => Err(e),
    }
}

/// What the status of the answer to the request for `path` means: the body
/// is to be decoded where the status is 200, and the request has failed
/// where it is anything else.
pub fn check_status(status: Status, path: &str) -> (r: Result<(), NproxyError>)
    ensures
        match status_failure(status@, path@) {
            None => r is Ok,
            Some(failure) => r matches Err(e) && e@ == failure,
        },
{
    match status.class() {
        StatusClass::Success => Ok(()),
        StatusClass::Denied => Err(
            NproxyError::AuthError(String::from_str("Invalid or expired token")),
        ),
        StatusClass::Missing => Err(NproxyError::NotFound(join("Resource not found: ", path))),
        StatusClass::Unexpected => {
            let mut detail = String::from_str("Unexpected status ");
            let text = status.text();
            detail.append(text.as_str());
            detail.append(" from ");
            detail.append(path);
            Err(NproxyError::ApiError(detail))
        },
    }
}

/// What the status of the answer to a login means.
pub fn check_login_status(status: Status) -> (r: Result<(), NproxyError>)
    ensures
        match login_status_failure(status@) {
            None => r is Ok,
            Some(failure) => r matches Err(e) && e@ == failure,
        },
{
    match status.class() {
        StatusClass::Success => Ok(()),
        StatusClass::Denied => Err(NproxyError::AuthError(String::from_str("Invalid credentials"))),
        StatusClass::Missing => Err(NproxyError::NotFound(join("Resource not found: ", LOGIN_PATH))),
        StatusClass::Unexpected => {
            let mut detail = String::from_str("Login failed with status ");
            let text = status.text();
            detail.append(text.as_str());
            detail.append(" from ");
            detail.append(LOGIN_PATH);
            Err(NproxyError::ApiError(detail))
        },
    }
}

/// The failure of a body that cannot be decoded, given the path that was
/// asked for and the decoder's message.
pub fn unreadable(path: &str, message: &str) -> (e: NproxyError)
    ensures
        e@ == decode_failure(path@, message@),
{
    let mut detail = String::from_str("Failed to parse response from ");
    detail.append(path);
    detail.append(": ");
    detail.append(message);
    NproxyError::ApiError(detail)
}

/// What came of decoding the body of an answer with status 200: the decoded
/// value, or the failure that the decoder's message stands for.
pub fn check_body<T>(path: &str, body: Result<T, String>) -> (r: Result<T, NproxyError>)
    ensures
        match body {
            Ok(value) => r == Ok::<T, NproxyError>(value),
            Err(message) => r matches Err(e) && e@ == decode_failure(path@, message@),
        },
{
    match body {
        Ok(value) => Ok(value),
        Err(message) => Err(unreadable(path, message.as_str())),
    }
}

/// What came of decoding the body of a login that was answered with status
/// 200: the token, or the failure that the decoder's message stands for.
pub fn check_login_body(body: Result<ApiLoginResponse, String>) -> (r: Result<String, NproxyError>)
    ensures
        match body {
            Ok(answer) => r matches Ok(token) && token@ == answer@,
            Err(message) => r matches Err(e) && e@ == login_decode_failure(message@),
        },
{
    match body {
        Ok(answer) => Ok(answer.token),
        Err(message) => Err(unreadable_login(message.as_str())),
    }
}

/// The failure of the body of a login that cannot be decoded, given the
/// decoder's message.
pub fn unreadable_login(message: &str) -> (e: NproxyError)
    ensures
        e@ == login_decode_failure(message@),
{
    let mut detail = String::from_str("Failed to parse login response from ");
    detail.append(LOGIN_PATH);
    detail.append(": ");
    detail.append(message);
    NproxyError::ApiError(detail)
}

/// The failure of a request that got no answer, given the transport's
/// message.
pub fn unanswered(message: String) -> (e: NproxyError)
    ensures
        e@ == transport_failure(message@),
{
    NproxyError::NetworkError(message)
}

/// Every status has exactly one meaning: 200 is no failure, 401 and 403 are
/// a refused token, 404 is a missing resource, and every other status is an
/// answer of no use.
pub proof fn lemma_status_mapping(code: u16, path: Seq<char>)
    ensures
        status_failure(code, path) is None <==> code == 200,
        (status_failure(code, path) matches Some(f) && f.kind == ErrorKind::Auth) <==> (code == 401
            || code == 403),
        (status_failure(code, path) matches Some(f) && f.kind == ErrorKind::NotFound) <==> code
            == 404,
        (status_failure(code, path) matches Some(f) && f.kind == ErrorKind::Api) <==> (code != 200
            && code != 401 && code != 403 && code != 404),
        status_failure(code, path) matches Some(f) ==> f.kind != ErrorKind::Network && f.kind
            != ErrorKind::Config,
{
}

/// A login gives every status the meaning that a request for a resource
/// gives it: 200 is no failure, 401 and 403 are refused credentials, 404 is
/// a missing resource, and every other status is an answer of no use.
pub proof fn lemma_login_status_mapping(code: u16)
    ensures
        login_status_failure(code) is None <==> code == 200,
        (login_status_failure(code) matches Some(f) && f.kind == ErrorKind::Auth) <==> (code == 401
            || code == 403),
        (login_status_failure(code) matches Some(f) && f.kind == ErrorKind::NotFound) <==> code
            == 404,
        (login_status_failure(code) matches Some(f) && f.kind == ErrorKind::Api) <==> (code != 200
            && code != 401 && code != 403 && code != 404),
        login_status_failure(code) matches Some(f) ==> f.kind != ErrorKind::Network && f.kind
            != ErrorKind::Config,
{
}

/// A URL with one more slash at its end is turned away or taken exactly as
/// the URL itself is, and where it is taken it gives the same base URL.
pub proof fn lemma_trailing_slash_changes_nothing(url: Seq<char>)
    ensures
        without_trailing_slashes(url.push('/')) == without_trailing_slashes(url),
        has_scheme(without_trailing_slashes(url.push('/'))) == has_scheme(
            without_trailing_slashes(url),
        ),
{
    crate::text::lemma_trim_ignores_trailing_slash(url);
}

/// The failures that speak of a request name its path: the path stands in
/// the text of a missing resource, of an answer of no use and of a body
/// that cannot be decoded. The text of an answer of no use names the status
/// as well.
pub proof fn lemma_failures_name_the_path(code: u16, path: Seq<char>, message: Seq<char>)
    ensures
        occurs_in(path, decode_failure(path, message).detail),
        class_of(code) == StatusClass::Missing ==> occurs_in(
            path,
            status_failure(code, path)->0.detail,
        ),
        class_of(code) == StatusClass::Unexpected ==> occurs_in(
            path,
            status_failure(code, path)->0.detail,
        ) && occurs_in(status_text(code), status_failure(code, path)->0.detail),
{
    lemma_occurs_between("Failed to parse response from "@, path, ": "@ + message);
    assert("Failed to parse response from "@ + path + (": "@ + message) =~= decode_failure(
        path,
        message,
    ).detail);
    lemma_occurs_between("Resource not found: "@, path, Seq::empty());
    lemma_occurs_between("Unexpected status "@ + status_text(code) + " from "@, path, Seq::empty());
    lemma_occurs_between("Unexpected status "@, status_text(code), " from "@ + path);
    assert("Unexpected status "@ + status_text(code) + (" from "@ + path) =~= "Unexpected status "@
        + status_text(code) + " from "@ + path);
}

/// The failures of a login name the path of the login, as those of every
/// other request name theirs.
pub proof fn lemma_login_failures_name_the_path(code: u16, message: Seq<char>)
    ensures
        occurs_in(login_path(), login_decode_failure(message).detail),
        class_of(code) == StatusClass::Missing ==> occurs_in(
            login_path(),
            login_status_failure(code)->0.detail,
        ),
        class_of(code) == StatusClass::Unexpected ==> occurs_in(
            login_path(),
            login_status_failure(code)->0.detail,
        ) && occurs_in(status_text(code), login_status_failure(code)->0.detail),
{
    let path = login_path();
    lemma_occurs_between("Failed to parse login response from "@, path, ": "@ + message);
    assert("Failed to parse login response from "@ + path + (": "@ + message)
        =~= login_decode_failure(message).detail);
    lemma_occurs_between("Resource not found: "@, path, Seq::empty());
    lemma_occurs_between(
        "Login failed with status "@ + status_text(code) + " from "@,
        path,
        Seq::empty(),
    );
    lemma_occurs_between("Login failed with status "@, status_text(code), " from "@ + path);
    assert("Login failed with status "@ + status_text(code) + (" from "@ + path)
        =~= "Login failed with status "@ + status_text(code) + " from "@ + path);
}

} // verus!
