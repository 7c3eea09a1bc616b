//! What the client of the container platform sends, and what it makes of
//! the answer.
//!
//! The client does not send anything itself. It builds the request for each
//! resource, and it says what a status, an undecodable body and a transport
//! failure mean. Every request is a GET that carries the API key in the
//! header `X-API-Key`.

use crate::error::{ErrorKind, Failure};
use crate::http::{
    class_of, status_text, ClientModel, Header, Method, Request, RequestView, Status,
    StatusClass, Transport, REQUEST_TIMEOUT_SECS,
};
use crate::portainer::error::PortainerError;
use crate::text::{
    decimal, join, lemma_occurs_between, occurs_in, push_decimal, trim_trailing_slashes,
    without_trailing_slashes,
};
use vstd::prelude::*;
use vstd::string::*;

verus! {

/// A resource of the container platform.
#[derive(Debug, Clone, Copy, PartialEq, Eq, Structural)]
pub enum Resource {
    /// All stacks.
    Stacks,
    /// One stack of one endpoint.
    Stack { id: i64, endpoint_id: i64 },
    /// The stack file of one stack.
    StackFile { id: i64 },
    /// All endpoints.
    Endpoints,
    /// One endpoint.
    Endpoint { id: i64 },
}

/// The path of each resource.
pub open spec fn path_of(resource: Resource) -> Seq<char> {
    match resource {
        Resource::Stacks => "/api/stacks"@,
        Resource::Stack { id, endpoint_id } => "/api/stacks/"@ + decimal(id as int)
            + "?endpointId="@ + decimal(endpoint_id as int),
        Resource::StackFile { id } => "/api/stacks/"@ + decimal(id as int) + "/file"@,
        Resource::Endpoints => "/api/endpoints"@,
        Resource::Endpoint { id } => "/api/endpoints/"@ + decimal(id as int),
    }
}

/// The request for a path: a GET of the base URL followed by the path, with
/// the API key in its header and without a body.
pub open spec fn request_for(client: ClientModel, path: Seq<char>) -> RequestView {
    RequestView {
        method: Method::Get,
        url: client.base_url + path,
        header: Some(("X-API-Key"@, client.token)),
        body: None,
    }
}

/// What a status says went wrong with the request for `path`, if anything:
/// nothing for 200, a refused credential for 401 and 403, a missing
/// resource for 404, and an answer of no use for every other status. The
/// failure of a missing resource names the path; that of an answer of no
/// use names the status and the path.
pub open spec fn status_failure(code: u16, path: Seq<char>) -> Option<Failure> {
    match class_of(code) {
        StatusClass::Success => None,
        StatusClass::Denied => Some(
            Failure { kind: ErrorKind::Auth, detail: "Invalid or expired token"@ },
        ),
        StatusClass::Missing => Some(
            Failure { kind: ErrorKind::NotFound, detail: "Resource not found: "@ + path },
        ),
        StatusClass::Unexpected => Some(
            Failure {
                kind: ErrorKind::Api,
                detail: "Unexpected status "@ + status_text(code) + " from "@ + path,
            },
        ),
    }
}

/// What a body that cannot be decoded means, given the path that was asked
/// for and the decoder's message.
pub open spec fn decode_failure(path: Seq<char>, message: Seq<char>) -> Failure {
    Failure {
        kind: ErrorKind::Api,
        detail: "Failed to parse response from "@ + path + ": "@ + message,
    }
}

/// What a failure of the transport means, given the transport's message.
pub open spec fn transport_failure(message: Seq<char>) -> Failure {
    Failure { kind: ErrorKind::Network, detail: message }
}

impl Resource {
    /// The path of the resource.
    pub fn path(&self) -> (r: String)
        ensures
            r@ == path_of(*self),
    {
        match *self {
            Resource::Stacks => String::from_str("/api/stacks"),
            Resource::Stack { id, endpoint_id } => {
                let mut out = String::from_str("/api/stacks/");
                push_decimal(&mut out, id);
                out.append("?endpointId=");
                push_decimal(&mut out, endpoint_id);
                out
            },
            Resource::StackFile { id } => {
                let mut out = String::from_str("/api/stacks/");
                push_decimal(&mut out, id);
                out.append("/file");
                out
            },
            Resource::Endpoints => String::from_str("/api/endpoints"),
            Resource::Endpoint { id } => {
                let mut out = String::from_str("/api/endpoints/");
                push_decimal(&mut out, id);
                out
            },
        }
    }
}

/// The client of the container platform: a base URL without trailing
/// slashes, and the API key.
#[derive(Debug)]
pub struct PortainerClient {
    base_url: String,
    token: String,
    insecure: bool,
}

impl View for PortainerClient {
    type V = ClientModel;

    closed spec fn view(&self) -> ClientModel {
        ClientModel { base_url: self.base_url@, token: self.token@, insecure: self.insecure }
    }
}

impl PortainerClient {
    /// The client for the platform at `url`. The slashes at the end of the
    /// URL are dropped. No URL is turned away.
    pub fn new(url: &str, token: &str, insecure: bool) -> (r: Result<Self, PortainerError>)
        ensures
            r matches Ok(client) && client@ == (ClientModel {
                base_url: without_trailing_slashes(url@),
                token: token@,
                insecure,
            }),
    {
        Ok(
            PortainerClient {
                base_url: trim_trailing_slashes(url),
                token: String::from_str(token),
                insecure,
            },
        )
    }

    /// The base URL.
    pub fn base_url(&self) -> (r: &str)
        ensures
            r@ == self@.base_url,
    {
        self.base_url.as_str()
    }

    /// The API key.
    pub fn token(&self) -> (r: &str)
        ensures
            r@ == self@.token,
    {
        self.token.as_str()
    }

    /// The settings with which the transport of this client is built.
    pub fn transport(&self) -> (r: Transport)
        ensures
            r == (Transport { timeout_secs: REQUEST_TIMEOUT_SECS, insecure: self@.insecure }),
    {
        Transport::new(self.insecure)
    }

    /// The request for `path`.
    pub fn get(&self, path: &str) -> (r: Request)
        ensures
            r@ == request_for(self@, path@),
    {
        Request {
            method: Method::Get,
            url: join(self.base_url.as_str(), path),
            header: Some(
                Header { name: String::from_str("X-API-Key"), value: self.token.clone() },
            ),
            body: None,
        }
    }

    /// The request for a resource.
    pub fn fetch(&self, resource: Resource) -> (r: Request)
        ensures
            r@ == request_for(self@, path_of(resource)),
    {
        let path = resource.path();
        self.get(path.as_str())
    }

    /// The request for all stacks.
    pub fn list_stacks(&self) -> (r: Request)
        ensures
            r@ == request_for(self@, path_of(Resource::Stacks)),
    {
        self.fetch(Resource::Stacks)
    }

    /// The request for one stack of one endpoint.
    pub fn get_stack(&self, id: i64, endpoint_id: i64) -> (r: Request)
        ensures
            r@ == request_for(self@, path_of(Resource::Stack { id, endpoint_id })),
    {
        self.fetch(Resource::Stack { id, endpoint_id })
    }

    /// The request for the stack file of one stack.
    pub fn get_stack_file(&self, id: i64) -> (r: Request)
        ensures
            r@ == request_for(self@, path_of(Resource::StackFile { id })),
    {
        self.fetch(Resource::StackFile { id })
    }

    /// The request for all endpoints.
    pub fn list_endpoints(&self) -> (r: Request)
        ensures
            r@ == request_for(self@, path_of(Resource::Endpoints)),
    {
        self.fetch(Resource::Endpoints)
    }

    /// The request for one endpoint.
    pub fn get_endpoint(&self, id: i64) -> (r: Request)
        ensures
            r@ == request_for(self@, path_of(Resource::Endpoint { id })),
    {
        self.fetch(Resource::Endpoint { id })
    }
}

/// What the status of the answer to the request for `path` means: the body
/// is to be decoded where the status is 200, and the request has failed
/// where it is anything else.
pub fn check_status(status: Status, path: &str) -> (r: Result<(), PortainerError>)
    ensures
        match status_failure(status@, path@) {
            None => r is Ok,
            Some(failure) => r matches Err(e) && e@ == failure,
        },
{
    match status.class() {
        StatusClass::Success => Ok(()),
        StatusClass::Denied => Err(
            PortainerError::AuthError(String::from_str("Invalid or expired token")),
        ),
        StatusClass::Missing => Err(PortainerError::NotFound(join("Resource not found: ", path))),
        StatusClass::Unexpected => {
            let mut detail = String::from_str("Unexpected status ");
            let text = status.text();
            detail.append(text.as_str());
            detail.append(" from ");
            detail.append(path);
            Err(PortainerError::ApiError(detail))
        },
    }
}

/// What came of decoding the body of the answer to the request for `path`,
/// an answer with status 200: the decoded value, or the failure that the
/// decoder's message stands for.
pub fn check_body<T>(path: &str, body: Result<T, String>) -> (r: Result<T, PortainerError>)
    ensures
        match body {
            Ok(value) => r == Ok::<T, PortainerError>(value),
            Err(message) => r matches Err(e) && e@ == decode_failure(path@, message@),
        },
{
    match body {
        Ok(value) => Ok(value),
        Err(message) => Err(unreadable(path, message.as_str())),
    }
}

/// The failure of a body that cannot be decoded, given the path that was
/// asked for and the decoder's message.
pub fn unreadable(path: &str, message: &str) -> (e: PortainerError)
    ensures
        e@ == decode_failure(path@, message@),
{
    let mut detail = String::from_str("Failed to parse response from ");
    detail.append(path);
    detail.append(": ");
    detail.append(message);
    PortainerError::ApiError(detail)
}

/// The failure of a request that got no answer, given the transport's
/// message.
pub fn unanswered(message: String) -> (e: PortainerError)
    ensures
        e@ == transport_failure(message@),
{
    PortainerError::NetworkError(message)
}

/// Every status has exactly one meaning: 200 is no failure, 401 and 403 are
/// a refused credential, 404 is a missing resource, and every other status
/// is an answer of no use.
pub proof fn lemma_status_mapping(code: u16, path: Seq<char>)
    ensures
        status_failure(code, path) is None <==> code == 200,
        (status_failure(code, path) matches Some(f) && f.kind == ErrorKind::Auth) <==> (code == 401
            || code == 403),
        (status_failure(code, path) matches Some(f) && f.kind == ErrorKind::NotFound) <==> code
            == 404,
        (status_failure(code, path) matches Some(f) && f.kind == ErrorKind::Api) <==> (code != 200
            && code != 401 && code != 403 && code != 404),
        status_failure(code, path) matches Some(f) ==> f.kind != ErrorKind::Network && f.kind
            != ErrorKind::Config,
{
}

/// The failures that speak of a request name its path: the path stands in
/// the text of a missing resource, of an answer of no use and of a body
/// that cannot be decoded. The text of an answer of no use names the status
/// as well.
pub proof fn lemma_failures_name_the_path(code: u16, path: Seq<char>, message: Seq<char>)
    ensures
        occurs_in(path, decode_failure(path, message).detail),
        class_of(code) == StatusClass::Missing ==> occurs_in(
            path,
            status_failure(code, path)->0.detail,
        ),
        class_of(code) == StatusClass::Unexpected ==> occurs_in(
            path,
            status_failure(code, path)->0.detail,
        ) && occurs_in(status_text(code), status_failure(code, path)->0.detail),
{
    lemma_occurs_between("Failed to parse response from "@, path, ": "@ + message);
    assert("Failed to parse response from "@ + path + (": "@ + message) =~= decode_failure(
        path,
        message,
    ).detail);
    lemma_occurs_between("Resource not found: "@, path, Seq::empty());
    lemma_occurs_between("Unexpected status "@ + status_text(code) + " from "@, path, Seq::empty());
    lemma_occurs_between("Unexpected status "@, status_text(code), " from "@ + path);
    assert("Unexpected status "@ + status_text(code) + (" from "@ + path) =~= "Unexpected status "@
        + status_text(code) + " from "@ + path);
}

} // verus!
