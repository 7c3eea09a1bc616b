//! What a client exchanges with a server, as plain values: the request to
//! send, the settings of the transport, and the status that came back.

use crate::document::{Node, Value};
use vstd::prelude::*;

verus! {

/// Seconds after which a request is given up.
pub const REQUEST_TIMEOUT_SECS: u64 = 10;

/// How a request is made.
#[derive(Debug, Clone, Copy, PartialEq, Eq, Structural)]
pub enum Method {
    Get,
    Post,
}

/// One header of a request.
#[derive(Debug)]
pub struct Header {
    pub name: String,
    pub value: String,
}

/// A request for the transport to send.
#[derive(Debug)]
pub struct Request {
    pub method: Method,
    pub url: String,
    /// The header that carries the credential, if the request has one.
    pub header: Option<Header>,
    /// The body, sent as JSON, if the request has one.
    pub body: Option<Value>,
}

/// What a request stands for.
pub struct RequestView {
    pub method: Method,
    pub url: Seq<char>,
    pub header: Option<(Seq<char>, Seq<char>)>,
    pub body: Option<Node>,
}

impl View for Header {
    type V = (Seq<char>, Seq<char>);

    open spec fn view(&self) -> (Seq<char>, Seq<char>) {
        (self.name@, self.value@)
    }
}

impl View for Request {
    type V = RequestView;

    open spec fn view(&self) -> RequestView {
        RequestView {
            method: self.method,
            url: self.url@,
            header: match self.header {
                Some(h) => Some(h@),
                None => None,
            },
            body: match self.body {
                Some(b) => Some(b@),
                None => None,
            },
        }
    }
}

/// What a client stands for: where it sends its requests, with which
/// credential, and whether it checks the server's certificate.
pub struct ClientModel {
    pub base_url: Seq<char>,
    pub token: Seq<char>,
    pub insecure: bool,
}

/// The settings with which the transport is built.
#[derive(Debug, Clone, Copy, PartialEq, Eq, Structural)]
pub struct Transport {
    /// Seconds after which a request is given up.
    pub timeout_secs: u64,
    /// Whether the server's certificate goes unchecked.
    pub insecure: bool,
}

impl Transport {
    /// The settings of every client: the fixed timeout, and certificate
    /// checks off only where `insecure` asks for it.
    pub fn new(insecure: bool) -> (t: Transport)
        ensures
            t == (Transport { timeout_secs: REQUEST_TIMEOUT_SECS, insecure }),
    {
        Transport { timeout_secs: REQUEST_TIMEOUT_SECS, insecure }
    }
}

/// The text that stands for a status code in a message: its number and its
/// canonical reason phrase, as `reqwest::StatusCode` displays it.
pub uninterp spec fn status_text(code: u16) -> Seq<char>;

/// `reqwest::StatusCode::from_u16` on `code`, then the `Display` of the
/// status code it gives. The conversion accepts the codes from 100 to 999
/// and no others; the text is not spelled out here but named `status_text`.
#[verifier::external_body]
fn display_status(code: u16) -> (r: Option<String>)
    ensures
        r is Some <==> 100 <= code <= 999,
        r matches Some(s) ==> s@ == status_text(code),
{
    match reqwest::StatusCode::from_u16(code) {
        Ok(status) => Some(status.to_string()),
        Err(_) => None,
    }
}

/// What a status means to a client.
#[derive(Debug, Clone, Copy, PartialEq, Eq, Structural)]
pub enum StatusClass {
    /// 200: the body holds the answer.
    Success,
    /// 401 or 403: the credential was not accepted.
    Denied,
    /// 404: there is no such resource.
    Missing,
    /// Any other status.
    Unexpected,
}

/// The meaning of each status code.
pub open spec fn class_of(code: u16) -> StatusClass {
    if code == 200 {
        StatusClass::Success
    } else if code == 401 || code == 403 {
        StatusClass::Denied
    } else if code == 404 {
        StatusClass::Missing
    } else {
        StatusClass::Unexpected
    }
}

/// The status code of a response: a number from 100 to 999.
#[derive(Debug, Clone, Copy)]
pub struct Status {
    code: u16,
}

impl View for Status {
    type V = u16;

    closed spec fn view(&self) -> u16 {
        self.code
    }
}

impl Status {
    #[verifier::type_invariant]
    spec fn in_range(self) -> bool {
        100 <= self.code <= 999
    }

    /// The status with this code, where the code is one.
    pub fn from_u16(code: u16) -> (r: Option<Status>)
        ensures
            r is Some <==> 100 <= code <= 999,
            r matches Some(s) ==> s@ == code,
    {
        if 100 <= code && code <= 999 {
            Some(Status { code })
        } else {
            None
        }
    }

    /// The code.
    pub fn as_u16(&self) -> (r: u16)
        ensures
            r == self@,
            100 <= r <= 999,
    {
        proof {
            use_type_invariant(self);
        }
        self.code
    }

    /// What the status means to a client.
    pub fn class(&self) -> (r: StatusClass)
        ensures
            r == class_of(self@),
    {
        if self.code == 200 {
            StatusClass::Success
        } else if self.code == 401 || self.code == 403 {
            StatusClass::Denied
        } else if self.code == 404 {
            StatusClass::Missing
        } else {
            StatusClass::Unexpected
        }
    }

    /// The status as a message shows it.
    pub fn text(&self) -> (r: String)
        ensures
            r@ == status_text(self@),
    {
        proof {
            use_type_invariant(self);
        }
        match display_status(self.code) {
            Some(s) => s,
            None => String::new(),
        }
    }
}

} // verus!
