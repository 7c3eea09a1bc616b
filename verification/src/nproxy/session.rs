//! One invocation of the reverse-proxy manager's command line, step by step.
//!
//! A session never touches the network or the terminal. It answers each
//! event with the next thing to do: ask for a line of input, build the
//! transport, send a request, decode the body, print, or stop. The caller
//! does that one thing and reports what came of it. What a session answers
//! is fixed by `next`; an event that does not answer what was asked for ends
//! the session.
//!
//! The settings are read and the URL is checked before anything else, so
//! that an invocation without a usable URL or without a token never reaches
//! the network. A login asks for the e-mail address and the password, sends
//! them, and prints the token that comes back.

use crate::config::Setting;
use crate::document::{Node, Value};
use crate::error::{ErrorKind, Failure};
use crate::http::{ClientModel, Request, RequestView, Status, Transport, REQUEST_TIMEOUT_SECS};
use crate::nproxy::client::{
    check_login_status, check_status, decode_failure, has_scheme, login,
    login_decode_failure, login_request, login_status_failure, path_of, request_for,
    scheme_failure, status_failure, transport_failure, unanswered, unreadable,
    unreadable_login, NproxyClient, Resource,
};
use crate::nproxy::config::{config_of, get_config, get_url, url_of};
use crate::nproxy::error::NproxyError;
use crate::nproxy::models::{
    certificate_list_entries, certificate_list_items, certificate_models, host_list_entries,
    host_list_items, host_models, ApiCertificate, ApiCertificateModel, ApiLoginResponse,
    ApiProxyHost, ApiProxyHostModel, CertificateList, ProxyHostList,
};
use crate::text::{join, trim, trimmed, without_trailing_slashes};
use vstd::prelude::*;
use vstd::string::*;

verus! {

/// What the command line asks for.
#[derive(Debug, Clone, Copy, PartialEq, Eq, Structural)]
pub enum Command {
    /// `login`
    Login,
    /// `hosts list`
    ListHosts,
    /// `hosts show <id>`
    ShowHost { id: i64 },
    /// `certificates list`
    ListCertificates,
    /// `certificates show <id>`
    ShowCertificate { id: i64 },
}

/// Everything that an invocation was given.
#[derive(Debug)]
pub struct Invocation {
    /// `--url` and the URL variable.
    pub url: Setting,
    /// `--token` and the token variable.
    pub token: Setting,
    /// `--insecure`
    pub insecure: bool,
    pub command: Command,
}

/// What a login asks the user.
#[derive(Debug, Clone, Copy, PartialEq, Eq, Structural)]
pub enum Question {
    /// The e-mail address, read as a line of which the white space around
    /// it is dropped.
    Email,
    /// The password, read without being shown.
    Password,
}

/// The shape in which a body is to be decoded.
#[derive(Debug, Clone, Copy, PartialEq, Eq, Structural)]
pub enum Shape {
    Login,
    ProxyHosts,
    ProxyHost,
    Certificates,
    Certificate,
}

/// A decoded body.
#[derive(Debug)]
pub enum Payload {
    Login(ApiLoginResponse),
    ProxyHosts(Vec<ApiProxyHost>),
    ProxyHost(ApiProxyHost),
    Certificates(Vec<ApiCertificate>),
    Certificate(ApiCertificate),
}

/// What came of the last thing that the session asked for.
#[derive(Debug)]
pub enum Event {
    /// The transport was built, or the result was printed.
    Ready,
    /// It could not be done; the text says why.
    Failed(String),
    /// The user entered this.
    Entered(String),
    /// The request was answered with this status.
    Status(Status),
    /// The body was decoded.
    Body(Payload),
}

/// The next thing to do.
#[derive(Debug)]
pub enum Action {
    /// Show the prompt of this question and read the answer.
    Ask(Question),
    /// Build the transport with these settings.
    Connect(Transport),
    /// Send this request.
    Send(Request),
    /// Decode the body of the answer in this shape.
    Decode(Shape),
    /// Print this record to standard output.
    Print(Value),
    /// Print this line to standard output.
    PrintLine(String),
    /// Report this failure and exit with its code.
    Fail(NproxyError),
    /// Exit with success.
    Finish,
}

/// Where a session stands.
#[derive(Debug)]
pub enum Stage {
    /// The e-mail address was asked for.
    AskingEmail { url: String, insecure: bool },
    /// The password was asked for.
    AskingPassword { url: String, email: String, insecure: bool },
    /// The transport of a login is being built.
    LoginConnecting { request: Request },
    /// The login was sent.
    LoginSent,
    /// The answer to the login is being decoded.
    LoginDecoding,
    /// The transport of a client is being built.
    Connecting { client: NproxyClient, command: Command },
    /// The request for a resource was sent.
    Sent { resource: Resource },
    /// The body of an answer is being decoded.
    Decoding { resource: Resource },
    /// The result is being printed.
    Printing,
    /// Nothing is left to do.
    Done,
}

/// One invocation of the command line.
#[derive(Debug)]
pub struct Session {
    pub stage: Stage,
}

/// What a decoded body stands for.
pub enum PayloadModel {
    Login(Seq<char>),
    ProxyHosts(Seq<ApiProxyHostModel>),
    ProxyHost(ApiProxyHostModel),
    Certificates(Seq<ApiCertificateModel>),
    Certificate(ApiCertificateModel),
}

/// What an event stands for.
pub enum EventModel {
    Ready,
    Failed(Seq<char>),
    Entered(Seq<char>),
    Status(u16),
    Body(PayloadModel),
}

/// What an action stands for.
pub enum ActionModel {
    Ask(Question),
    Connect(Transport),
    Send(RequestView),
    Decode(Shape),
    Print(Node),
    PrintLine(Seq<char>),
    Fail(Failure),
    Finish,
}

/// What a stage stands for.
pub enum StageModel {
    AskingEmail { url: Seq<char>, insecure: bool },
    AskingPassword { url: Seq<char>, email: Seq<char>, insecure: bool },
    LoginConnecting { request: RequestView },
    LoginSent,
    LoginDecoding,
    Connecting { client: ClientModel, command: Command },
    Sent { resource: Resource },
    Decoding { resource: Resource },
    Printing,
    Done,
}

impl View for Payload {
    type V = PayloadModel;

    open spec fn view(&self) -> PayloadModel {
        match self {
            Payload::Login(answer) => PayloadModel::Login(answer@),
            Payload::ProxyHosts(hosts) => PayloadModel::ProxyHosts(host_models(hosts@)),
            Payload::ProxyHost(host) => PayloadModel::ProxyHost(host@),
            Payload::Certificates(certificates) => PayloadModel::Certificates(
                certificate_models(certificates@),
            ),
            Payload::Certificate(certificate) => PayloadModel::Certificate(certificate@),
        }
    }
}

impl View for Event {
    type V = EventModel;

    open spec fn view(&self) -> EventModel {
        match self {
            Event::Ready => EventModel::Ready,
            Event::Failed(message) => EventModel::Failed(message@),
            Event::Entered(text) => EventModel::Entered(text@),
            Event::Status(status) => EventModel::Status(status@),
            Event::Body(payload) => EventModel::Body(payload@),
        }
    }
}

impl View for Action {
    type V = ActionModel;

    open spec fn view(&self) -> ActionModel {
        match self {
            Action::Ask(question) => ActionModel::Ask(*question),
            Action::Connect(transport) => ActionModel::Connect(*transport),
            Action::Send(request) => ActionModel::Send(request@),
            Action::Decode(shape) => ActionModel::Decode(*shape),
            Action::Print(value) => ActionModel::Print(value@),
            Action::PrintLine(line) => ActionModel::PrintLine(line@),
            Action::Fail(error) => ActionModel::Fail(error@),
            Action::Finish => ActionModel::Finish,
        }
    }
}

impl View for Stage {
    type V = StageModel;

    open spec fn view(&self) -> StageModel {
        match self {
            Stage::AskingEmail { url, insecure } => StageModel::AskingEmail {
                url: url@,
                insecure: *insecure,
            },
            Stage::AskingPassword { url, email, insecure } => StageModel::AskingPassword {
                url: url@,
                email: email@,
                insecure: *insecure,
            },
            Stage::LoginConnecting { request } => StageModel::LoginConnecting {
                request: request@,
            },
            Stage::LoginSent => StageModel::LoginSent,
            Stage::LoginDecoding => StageModel::LoginDecoding,
            Stage::Connecting { client, command } => StageModel::Connecting {
                client: client@,
                command: *command,
            },
            Stage::Sent { resource } => StageModel::Sent { resource: *resource },
            Stage::Decoding { resource } => StageModel::Decoding { resource: *resource },
            Stage::Printing => StageModel::Printing,
            Stage::Done => StageModel::Done,
        }
    }
}

impl View for Session {
    type V = StageModel;

    open spec fn view(&self) -> StageModel {
        self.stage@
    }
}

/// The prompt of each question.
pub open spec fn prompt_of(question: Question) -> Seq<char> {
    match question {
        Question::Email => "Email: "@,
        Question::Password => "Password: "@,
    }
}

/// The shape of the answer that holds a resource.
pub open spec fn shape_of(resource: Resource) -> Shape {
    match resource {
        Resource::ProxyHosts => Shape::ProxyHosts,
        Resource::ProxyHost { id } => Shape::ProxyHost,
        Resource::Certificates => Shape::Certificates,
        Resource::Certificate { id } => Shape::Certificate,
    }
}

/// Why an answer that could not be read ends a login.
pub open spec fn input_failure(question: Question) -> Failure {
    match question {
        Question::Email => Failure { kind: ErrorKind::Config, detail: "Failed to read input"@ },
        Question::Password => Failure {
            kind: ErrorKind::Config,
            detail: "Failed to read password"@,
        },
    }
}

/// Why a resource with an id that is not positive is not asked for.
pub open spec fn id_failure() -> Failure {
    Failure { kind: ErrorKind::Config, detail: "ID must be positive"@ }
}

/// Why a record that cannot be rendered ends the session, given the
/// renderer's message.
pub open spec fn render_failure(message: Seq<char>) -> Failure {
    Failure { kind: ErrorKind::Api, detail: "Failed to serialize: "@ + message }
}

/// Why an event that does not answer what was asked for ends the session.
pub open spec fn out_of_turn() -> Failure {
    Failure { kind: ErrorKind::Api, detail: "Unexpected event"@ }
}

/// The session ends with a failure.
pub open spec fn stop(failure: Failure) -> (StageModel, ActionModel) {
    (StageModel::Done, ActionModel::Fail(failure))
}

/// The session sends the request for a resource and waits for the answer.
pub open spec fn send(client: ClientModel, resource: Resource) -> (StageModel, ActionModel) {
    (StageModel::Sent { resource }, ActionModel::Send(request_for(client, path_of(resource))))
}

/// The session prints a record.
pub open spec fn print(record: Seq<(Seq<char>, Node)>) -> (StageModel, ActionModel) {
    (StageModel::Printing, ActionModel::Print(Node::Record(record)))
}

/// What a session whose transport stands does first: it asks for the
/// resource of its command, unless the command names an id that is not
/// positive.
pub open spec fn first_request(client: ClientModel, command: Command) -> (
    StageModel,
    ActionModel,
) {
    match command {
        Command::Login => stop(out_of_turn()),
        Command::ListHosts => send(client, Resource::ProxyHosts),
        Command::ShowHost { id } => if id <= 0 {
            stop(id_failure())
        } else {
            send(client, Resource::ProxyHost { id })
        },
        Command::ListCertificates => send(client, Resource::Certificates),
        Command::ShowCertificate { id } => if id <= 0 {
            stop(id_failure())
        } else {
            send(client, Resource::Certificate { id })
        },
    }
}

/// What a session does with the answer it waited for.
pub open spec fn answer(resource: Resource, payload: PayloadModel) -> (StageModel, ActionModel) {
    match (resource, payload) {
        (Resource::ProxyHosts, PayloadModel::ProxyHosts(hosts)) => print(
            host_list_entries(host_list_items(hosts)),
        ),
        (Resource::ProxyHost { id }, PayloadModel::ProxyHost(host)) => print(
            host.detail().entries(),
        ),
        (Resource::Certificates, PayloadModel::Certificates(certificates)) => print(
            certificate_list_entries(certificate_list_items(certificates)),
        ),
        (Resource::Certificate { id }, PayloadModel::Certificate(certificate)) => print(
            certificate.detail().entries(),
        ),
        _ => stop(out_of_turn()),
    }
}

/// What a login does once the password was entered: it is turned away for
/// its URL, or it builds its transport.
pub open spec fn login_attempt(
    url: Seq<char>,
    email: Seq<char>,
    password: Seq<char>,
    insecure: bool,
) -> (StageModel, ActionModel) {
    if has_scheme(without_trailing_slashes(url)) {
        (
            StageModel::LoginConnecting {
                request: login_request(without_trailing_slashes(url), email, password),
            },
            ActionModel::Connect(Transport { timeout_secs: REQUEST_TIMEOUT_SECS, insecure }),
        )
    } else {
        stop(scheme_failure())
    }
}

/// How a session begins. A login needs a URL and asks for the e-mail
/// address. Every other command needs a URL that names its scheme and a
/// token, and builds the transport.
pub open spec fn opening(invocation: Invocation) -> (StageModel, ActionModel) {
    match invocation.command {
        Command::Login => match url_of(invocation.url) {
            Err(failure) => stop(failure),
            Ok(url) => (
                StageModel::AskingEmail { url, insecure: invocation.insecure },
                ActionModel::Ask(Question::Email),
            ),
        },
        _ => match config_of(invocation.url, invocation.token) {
            Err(failure) => stop(failure),
            Ok((url, token)) => if has_scheme(without_trailing_slashes(url)) {
                (
                    StageModel::Connecting {
                        client: ClientModel {
                            base_url: without_trailing_slashes(url),
                            token,
                            insecure: invocation.insecure,
                        },
                        command: invocation.command,
                    },
                    ActionModel::Connect(
                        Transport {
                            timeout_secs: REQUEST_TIMEOUT_SECS,
                            insecure: invocation.insecure,
                        },
                    ),
                )
            } else {
                stop(scheme_failure())
            },
        },
    }
}

/// What a session does next, and where it then stands.
pub open spec fn next(stage: StageModel, event: EventModel) -> (StageModel, ActionModel) {
    match stage {
        StageModel::AskingEmail { url, insecure } => match event {
            EventModel::Entered(line) => (
                StageModel::AskingPassword { url, email: trimmed(line), insecure },
                ActionModel::Ask(Question::Password),
            ),
            EventModel::Failed(message) => stop(input_failure(Question::Email)),
            _ => stop(out_of_turn()),
        },
        StageModel::AskingPassword { url, email, insecure } => match event {
            EventModel::Entered(password) => login_attempt(url, email, password, insecure),
            EventModel::Failed(message) => stop(input_failure(Question::Password)),
            _ => stop(out_of_turn()),
        },
        StageModel::LoginConnecting { request } => match event {
            EventModel::Ready => (StageModel::LoginSent, ActionModel::Send(request)),
            EventModel::Failed(message) => stop(transport_failure(message)),
            _ => stop(out_of_turn()),
        },
        StageModel::LoginSent => match event {
            EventModel::Failed(message) => stop(transport_failure(message)),
            EventModel::Status(code) => match login_status_failure(code) {
                Some(failure) => stop(failure),
                None => (StageModel::LoginDecoding, ActionModel::Decode(Shape::Login)),
            },
            _ => stop(out_of_turn()),
        },
        StageModel::LoginDecoding => match event {
            EventModel::Failed(message) => stop(login_decode_failure(message)),
            EventModel::Body(PayloadModel::Login(token)) => (
                StageModel::Printing,
                ActionModel::PrintLine(token),
            ),
            _ => stop(out_of_turn()),
        },
        StageModel::Connecting { client, command } => match event {
            EventModel::Ready => first_request(client, command),
            EventModel::Failed(message) => stop(transport_failure(message)),
            _ => stop(out_of_turn()),
        },
        StageModel::Sent { resource } => match event {
            EventModel::Failed(message) => stop(transport_failure(message)),
            EventModel::Status(code) => match status_failure(code, path_of(resource)) {
                Some(failure) => stop(failure),
                None => (StageModel::Decoding { resource }, ActionModel::Decode(shape_of(resource))),
            },
            _ => stop(out_of_turn()),
        },
        StageModel::Decoding { resource } => match event {
            EventModel::Failed(message) => stop(decode_failure(path_of(resource), message)),
            EventModel::Body(payload) => answer(resource, payload),
            _ => stop(out_of_turn()),
        },
        StageModel::Printing => match event {
            EventModel::Ready => (StageModel::Done, ActionModel::Finish),
            EventModel::Failed(message) => stop(render_failure(message)),
            _ => stop(out_of_turn()),
        },
        StageModel::Done => stop(out_of_turn()),
    }
}

impl Question {
    /// The prompt of the question.
    pub fn prompt(self) -> (r: &'static str)
        ensures
            r@ == prompt_of(self),
    {
        match self {
            Question::Email => "Email: ",
            Question::Password => "Password: ",
        }
    }

    /// Whether the answer is read without being shown.
    pub fn is_secret(self) -> (r: bool)
        ensures
            r == (self == Question::Password),
    {
        match self {
            Question::Email => false,
            Question::Password => true,
        }
    }
}

impl Resource {
    /// The shape of the answer that holds the resource.
    pub fn shape(self) -> (r: Shape)
        ensures
            r == shape_of(self),
    {
        match self {
            Resource::ProxyHosts => Shape::ProxyHosts,
            Resource::ProxyHost { id } => Shape::ProxyHost,
            Resource::Certificates => Shape::Certificates,
            Resource::Certificate { id } => Shape::Certificate,
        }
    }
}

/// The failure of an event that does not answer what was asked for.
fn unexpected() -> (e: NproxyError)
    ensures
        e@ == out_of_turn(),
{
    NproxyError::ApiError(String::from_str("Unexpected event"))
}

/// The failure of an answer that could not be read.
fn unread(question: Question) -> (e: NproxyError)
    ensures
        e@ == input_failure(question),
{
    match question {
        Question::Email => NproxyError::ConfigError(String::from_str("Failed to read input")),
        Question::Password => NproxyError::ConfigError(
            String::from_str("Failed to read password"),
        ),
    }
}

impl Session {
    /// Begins the session of an invocation.
    pub fn start(invocation: Invocation) -> (r: (Session, Action))
        ensures
            (r.0@, r.1@) == opening(invocation),
    {
        let insecure = invocation.insecure;
        let command = invocation.command;
        match command {
            Command::Login => match get_url(invocation.url) {
                Err(e) => Self::stop(e),
                Ok(url) => (
                    Session { stage: Stage::AskingEmail { url, insecure } },
                    Action::Ask(Question::Email),
                ),
            },
            _ => match get_config(invocation.url, invocation.token) {
                Err(e) => Self::stop(e),
                Ok((url, token)) => match NproxyClient::new(url.as_str(), token.as_str(), insecure) {
                    Err(e) => Self::stop(e),
                    Ok(client) => {
                        let transport = client.transport();
                        (
                            Session { stage: Stage::Connecting { client, command } },
                            Action::Connect(transport),
                        )
                    },
                },
            },
        }
    }

    /// Ends a session with a failure.
    fn stop(e: NproxyError) -> (r: (Session, Action))
        ensures
            (r.0@, r.1@) == stop(e@),
    {
        (Session { stage: Stage::Done }, Action::Fail(e))
    }

    /// Sends the request for a resource.
    fn send(client: &NproxyClient, resource: Resource) -> (r: (Session, Action))
        ensures
            (r.0@, r.1@) == send(client@, resource),
    {
        (Session { stage: Stage::Sent { resource } }, Action::Send(client.fetch(resource)))
    }

    /// Prints a record.
    fn print(record: Value) -> (r: (Session, Action))
        ensures
            r.0@ == StageModel::Printing,
            r.1@ == ActionModel::Print(record@),
    {
        (Session { stage: Stage::Printing }, Action::Print(record))
    }

    /// Asks for the resource of a command.
    fn first_request(client: &NproxyClient, command: Command) -> (r: (Session, Action))
        ensures
            (r.0@, r.1@) == first_request(client@, command),
    {
        match command {
            Command::Login => Self::stop(unexpected()),
            Command::ListHosts => Self::send(client, Resource::ProxyHosts),
            Command::ShowHost { id } => {
                if id <= 0 {
                    Self::stop(NproxyError::ConfigError(String::from_str("ID must be positive")))
                } else {
                    Self::send(client, Resource::ProxyHost { id })
                }
            },
            Command::ListCertificates => Self::send(client, Resource::Certificates),
            Command::ShowCertificate { id } => {
                if id <= 0 {
                    Self::stop(NproxyError::ConfigError(String::from_str("ID must be positive")))
                } else {
                    Self::send(client, Resource::Certificate { id })
                }
            },
        }
    }

    /// Takes the answer that the session waited for.
    fn answer(resource: Resource, payload: Payload) -> (r: (Session, Action))
        ensures
            (r.0@, r.1@) == answer(resource, payload@),
    {
        match resource {
            Resource::ProxyHosts => match payload {
                Payload::ProxyHosts(hosts) => Self::print(
                    ProxyHostList::from_api(&hosts).document(),
                ),
                _ => Self::stop(unexpected()),
            },
            Resource::ProxyHost { id } => match payload {
                Payload::ProxyHost(host) => Self::print(host.to_proxy_host().document()),
                _ => Self::stop(unexpected()),
            },
            Resource::Certificates => match payload {
                Payload::Certificates(certificates) => Self::print(
                    CertificateList::from_api(&certificates).document(),
                ),
                _ => Self::stop(unexpected()),
            },
            Resource::Certificate { id } => match payload {
                Payload::Certificate(certificate) => Self::print(
                    certificate.to_certificate().document(),
                ),
                _ => Self::stop(unexpected()),
            },
        }
    }

    /// Takes what came of the last action and says what to do next.
    pub fn step(self, event: Event) -> (r: (Session, Action))
        ensures
            (r.0@, r.1@) == next(self@, event@),
    {
        match self.stage {
            Stage::AskingEmail { url, insecure } => match event {
                Event::Entered(line) => {
                    let email = String::from_str(trim(line.as_str()));
                    (
                        Session { stage: Stage::AskingPassword { url, email, insecure } },
                        Action::Ask(Question::Password),
                    )
                },
                Event::Failed(message) => Self::stop(unread(Question::Email)),
                _ => Self::stop(unexpected()),
            },
            Stage::AskingPassword { url, email, insecure } => match event {
                Event::Entered(password) => {
                    match login(url.as_str(), email.as_str(), password.as_str(), insecure) {
                        Err(e) => Self::stop(e),
                        Ok(attempt) => (
                            Session { stage: Stage::LoginConnecting { request: attempt.request } },
                            Action::Connect(attempt.transport),
                        ),
                    }
                },
                Event::Failed(message) => Self::stop(unread(Question::Password)),
                _ => Self::stop(unexpected()),
            },
            Stage::LoginConnecting { request } => match event {
                Event::Ready => (Session { stage: Stage::LoginSent }, Action::Send(request)),
                Event::Failed(message) => Self::stop(unanswered(message)),
                _ => Self::stop(unexpected()),
            },
            Stage::LoginSent => match event {
                Event::Failed(message) => Self::stop(unanswered(message)),
                Event::Status(status) => match check_login_status(status) {
                    Err(e) => Self::stop(e),
                    Ok(()) => (Session { stage: Stage::LoginDecoding }, Action::Decode(Shape::Login)),
                },
                _ => Self::stop(unexpected()),
            },
            Stage::LoginDecoding => match event {
                Event::Failed(message) => Self::stop(unreadable_login(message.as_str())),
                Event::Body(Payload::Login(answer)) => (
                    Session { stage: Stage::Printing },
                    Action::PrintLine(answer.token),
                ),
                _ => Self::stop(unexpected()),
            },
            Stage::Connecting { client, command } => match event {
                Event::Ready => Self::first_request(&client, command),
                Event::Failed(message) => Self::stop(unanswered(message)),
                _ => Self::stop(unexpected()),
            },
            Stage::Sent { resource } => match event {
                Event::Failed(message) => Self::stop(unanswered(message)),
                Event::Status(status) => {
                    let path = resource.path();
                    match check_status(status, path.as_str()) {
                        Err(e) => Self::stop(e),
                        Ok(()) => (
                            Session { stage: Stage::Decoding { resource } },
                            Action::Decode(resource.shape()),
                        ),
                    }
                },
                _ => Self::stop(unexpected()),
            },
            Stage::Decoding { resource } => match event {
                Event::Failed(message) => {
                    let path = resource.path();
                    Self::stop(unreadable(path.as_str(), message.as_str()))
                },
                Event::Body(payload) => Self::answer(resource, payload),
                _ => Self::stop(unexpected()),
            },
            Stage::Printing => match event {
                Event::Ready => (Session { stage: Stage::Done }, Action::Finish),
                Event::Failed(message) => Self::stop(
                    NproxyError::ApiError(join("Failed to serialize: ", message.as_str())),
                ),
                _ => Self::stop(unexpected()),
            },
            Stage::Done => Self::stop(unexpected()),
        }
    }
}

/// A URL that does not name its scheme is turned away before a transport
/// is built or a request is sent, whatever the command.
pub proof fn lemma_url_without_scheme_reaches_nothing(invocation: Invocation)
    requires
        invocation.command != Command::Login,
        invocation.url.chosen() matches Some(url) && !has_scheme(without_trailing_slashes(url)),
        invocation.token.chosen() is Some,
    ensures
        opening(invocation) == stop(scheme_failure()),
        scheme_failure().kind == ErrorKind::Config,
{
}

/// A login at a URL that does not name its scheme is turned away once the
/// password was entered, before a transport is built or a request is sent.
pub proof fn lemma_login_without_scheme_reaches_nothing(
    url: Seq<char>,
    email: Seq<char>,
    password: Seq<char>,
    insecure: bool,
)
    requires
        !has_scheme(without_trailing_slashes(url)),
    ensures
        next(
            StageModel::AskingPassword { url, email, insecure },
            EventModel::Entered(password),
        ) == stop(scheme_failure()),
{
}

/// An invocation that lacks its URL, or its token where the command needs
/// one, ends before anything is asked, built or sent.
pub proof fn lemma_incomplete_settings_reach_nothing(invocation: Invocation)
    requires
        invocation.url.chosen() is None || (invocation.command != Command::Login
            && invocation.token.chosen() is None),
    ensures
        opening(invocation).0 is Done,
        opening(invocation).1 matches ActionModel::Fail(failure) && failure.kind
            == ErrorKind::Config,
{
}

/// A resource with an id that is not positive is never asked for.
pub proof fn lemma_id_must_be_positive(client: ClientModel, command: Command)
    requires
        match command {
            Command::ShowHost { id } => id <= 0,
            Command::ShowCertificate { id } => id <= 0,
            _ => false,
        },
    ensures
        next(StageModel::Connecting { client, command }, EventModel::Ready) == stop(id_failure()),
{
}

/// A failure ends the session, and a session that has ended answers every
/// event with a failure: after the first failure nothing is asked, sent,
/// decoded or printed.
pub proof fn lemma_failure_is_final(stage: StageModel, event: EventModel)
    ensures
        next(stage, event).1 is Fail ==> next(stage, event).0 is Done,
        stage is Done ==> next(stage, event).1 is Fail,
        stage is Printing ==> next(stage, event).1 is Finish || next(stage, event).1 is Fail,
{
}

/// Whatever the status of an answer, the session does with it what the
/// status means: it decodes the body after 200 and ends with the failure of
/// every other status.
pub proof fn lemma_status_decides(resource: Resource, code: u16)
    ensures
        code == 200 ==> next(StageModel::Sent { resource }, EventModel::Status(code)) == (
            StageModel::Decoding { resource },
            ActionModel::Decode(shape_of(resource)),
        ),
        code != 200 ==> next(StageModel::Sent { resource }, EventModel::Status(code)) == stop(
            status_failure(code, path_of(resource))->0,
        ),
{
}

} // verus!
