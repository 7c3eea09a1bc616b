//! One invocation of the container platform's command line, step by step.
//!
//! A session never touches the network or the terminal. It answers each
//! event with the next thing to do: build the transport, send a request,
//! decode the body, print a record, or stop. The caller does that one thing
//! and reports what came of it. What a session answers is fixed by `next`;
//! an event that does not answer what was asked for ends the session.
//!
//! The settings are read before anything else, so that an invocation without
//! a URL or a key never reaches the network. `stacks show` asks for the list
//! of stacks first and for the stack file only once the stack was found in
//! it.

use crate::config::Setting;
use crate::document::{Node, Value};
use crate::error::{ErrorKind, Failure};
use crate::http::{ClientModel, Request, RequestView, Status, Transport, REQUEST_TIMEOUT_SECS};
use crate::portainer::client::{
    check_status, decode_failure, path_of, request_for, status_failure, transport_failure,
    unanswered, unreadable, PortainerClient, Resource,
};
use crate::portainer::config::{config_of, get_config};
use crate::portainer::error::PortainerError;
use crate::portainer::labels::StatusScheme;
use crate::portainer::models::{
    endpoint_list_entries, endpoint_models, list_items, shown_endpoints, stack_list_entries,
    stack_models, ApiEndpoint, ApiEndpointModel, ApiStack, ApiStackFile, ApiStackModel,
    EndpointList, StackList,
};
use crate::text::{decimal, join, push_decimal, without_trailing_slashes};
use vstd::prelude::*;
use vstd::string::*;

verus! {

/// What the command line asks for.
#[derive(Debug, Clone, Copy, PartialEq, Eq, Structural)]
pub enum Command {
    /// `stacks list`
    ListStacks,
    /// `stacks show <id>`
    ShowStack { id: i64 },
    /// `endpoints list`
    ListEndpoints,
    /// `endpoints show <id>`
    ShowEndpoint { id: i64 },
}

/// Everything that an invocation was given.
#[derive(Debug)]
pub struct Invocation {
    /// `--url` and the URL variable.
    pub url: Setting,
    /// `--token` and the token variable.
    pub token: Setting,
    /// The words in which the status of an endpoint is shown.
    pub endpoint_status: StatusScheme,
    pub command: Command,
}

/// The shape in which a body is to be decoded.
#[derive(Debug, Clone, Copy, PartialEq, Eq, Structural)]
pub enum Shape {
    Stacks,
    StackFile,
    Endpoints,
    Endpoint,
}

/// A decoded body.
#[derive(Debug)]
pub enum Payload {
    Stacks(Vec<ApiStack>),
    StackFile(ApiStackFile),
    Endpoints(Vec<ApiEndpoint>),
    Endpoint(ApiEndpoint),
}

/// What came of the last thing that the session asked for.
#[derive(Debug)]
pub enum Event {
    /// The transport was built, or the record was printed.
    Ready,
    /// It could not be done; the text says why.
    Failed(String),
    /// The request was answered with this status.
    Status(Status),
    /// The body was decoded.
    Body(Payload),
}

/// The next thing to do.
#[derive(Debug)]
pub enum Action {
    /// Build the transport with these settings.
    Connect(Transport),
    /// Send this request.
    Send(Request),
    /// Decode the body of the answer in this shape.
    Decode(Shape),
    /// Print this record to standard output.
    Print(Value),
    /// Report this failure and exit with its code.
    Fail(PortainerError),
    /// Exit with success.
    Finish,
}

/// The answer that a session waits for, and what it is wanted for.
#[derive(Debug)]
pub enum Want {
    /// The stacks, to list them.
    StackList,
    /// The stacks, to find the one with this id among them.
    StackLookup { id: i64 },
    /// The stack file of this stack, to show the stack with it.
    StackFile { stack: ApiStack },
    /// The endpoints, to list them.
    EndpointList,
    /// The endpoint with this id, to show it.
    EndpointDetail { id: i64 },
}

/// Where a session stands.
#[derive(Debug)]
pub enum Stage {
    /// The transport is being built.
    Connecting { client: PortainerClient, command: Command },
    /// A request was sent.
    Sent { client: PortainerClient, want: Want },
    /// The body of an answer is being decoded.
    Decoding { client: PortainerClient, want: Want },
    /// The result is being printed.
    Printing,
    /// Nothing is left to do.
    Done,
}

/// One invocation of the command line.
#[derive(Debug)]
pub struct Session {
    pub stage: Stage,
    /// The words in which the status of an endpoint is shown.
    pub endpoint_status: StatusScheme,
}

/// What a decoded body stands for.
pub enum PayloadModel {
    Stacks(Seq<ApiStackModel>),
    StackFile(Seq<char>),
    Endpoints(Seq<ApiEndpointModel>),
    Endpoint(ApiEndpointModel),
}

/// What an event stands for.
pub enum EventModel {
    Ready,
    Failed(Seq<char>),
    Status(u16),
    Body(PayloadModel),
}

/// What an action stands for.
pub enum ActionModel {
    Connect(Transport),
    Send(RequestView),
    Decode(Shape),
    Print(Node),
    Fail(Failure),
    Finish,
}

/// What an awaited answer stands for.
pub enum WantModel {
    StackList,
    StackLookup { id: i64 },
    StackFile { stack: ApiStackModel },
    EndpointList,
    EndpointDetail { id: i64 },
}

/// What a stage stands for.
pub enum StageModel {
    Connecting { client: ClientModel, command: Command },
    Sent { client: ClientModel, want: WantModel },
    Decoding { client: ClientModel, want: WantModel },
    Printing,
    Done,
}

/// What a session stands for.
pub struct SessionModel {
    pub stage: StageModel,
    pub endpoint_status: StatusScheme,
}

impl View for Payload {
    type V = PayloadModel;

    open spec fn view(&self) -> PayloadModel {
        match self {
            Payload::Stacks(stacks) => PayloadModel::Stacks(stack_models(stacks@)),
            Payload::StackFile(file) => PayloadModel::StackFile(file@),
            Payload::Endpoints(endpoints) => PayloadModel::Endpoints(endpoint_models(endpoints@)),
            Payload::Endpoint(endpoint) => PayloadModel::Endpoint(endpoint@),
        }
    }
}

impl View for Event {
    type V = EventModel;

    open spec fn view(&self) -> EventModel {
        match self {
            Event::Ready => EventModel::Ready,
            Event::Failed(message) => EventModel::Failed(message@),
            Event::Status(status) => EventModel::Status(status@),
            Event::Body(payload) => EventModel::Body(payload@),
        }
    }
}

impl View for Action {
    type V = ActionModel;

    open spec fn view(&self) -> ActionModel {
        match self {
            Action::Connect(transport) => ActionModel::Connect(*transport),
            Action::Send(request) => ActionModel::Send(request@),
            Action::Decode(shape) => ActionModel::Decode(*shape),
            Action::Print(value) => ActionModel::Print(value@),
            Action::Fail(error) => ActionModel::Fail(error@),
            Action::Finish => ActionModel::Finish,
        }
    }
}

impl View for Want {
    type V = WantModel;

    open spec fn view(&self) -> WantModel {
        match self {
            Want::StackList => WantModel::StackList,
            Want::StackLookup { id } => WantModel::StackLookup { id: *id },
            Want::StackFile { stack } => WantModel::StackFile { stack: stack@ },
            Want::EndpointList => WantModel::EndpointList,
            Want::EndpointDetail { id } => WantModel::EndpointDetail { id: *id },
        }
    }
}

impl View for Stage {
    type V = StageModel;

    open spec fn view(&self) -> StageModel {
        match self {
            Stage::Connecting { client, command } => StageModel::Connecting {
                client: client@,
                command: *command,
            },
            Stage::Sent { client, want } => StageModel::Sent { client: client@, want: want@ },
            Stage::Decoding { client, want } => StageModel::Decoding {
                client: client@,
                want: want@,
            },
            Stage::Printing => StageModel::Printing,
            Stage::Done => StageModel::Done,
        }
    }
}

impl View for Session {
    type V = SessionModel;

    open spec fn view(&self) -> SessionModel {
        SessionModel { stage: self.stage@, endpoint_status: self.endpoint_status }
    }
}

/// The answer that a command waits for first.
pub open spec fn first_want(command: Command) -> WantModel {
    match command {
        Command::ListStacks => WantModel::StackList,
        Command::ShowStack { id } => WantModel::StackLookup { id },
        Command::ListEndpoints => WantModel::EndpointList,
        Command::ShowEndpoint { id } => WantModel::EndpointDetail { id },
    }
}

/// The resource that holds an awaited answer.
pub open spec fn resource_of(want: WantModel) -> Resource {
    match want {
        WantModel::StackList => Resource::Stacks,
        WantModel::StackLookup { id } => Resource::Stacks,
        WantModel::StackFile { stack } => Resource::StackFile { id: stack.id },
        WantModel::EndpointList => Resource::Endpoints,
        WantModel::EndpointDetail { id } => Resource::Endpoint { id },
    }
}

/// The shape of an awaited answer.
pub open spec fn shape_of(want: WantModel) -> Shape {
    match want {
        WantModel::StackList => Shape::Stacks,
        WantModel::StackLookup { id } => Shape::Stacks,
        WantModel::StackFile { stack } => Shape::StackFile,
        WantModel::EndpointList => Shape::Endpoints,
        WantModel::EndpointDetail { id } => Shape::Endpoint,
    }
}

/// The place of the first stack with this id at or after `from`, if there
/// is one.
pub open spec fn first_with_id(stacks: Seq<ApiStackModel>, id: i64, from: int) -> Option<int>
    decreases stacks.len() - from,
{
    if from < 0 || from >= stacks.len() {
        None
    } else if stacks[from].id == id {
        Some(from)
    } else {
        first_with_id(stacks, id, from + 1)
    }
}

/// Why a stack that the list does not hold cannot be shown.
pub open spec fn no_such_stack(id: i64) -> Failure {
    Failure { kind: ErrorKind::NotFound, detail: "Stack with ID "@ + decimal(id as int) }
}

/// Why a record that cannot be rendered ends the session, given the
/// renderer's message.
pub open spec fn render_failure(message: Seq<char>) -> Failure {
    Failure { kind: ErrorKind::Api, detail: "Failed to serialize: "@ + message }
}

/// Why an event that does not answer what was asked for ends the session.
pub open spec fn out_of_turn() -> Failure {
    Failure { kind: ErrorKind::Api, detail: "Unexpected event"@ }
}

/// The session ends with a failure.
pub open spec fn stop(scheme: StatusScheme, failure: Failure) -> (SessionModel, ActionModel) {
    (SessionModel { stage: StageModel::Done, endpoint_status: scheme }, ActionModel::Fail(failure))
}

/// The session sends the request for an answer and waits for it.
pub open spec fn send(client: ClientModel, scheme: StatusScheme, want: WantModel) -> (
    SessionModel,
    ActionModel,
) {
    (
        SessionModel { stage: StageModel::Sent { client, want }, endpoint_status: scheme },
        ActionModel::Send(request_for(client, path_of(resource_of(want)))),
    )
}

/// The session prints a record.
pub open spec fn print(scheme: StatusScheme, record: Seq<(Seq<char>, Node)>) -> (
    SessionModel,
    ActionModel,
) {
    (
        SessionModel { stage: StageModel::Printing, endpoint_status: scheme },
        ActionModel::Print(Node::Record(record)),
    )
}

/// What a session does with the answer it waited for.
pub open spec fn answer(
    client: ClientModel,
    scheme: StatusScheme,
    want: WantModel,
    payload: PayloadModel,
) -> (SessionModel, ActionModel) {
    match (want, payload) {
        (WantModel::StackList, PayloadModel::Stacks(stacks)) => print(
            scheme,
            stack_list_entries(list_items(stacks)),
        ),
        (WantModel::StackLookup { id }, PayloadModel::Stacks(stacks)) => match first_with_id(
            stacks,
            id,
            0,
        ) {
            Some(i) => send(client, scheme, WantModel::StackFile { stack: stacks[i] }),
            None => stop(scheme, no_such_stack(id)),
        },
        (WantModel::StackFile { stack }, PayloadModel::StackFile(content)) => print(
            scheme,
            stack.detail(Some(content)).entries(),
        ),
        (WantModel::EndpointList, PayloadModel::Endpoints(endpoints)) => print(
            scheme,
            endpoint_list_entries(shown_endpoints(endpoints, scheme)),
        ),
        (WantModel::EndpointDetail { id }, PayloadModel::Endpoint(endpoint)) => print(
            scheme,
            endpoint.shown(scheme).entries(),
        ),
        _ => stop(scheme, out_of_turn()),
    }
}

/// How a session begins: with the failure of its settings, or by building
/// the transport for the client that its settings describe.
pub open spec fn opening(invocation: Invocation) -> (SessionModel, ActionModel) {
    match config_of(invocation.url, invocation.token) {
        Err(failure) => stop(invocation.endpoint_status, failure),
        Ok((url, token)) => (
            SessionModel {
                stage: StageModel::Connecting {
                    client: ClientModel {
                        base_url: without_trailing_slashes(url),
                        token,
                        insecure: false,
                    },
                    command: invocation.command,
                },
                endpoint_status: invocation.endpoint_status,
            },
            ActionModel::Connect(
                Transport { timeout_secs: REQUEST_TIMEOUT_SECS, insecure: false },
            ),
        ),
    }
}

/// What a session does next, and where it then stands.
pub open spec fn next(session: SessionModel, event: EventModel) -> (SessionModel, ActionModel) {
    let scheme = session.endpoint_status;
    match session.stage {
        StageModel::Connecting { client, command } => match event {
            EventModel::Ready => send(client, scheme, first_want(command)),
            EventModel::Failed(message) => stop(scheme, transport_failure(message)),
            _ => stop(scheme, out_of_turn()),
        },
        StageModel::Sent { client, want } => match event {
            EventModel::Failed(message) => stop(scheme, transport_failure(message)),
            EventModel::Status(code) => match status_failure(code, path_of(resource_of(want))) {
                Some(failure) => stop(scheme, failure),
                None => (
                    SessionModel {
                        stage: StageModel::Decoding { client, want },
                        endpoint_status: scheme,
                    },
                    ActionModel::Decode(shape_of(want)),
                ),
            },
            _ => stop(scheme, out_of_turn()),
        },
        StageModel::Decoding { client, want } => match event {
            EventModel::Failed(message) => stop(
                scheme,
                decode_failure(path_of(resource_of(want)), message),
            ),
            EventModel::Body(payload) => answer(client, scheme, want, payload),
            _ => stop(scheme, out_of_turn()),
        },
        StageModel::Printing => match event {
            EventModel::Ready => (
                SessionModel { stage: StageModel::Done, endpoint_status: scheme },
                ActionModel::Finish,
            ),
            EventModel::Failed(message) => stop(scheme, render_failure(message)),
            _ => stop(scheme, out_of_turn()),
        },
        StageModel::Done => stop(scheme, out_of_turn()),
    }
}

impl Command {
    /// The answer that the command waits for first.
    fn first_want(self) -> (r: Want)
        ensures
            r@ == first_want(self),
    {
        match self {
            Command::ListStacks => Want::StackList,
            Command::ShowStack { id } => Want::StackLookup { id },
            Command::ListEndpoints => Want::EndpointList,
            Command::ShowEndpoint { id } => Want::EndpointDetail { id },
        }
    }
}

impl Want {
    /// The resource that holds the answer.
    pub fn resource(&self) -> (r: Resource)
        ensures
            r == resource_of(self@),
    {
        match self {
            Want::StackList => Resource::Stacks,
            Want::StackLookup { id } => Resource::Stacks,
            Want::StackFile { stack } => Resource::StackFile { id: stack.id },
            Want::EndpointList => Resource::Endpoints,
            Want::EndpointDetail { id } => Resource::Endpoint { id: *id },
        }
    }

    /// The shape of the answer.
    pub fn shape(&self) -> (r: Shape)
        ensures
            r == shape_of(self@),
    {
        match self {
            Want::StackList => Shape::Stacks,
            Want::StackLookup { id } => Shape::Stacks,
            Want::StackFile { stack } => Shape::StackFile,
            Want::EndpointList => Shape::Endpoints,
            Want::EndpointDetail { id } => Shape::Endpoint,
        }
    }
}

/// The place of the first stack with this id, if there is one.
pub fn find_stack(stacks: &Vec<ApiStack>, id: i64) -> (r: Option<usize>)
    ensures
        match r {
            Some(i) => first_with_id(stack_models(stacks@), id, 0) == Some(i as int) && i
                < stacks.len(),
            None => first_with_id(stack_models(stacks@), id, 0) is None,
        },
{
    let mut i: usize = 0;
    while i < stacks.len()
        invariant
            i <= stacks.len(),
            first_with_id(stack_models(stacks@), id, 0) == first_with_id(
                stack_models(stacks@),
                id,
                i as int,
            ),
        decreases stacks.len() - i,
    {
        if stacks[i].id == id {
            return Some(i);
        }
        i = i + 1;
    }
    None
}

/// The first stack with this id is a stack with this id, and no stack
/// before it has this id; there is none exactly when no stack has this id.
pub proof fn lemma_first_with_id(stacks: Seq<ApiStackModel>, id: i64, from: int)
    requires
        0 <= from,
    ensures
        match first_with_id(stacks, id, from) {
            Some(i) => from <= i < stacks.len() && stacks[i].id == id && forall|j: int|
                from <= j < i ==> stacks[j].id != id,
            None => forall|j: int| from <= j < stacks.len() ==> stacks[j].id != id,
        },
    decreases stacks.len() - from,
{
    if from < stacks.len() && stacks[from].id != id {
        lemma_first_with_id(stacks, id, from + 1);
    }
}

/// The failure of a stack that the list does not hold.
fn stack_not_found(id: i64) -> (e: PortainerError)
    ensures
        e@ == no_such_stack(id),
{
    let mut detail = String::from_str("Stack with ID ");
    push_decimal(&mut detail, id);
    PortainerError::NotFound(detail)
}

/// The failure of an event that does not answer what was asked for.
fn unexpected() -> (e: PortainerError)
    ensures
        e@ == out_of_turn(),
{
    PortainerError::ApiError(String::from_str("Unexpected event"))
}

impl Session {
    /// Begins the session of an invocation.
    pub fn start(invocation: Invocation) -> (r: (Session, Action))
        ensures
            (r.0@, r.1@) == opening(invocation),
    {
        let scheme = invocation.endpoint_status;
        let command = invocation.command;
        match get_config(invocation.url, invocation.token) {
            Err(e) => Self::stop(scheme, e),
            Ok((url, token)) => {
                match PortainerClient::new(url.as_str(), token.as_str(), false) {
                    Err(e) => Self::stop(scheme, e),
                    Ok(client) => {
                        let transport = client.transport();
                        (
                            Session {
                                stage: Stage::Connecting { client, command },
                                endpoint_status: scheme,
                            },
                            Action::Connect(transport),
                        )
                    },
                }
            },
        }
    }

    /// Ends a session with a failure.
    fn stop(scheme: StatusScheme, e: PortainerError) -> (r: (Session, Action))
        ensures
            (r.0@, r.1@) == stop(scheme, e@),
    {
        (Session { stage: Stage::Done, endpoint_status: scheme }, Action::Fail(e))
    }

    /// Sends the request for an answer.
    fn send(client: PortainerClient, scheme: StatusScheme, want: Want) -> (r: (Session, Action))
        ensures
            (r.0@, r.1@) == send(client@, scheme, want@),
    {
        let request = client.fetch(want.resource());
        (Session { stage: Stage::Sent { client, want }, endpoint_status: scheme }, Action::Send(request))
    }

    /// Prints a record.
    fn print(scheme: StatusScheme, record: Value) -> (r: (Session, Action))
        ensures
            r.0@ == (SessionModel { stage: StageModel::Printing, endpoint_status: scheme }),
            r.1@ == ActionModel::Print(record@),
    {
        (Session { stage: Stage::Printing, endpoint_status: scheme }, Action::Print(record))
    }

    /// Takes the answer that the session waited for.
    fn answer(client: PortainerClient, scheme: StatusScheme, want: Want, payload: Payload) -> (r: (
        Session,
        Action,
    ))
        ensures
            (r.0@, r.1@) == answer(client@, scheme, want@, payload@),
    {
        match want {
            Want::StackList => match payload {
                Payload::Stacks(stacks) => Self::print(scheme, StackList::from_api(&stacks).document()),
                _ => Self::stop(scheme, unexpected()),
            },
            Want::StackLookup { id } => match payload {
                Payload::Stacks(stacks) => {
                    let mut stacks = stacks;
                    match find_stack(&stacks, id) {
                        Some(i) => {
                            let ghost before = stacks@;
                            let stack = stacks.remove(i);
                            assert(stack@ == stack_models(before)[i as int]);
                            Self::send(client, scheme, Want::StackFile { stack })
                        },
                        None => Self::stop(scheme, stack_not_found(id)),
                    }
                },
                _ => Self::stop(scheme, unexpected()),
            },
            Want::StackFile { stack } => match payload {
                Payload::StackFile(file) => Self::print(
                    scheme,
                    stack.to_stack(Some(file.stack_file_content)).document(),
                ),
                _ => Self::stop(scheme, unexpected()),
            },
            Want::EndpointList => match payload {
                Payload::Endpoints(endpoints) => Self::print(
                    scheme,
                    EndpointList::from_api(&endpoints, scheme).document(),
                ),
                _ => Self::stop(scheme, unexpected()),
            },
            Want::EndpointDetail { id } => match payload {
                Payload::Endpoint(endpoint) => Self::print(
                    scheme,
                    endpoint.to_endpoint_as(scheme).document(),
                ),
                _ => Self::stop(scheme, unexpected()),
            },
        }
    }

    /// Takes what came of the last action and says what to do next.
    pub fn step(self, event: Event) -> (r: (Session, Action))
        ensures
            (r.0@, r.1@) == next(self@, event@),
    {
        let scheme = self.endpoint_status;
        match self.stage {
            Stage::Connecting { client, command } => match event {
                Event::Ready => Self::send(client, scheme, command.first_want()),
                Event::Failed(message) => Self::stop(scheme, unanswered(message)),
                _ => Self::stop(scheme, unexpected()),
            },
            Stage::Sent { client, want } => match event {
                Event::Failed(message) => Self::stop(scheme, unanswered(message)),
                Event::Status(status) => {
                    let path = want.resource().path();
                    match check_status(status, path.as_str()) {
                        Err(e) => Self::stop(scheme, e),
                        Ok(()) => {
                            let shape = want.shape();
                            (
                                Session {
                                    stage: Stage::Decoding { client, want },
                                    endpoint_status: scheme,
                                },
                                Action::Decode(shape),
                            )
                        },
                    }
                },
                _ => Self::stop(scheme, unexpected()),
            },
            Stage::Decoding { client, want } => match event {
                Event::Failed(message) => {
                    let path = want.resource().path();
                    Self::stop(scheme, unreadable(path.as_str(), message.as_str()))
                },
                Event::Body(payload) => Self::answer(client, scheme, want, payload),
                _ => Self::stop(scheme, unexpected()),
            },
            Stage::Printing => match event {
                Event::Ready => (
                    Session { stage: Stage::Done, endpoint_status: scheme },
                    Action::Finish,
                ),
                Event::Failed(message) => Self::stop(
                    scheme,
                    PortainerError::ApiError(join("Failed to serialize: ", message.as_str())),
                ),
                _ => Self::stop(scheme, unexpected()),
            },
            Stage::Done => Self::stop(scheme, unexpected()),
        }
    }
}

/// A stack that the list does not hold is not found: the session ends with
/// that failure, whose exit code is 3, and the stack file is never asked
/// for.
pub proof fn lemma_absent_stack_is_not_found(
    client: ClientModel,
    scheme: StatusScheme,
    id: i64,
    stacks: Seq<ApiStackModel>,
)
    requires
        forall|i: int| 0 <= i < stacks.len() ==> stacks[i].id != id,
    ensures
        next(
            SessionModel {
                stage: StageModel::Decoding { client, want: WantModel::StackLookup { id } },
                endpoint_status: scheme,
            },
            EventModel::Body(PayloadModel::Stacks(stacks)),
        ) == stop(scheme, no_such_stack(id)),
        no_such_stack(id).kind == ErrorKind::NotFound,
        crate::error::exit_code_of(no_such_stack(id).kind) == 3,
{
    lemma_first_with_id(stacks, id, 0);
}

/// A stack that the list holds is shown: the session asks for the stack
/// file of the first stack with that id, and for nothing else.
pub proof fn lemma_present_stack_is_fetched(
    client: ClientModel,
    scheme: StatusScheme,
    id: i64,
    stacks: Seq<ApiStackModel>,
    i: int,
)
    requires
        0 <= i < stacks.len(),
        stacks[i].id == id,
        forall|j: int| 0 <= j < i ==> stacks[j].id != id,
    ensures
        next(
            SessionModel {
                stage: StageModel::Decoding { client, want: WantModel::StackLookup { id } },
                endpoint_status: scheme,
            },
            EventModel::Body(PayloadModel::Stacks(stacks)),
        ) == send(client, scheme, WantModel::StackFile { stack: stacks[i] }),
        send(client, scheme, WantModel::StackFile { stack: stacks[i] }).1 == ActionModel::Send(
            request_for(client, path_of(Resource::StackFile { id })),
        ),
{
    lemma_first_with_id(stacks, id, 0);
}

/// An invocation that lacks its URL or its key ends before a transport is
/// built or a request is sent.
pub proof fn lemma_incomplete_settings_reach_nothing(invocation: Invocation)
    requires
        invocation.url.chosen() is None || invocation.token.chosen() is None,
    ensures
        opening(invocation).0.stage is Done,
        opening(invocation).1 matches ActionModel::Fail(failure) && failure.kind
            == ErrorKind::Config,
{
}

/// A failure ends the session, and a session that has ended answers every
/// event with a failure: after the first failure nothing is sent, decoded
/// or printed.
pub proof fn lemma_failure_is_final(session: SessionModel, event: EventModel)
    ensures
        next(session, event).1 is Fail ==> next(session, event).0.stage is Done,
        session.stage is Done ==> next(session, event).1 is Fail,
        session.stage is Printing ==> next(session, event).1 is Finish || next(
            session,
            event,
        ).1 is Fail,
{
    match (session.stage, event) {
        (
            StageModel::Decoding { client, want: WantModel::StackLookup { id } },
            EventModel::Body(PayloadModel::Stacks(stacks)),
        ) => {
            lemma_first_with_id(stacks, id, 0);
        },
        _ => {},
    }
}

/// Whatever the status of an answer, the session does with it what the
/// status means: it decodes the body after 200 and ends with the failure of
/// every other status.
pub proof fn lemma_status_decides(
    client: ClientModel,
    scheme: StatusScheme,
    want: WantModel,
    code: u16,
)
    ensures
        code == 200 ==> next(
            SessionModel { stage: StageModel::Sent { client, want }, endpoint_status: scheme },
            EventModel::Status(code),
        ).1 == ActionModel::Decode(shape_of(want)),
        code != 200 ==> next(
            SessionModel { stage: StageModel::Sent { client, want }, endpoint_status: scheme },
            EventModel::Status(code),
        ) == stop(scheme, status_failure(code, path_of(resource_of(want)))->0),
{
}

} // verus!
