//! The records of the container platform: as the server sends them, and as
//! they are shown.
//!
//! A raw record carries integer codes; the shown record carries their labels.
//! A list shows an item of each stack, the detail view shows the whole stack.
//! Which fields a shown record has is stated by its `entries`: the
//! environment of a stack is left out when it is empty, its stack file when
//! there is none.

use crate::document::{
    entries_of, has_key, keys_distinct, lemma_nodes_push, lemma_nothing, nodes_of, put, within,
    Field, Node, Value,
};
use crate::portainer::labels::{
    endpoint_type_label, format_endpoint_type, format_stack_type, format_status,
    format_status_as, stack_type_label, status_label, StatusScheme,
};
use vstd::prelude::*;

verus! {

/// A stack as the server sends it.
#[derive(Debug)]
pub struct ApiStack {
    pub id: i64,
    pub name: String,
    pub stack_type: i32,
    pub status: i32,
    pub endpoint_id: i64,
    pub env: Vec<ApiEnvVar>,
}

/// One variable of a stack's environment.
#[derive(Debug)]
pub struct ApiEnvVar {
    pub name: String,
    pub value: String,
}

/// The stack file of a stack, as the server sends it.
#[derive(Debug)]
pub struct ApiStackFile {
    pub stack_file_content: String,
}

/// An endpoint as the server sends it.
#[derive(Debug)]
pub struct ApiEndpoint {
    pub id: i64,
    pub name: String,
    pub endpoint_type: i32,
    pub status: i32,
    pub url: String,
}

/// A stack as its detail view shows it.
#[derive(Debug)]
pub struct Stack {
    pub id: i64,
    pub name: String,
    pub stack_type: String,
    pub status: String,
    pub endpoint_id: i64,
    pub env: Vec<ApiEnvVar>,
    pub stack_file: Option<String>,
}

/// The list of stacks as it is shown.
#[derive(Debug)]
pub struct StackList {
    pub stacks: Vec<StackListItem>,
}

/// A stack as a list shows it.
#[derive(Debug)]
pub struct StackListItem {
    pub id: i64,
    pub name: String,
    pub stack_type: String,
    pub status: String,
    pub endpoint_id: i64,
}

/// An endpoint as it is shown, in a list and alone.
#[derive(Debug)]
pub struct Endpoint {
    pub id: i64,
    pub name: String,
    pub endpoint_type: String,
    pub status: String,
    pub url: String,
}

/// The list of endpoints as it is shown.
#[derive(Debug)]
pub struct EndpointList {
    pub endpoints: Vec<Endpoint>,
}

/// What an environment variable stands for.
pub struct EnvVarModel {
    pub name: Seq<char>,
    pub value: Seq<char>,
}

/// What a raw stack stands for.
pub struct ApiStackModel {
    pub id: i64,
    pub name: Seq<char>,
    pub stack_type: i32,
    pub status: i32,
    pub endpoint_id: i64,
    pub env: Seq<EnvVarModel>,
}

/// What a raw endpoint stands for.
pub struct ApiEndpointModel {
    pub id: i64,
    pub name: Seq<char>,
    pub endpoint_type: i32,
    pub status: i32,
    pub url: Seq<char>,
}

/// What a shown stack stands for.
pub struct StackModel {
    pub id: i64,
    pub name: Seq<char>,
    pub stack_type: Seq<char>,
    pub status: Seq<char>,
    pub endpoint_id: i64,
    pub env: Seq<EnvVarModel>,
    pub stack_file: Option<Seq<char>>,
}

/// What an item of the list of stacks stands for.
pub struct StackListItemModel {
    pub id: i64,
    pub name: Seq<char>,
    pub stack_type: Seq<char>,
    pub status: Seq<char>,
    pub endpoint_id: i64,
}

/// What a shown endpoint stands for.
pub struct EndpointModel {
    pub id: i64,
    pub name: Seq<char>,
    pub endpoint_type: Seq<char>,
    pub status: Seq<char>,
    pub url: Seq<char>,
}

/// What the variables of an environment stand for, in their order.
pub open spec fn env_models(env: Seq<ApiEnvVar>) -> Seq<EnvVarModel> {
    Seq::new(env.len(), |i: int| env[i]@)
}

/// What the stacks of a response stand for, in their order.
pub open spec fn stack_models(stacks: Seq<ApiStack>) -> Seq<ApiStackModel> {
    Seq::new(stacks.len(), |i: int| stacks[i]@)
}

/// What the endpoints of a response stand for, in their order.
pub open spec fn endpoint_models(endpoints: Seq<ApiEndpoint>) -> Seq<ApiEndpointModel> {
    Seq::new(endpoints.len(), |i: int| endpoints[i]@)
}

impl View for ApiEnvVar {
    type V = EnvVarModel;

    open spec fn view(&self) -> EnvVarModel {
        EnvVarModel { name: self.name@, value: self.value@ }
    }
}

impl View for ApiStack {
    type V = ApiStackModel;

    open spec fn view(&self) -> ApiStackModel {
        ApiStackModel {
            id: self.id,
            name: self.name@,
            stack_type: self.stack_type,
            status: self.status,
            endpoint_id: self.endpoint_id,
            env: env_models(self.env@),
        }
    }
}

impl View for ApiStackFile {
    type V = Seq<char>;

    open spec fn view(&self) -> Seq<char> {
        self.stack_file_content@
    }
}

impl View for ApiEndpoint {
    type V = ApiEndpointModel;

    open spec fn view(&self) -> ApiEndpointModel {
        ApiEndpointModel {
            id: self.id,
            name: self.name@,
            endpoint_type: self.endpoint_type,
            status: self.status,
            url: self.url@,
        }
    }
}

impl View for Stack {
    type V = StackModel;

    open spec fn view(&self) -> StackModel {
        StackModel {
            id: self.id,
            name: self.name@,
            stack_type: self.stack_type@,
            status: self.status@,
            endpoint_id: self.endpoint_id,
            env: env_models(self.env@),
            stack_file: match self.stack_file {
                Some(f) => Some(f@),
                None => None,
            },
        }
    }
}

impl View for StackListItem {
    type V = StackListItemModel;

    open spec fn view(&self) -> StackListItemModel {
        StackListItemModel {
            id: self.id,
            name: self.name@,
            stack_type: self.stack_type@,
            status: self.status@,
            endpoint_id: self.endpoint_id,
        }
    }
}

impl View for StackList {
    type V = Seq<StackListItemModel>;

    open spec fn view(&self) -> Seq<StackListItemModel> {
        Seq::new(self.stacks@.len(), |i: int| self.stacks@[i]@)
    }
}

impl View for Endpoint {
    type V = EndpointModel;

    open spec fn view(&self) -> EndpointModel {
        EndpointModel {
            id: self.id,
            name: self.name@,
            endpoint_type: self.endpoint_type@,
            status: self.status@,
            url: self.url@,
        }
    }
}

impl View for EndpointList {
    type V = Seq<EndpointModel>;

    open spec fn view(&self) -> Seq<EndpointModel> {
        Seq::new(self.endpoints@.len(), |i: int| self.endpoints@[i]@)
    }
}

impl ApiStackModel {
    /// The stack as a list shows it: the codes of type and status replaced
    /// by their labels, the rest as it came.
    pub open spec fn list_item(self) -> StackListItemModel {
        StackListItemModel {
            id: self.id,
            name: self.name,
            stack_type: stack_type_label(self.stack_type),
            status: status_label(StatusScheme::ActiveInactive, self.status),
            endpoint_id: self.endpoint_id,
        }
    }

    /// The stack as its detail view shows it, with the stack file that was
    /// fetched for it.
    pub open spec fn detail(self, stack_file: Option<Seq<char>>) -> StackModel {
        StackModel {
            id: self.id,
            name: self.name,
            stack_type: stack_type_label(self.stack_type),
            status: status_label(StatusScheme::ActiveInactive, self.status),
            endpoint_id: self.endpoint_id,
            env: self.env,
            stack_file,
        }
    }
}

impl ApiEndpointModel {
    /// The endpoint as it is shown, its status put into words by `scheme`.
    pub open spec fn shown(self, scheme: StatusScheme) -> EndpointModel {
        EndpointModel {
            id: self.id,
            name: self.name,
            endpoint_type: endpoint_type_label(self.endpoint_type),
            status: status_label(scheme, self.status),
            url: self.url,
        }
    }
}

impl EnvVarModel {
    /// The fields of a variable: its name, then its value.
    pub open spec fn entries(self) -> Seq<(Seq<char>, Node)> {
        seq![("name"@, Node::Text(self.name)), ("value"@, Node::Text(self.value))]
    }
}

/// An environment as a list of records.
pub open spec fn env_nodes(env: Seq<EnvVarModel>) -> Seq<Node> {
    Seq::new(env.len(), |i: int| Node::Record(env[i].entries()))
}

impl StackListItemModel {
    /// The fields of a list item, in the order in which they are written.
    pub open spec fn entries(self) -> Seq<(Seq<char>, Node)> {
        seq![
            ("id"@, Node::Int(self.id as int)),
            ("name"@, Node::Text(self.name)),
            ("type"@, Node::Text(self.stack_type)),
            ("status"@, Node::Text(self.status)),
            ("endpointId"@, Node::Int(self.endpoint_id as int)),
        ]
    }
}

impl StackModel {
    /// The part of the stack that a list shows too.
    pub open spec fn summary(self) -> StackListItemModel {
        StackListItemModel {
            id: self.id,
            name: self.name,
            stack_type: self.stack_type,
            status: self.status,
            endpoint_id: self.endpoint_id,
        }
    }

    /// The field `env`, where the environment is not empty.
    pub open spec fn env_entries(self) -> Seq<(Seq<char>, Node)> {
        if self.env.len() > 0 {
            seq![("env"@, Node::List(env_nodes(self.env)))]
        } else {
            seq![]
        }
    }

    /// The field `stackFile`, where there is a stack file.
    pub open spec fn stack_file_entries(self) -> Seq<(Seq<char>, Node)> {
        match self.stack_file {
            Some(content) => seq![("stackFile"@, Node::Text(content))],
            None => seq![],
        }
    }

    /// The fields of the detail view, in the order in which they are
    /// written: those of the list item, then the environment and the stack
    /// file, each only where it has something to show.
    pub open spec fn entries(self) -> Seq<(Seq<char>, Node)> {
        self.summary().entries() + self.env_entries() + self.stack_file_entries()
    }
}

impl EndpointModel {
    /// The fields of an endpoint, in the order in which they are written.
    pub open spec fn entries(self) -> Seq<(Seq<char>, Node)> {
        seq![
            ("id"@, Node::Int(self.id as int)),
            ("name"@, Node::Text(self.name)),
            ("type"@, Node::Text(self.endpoint_type)),
            ("status"@, Node::Text(self.status)),
            ("url"@, Node::Text(self.url)),
        ]
    }
}

/// The items of a list of stacks as records.
pub open spec fn stack_item_nodes(items: Seq<StackListItemModel>) -> Seq<Node> {
    Seq::new(items.len(), |i: int| Node::Record(items[i].entries()))
}

/// The endpoints of a list as records.
pub open spec fn endpoint_nodes(items: Seq<EndpointModel>) -> Seq<Node> {
    Seq::new(items.len(), |i: int| Node::Record(items[i].entries()))
}

/// The fields of the list of stacks: `stacks` alone.
pub open spec fn stack_list_entries(items: Seq<StackListItemModel>) -> Seq<(Seq<char>, Node)> {
    seq![("stacks"@, Node::List(stack_item_nodes(items)))]
}

/// The fields of the list of endpoints: `endpoints` alone.
pub open spec fn endpoint_list_entries(items: Seq<EndpointModel>) -> Seq<(Seq<char>, Node)> {
    seq![("endpoints"@, Node::List(endpoint_nodes(items)))]
}

/// The list items of the stacks of a response, in their order.
pub open spec fn list_items(stacks: Seq<ApiStackModel>) -> Seq<StackListItemModel> {
    Seq::new(stacks.len(), |i: int| stacks[i].list_item())
}

/// The endpoints of a response as they are shown, in their order.
pub open spec fn shown_endpoints(endpoints: Seq<ApiEndpointModel>, scheme: StatusScheme) -> Seq<
    EndpointModel,
> {
    Seq::new(endpoints.len(), |i: int| endpoints[i].shown(scheme))
}

impl Clone for ApiEnvVar {
    fn clone(&self) -> (r: Self)
        ensures
            r == *self,
    {
        ApiEnvVar { name: self.name.clone(), value: self.value.clone() }
    }
}

/// A copy of an environment.
fn copy_env(env: &Vec<ApiEnvVar>) -> (r: Vec<ApiEnvVar>)
    ensures
        env_models(r@) == env_models(env@),
{
    let mut out: Vec<ApiEnvVar> = Vec::new();
    let mut i: usize = 0;
    while i < env.len()
        invariant
            i <= env.len(),
            out@.len() == i,
            forall|j: int| 0 <= j < i ==> out@[j]@ == env@[j]@,
        decreases env.len() - i,
    {
        out.push(env[i].clone());
        i = i + 1;
    }
    assert(env_models(out@) =~= env_models(env@));
    out
}

impl ApiEnvVar {
    /// The variable as a record to print.
    pub fn document(&self) -> (v: Value)
        ensures
            v@ == Node::Record(self@.entries()),
    {
        let mut fields: Vec<Field> = Vec::new();
        proof {
            lemma_nothing();
        }
        put(&mut fields, "name", Value::text(self.name.as_str()));
        put(&mut fields, "value", Value::text(self.value.as_str()));
        assert(entries_of(fields@) =~= self@.entries());
        Value::Record(fields)
    }
}

/// An environment as a list to print.
fn env_document(env: &Vec<ApiEnvVar>) -> (v: Value)
    ensures
        v@ == Node::List(env_nodes(env_models(env@))),
{
    let mut out: Vec<Value> = Vec::new();
    let mut i: usize = 0;
    proof {
        lemma_nothing();
    }
    while i < env.len()
        invariant
            i <= env.len(),
            nodes_of(out@) == env_nodes(env_models(env@)).subrange(0, i as int),
        decreases env.len() - i,
    {
        let item = env[i].document();
        proof {
            lemma_nodes_push(out@, item);
            assert(nodes_of(out@.push(item)) =~= env_nodes(env_models(env@)).subrange(0, i + 1));
        }
        out.push(item);
        i = i + 1;
    }
    assert(nodes_of(out@) =~= env_nodes(env_models(env@)));
    Value::List(out)
}

impl ApiStack {
    /// The label of the stack's type: `swarm` for 1, `compose` for 2,
    /// `kubernetes` for 3, and `unknown(` code `)` for any other code.
    pub fn stack_type_label(&self) -> (r: String)
        ensures
            r@ == stack_type_label(self.stack_type),
    {
        format_stack_type(self.stack_type)
    }

    /// The label of the stack's status: `active` for 1, `inactive` for 2,
    /// and `unknown(` code `)` for any other code.
    pub fn status_label(&self) -> (r: String)
        ensures
            r@ == status_label(StatusScheme::ActiveInactive, self.status),
    {
        format_status(self.status)
    }

    /// The stack as a list shows it.
    pub fn to_list_item(&self) -> (r: StackListItem)
        ensures
            r@ == self@.list_item(),
    {
        StackListItem {
            id: self.id,
            name: self.name.clone(),
            stack_type: self.stack_type_label(),
            status: self.status_label(),
            endpoint_id: self.endpoint_id,
        }
    }

    /// The stack as its detail view shows it, with the stack file that was
    /// fetched for it.
    pub fn to_stack(&self, stack_file: Option<String>) -> (r: Stack)
        ensures
            r@ == self@.detail(
                match stack_file {
                    Some(f) => Some(f@),
                    None => None,
                },
            ),
    {
        Stack {
            id: self.id,
            name: self.name.clone(),
            stack_type: self.stack_type_label(),
            status: self.status_label(),
            endpoint_id: self.endpoint_id,
            env: copy_env(&self.env),
            stack_file,
        }
    }
}

impl ApiEndpoint {
    /// The label of the endpoint's type: `docker` for 1, `agent` for 2,
    /// `azure` for 3, `edge-agent` for 4, `kubernetes` for 5, and `unknown(`
    /// code `)` for any other code.
    pub fn endpoint_type_label(&self) -> (r: String)
        ensures
            r@ == endpoint_type_label(self.endpoint_type),
    {
        format_endpoint_type(self.endpoint_type)
    }

    /// The label of the endpoint's status as the command line shows it:
    /// `active` for 1, `inactive` for 2, and `unknown(` code `)` for any
    /// other code.
    pub fn status_label(&self) -> (r: String)
        ensures
            r@ == status_label(StatusScheme::ActiveInactive, self.status),
    {
        format_status(self.status)
    }

    /// The label of the endpoint's status under `scheme`.
    pub fn status_label_as(&self, scheme: StatusScheme) -> (r: String)
        ensures
            r@ == status_label(scheme, self.status),
    {
        format_status_as(scheme, self.status)
    }

    /// The endpoint as the command line shows it.
    pub fn to_endpoint(&self) -> (r: Endpoint)
        ensures
            r@ == self@.shown(StatusScheme::ActiveInactive),
    {
        self.to_endpoint_as(StatusScheme::ActiveInactive)
    }

    /// The endpoint as it is shown, its status put into words by `scheme`.
    pub fn to_endpoint_as(&self, scheme: StatusScheme) -> (r: Endpoint)
        ensures
            r@ == self@.shown(scheme),
    {
        Endpoint {
            id: self.id,
            name: self.name.clone(),
            endpoint_type: self.endpoint_type_label(),
            status: self.status_label_as(scheme),
            url: self.url.clone(),
        }
    }
}

impl StackListItem {
    /// The item as a record to print.
    pub fn document(&self) -> (v: Value)
        ensures
            v@ == Node::Record(self@.entries()),
    {
        let mut fields: Vec<Field> = Vec::new();
        proof {
            lemma_nothing();
        }
        put(&mut fields, "id", Value::Int(self.id));
        put(&mut fields, "name", Value::text(self.name.as_str()));
        put(&mut fields, "type", Value::text(self.stack_type.as_str()));
        put(&mut fields, "status", Value::text(self.status.as_str()));
        put(&mut fields, "endpointId", Value::Int(self.endpoint_id));
        assert(entries_of(fields@) =~= self@.entries());
        Value::Record(fields)
    }
}

impl Stack {
    /// The stack as a record to print. The environment is written only
    /// where it is not empty, the stack file only where there is one.
    pub fn document(&self) -> (v: Value)
        ensures
            v@ == Node::Record(self@.entries()),
    {
        let mut fields: Vec<Field> = Vec::new();
        proof {
            lemma_nothing();
        }
        put(&mut fields, "id", Value::Int(self.id));
        put(&mut fields, "name", Value::text(self.name.as_str()));
        put(&mut fields, "type", Value::text(self.stack_type.as_str()));
        put(&mut fields, "status", Value::text(self.status.as_str()));
        put(&mut fields, "endpointId", Value::Int(self.endpoint_id));
        assert(entries_of(fields@) =~= self@.summary().entries());
        if self.env.len() > 0 {
            put(&mut fields, "env", env_document(&self.env));
        }
        assert(entries_of(fields@) =~= self@.summary().entries() + self@.env_entries());
        match &self.stack_file {
            Some(content) => {
                put(&mut fields, "stackFile", Value::text(content.as_str()));
            },
            None => {},
        }
        assert(entries_of(fields@) =~= self@.entries());
        Value::Record(fields)
    }
}

impl Endpoint {
    /// The endpoint as a record to print.
    pub fn document(&self) -> (v: Value)
        ensures
            v@ == Node::Record(self@.entries()),
    {
        let mut fields: Vec<Field> = Vec::new();
        proof {
            lemma_nothing();
        }
        put(&mut fields, "id", Value::Int(self.id));
        put(&mut fields, "name", Value::text(self.name.as_str()));
        put(&mut fields, "type", Value::text(self.endpoint_type.as_str()));
        put(&mut fields, "status", Value::text(self.status.as_str()));
        put(&mut fields, "url", Value::text(self.url.as_str()));
        assert(entries_of(fields@) =~= self@.entries());
        Value::Record(fields)
    }
}

impl StackList {
    /// The list that shows an item of each stack of a response, in the
    /// order of the response.
    pub fn from_api(stacks: &Vec<ApiStack>) -> (r: StackList)
        ensures
            r@ == list_items(stack_models(stacks@)),
    {
        let mut items: Vec<StackListItem> = Vec::new();
        let mut i: usize = 0;
        while i < stacks.len()
            invariant
                i <= stacks.len(),
                items@.len() == i,
                forall|j: int| 0 <= j < i ==> items@[j]@ == stacks@[j]@.list_item(),
            decreases stacks.len() - i,
        {
            items.push(stacks[i].to_list_item());
            i = i + 1;
        }
        let r = StackList { stacks: items };
        assert(r@ =~= list_items(stack_models(stacks@)));
        r
    }

    /// The list as a record to print.
    pub fn document(&self) -> (v: Value)
        ensures
            v@ == Node::Record(stack_list_entries(self@)),
    {
        let mut out: Vec<Value> = Vec::new();
        let mut i: usize = 0;
        proof {
            lemma_nothing();
        }
        while i < self.stacks.len()
            invariant
                i <= self.stacks.len(),
                nodes_of(out@) == stack_item_nodes(self@).subrange(0, i as int),
            decreases self.stacks.len() - i,
        {
            let item = self.stacks[i].document();
            proof {
                lemma_nodes_push(out@, item);
                assert(nodes_of(out@.push(item)) =~= stack_item_nodes(self@).subrange(0, i + 1));
            }
            out.push(item);
            i = i + 1;
        }
        assert(nodes_of(out@) =~= stack_item_nodes(self@));
        let mut fields: Vec<Field> = Vec::new();
        put(&mut fields, "stacks", Value::List(out));
        assert(entries_of(fields@) =~= stack_list_entries(self@));
        Value::Record(fields)
    }
}

impl EndpointList {
    /// The list that shows each endpoint of a response, in the order of the
    /// response, its status put into words by `scheme`.
    pub fn from_api(endpoints: &Vec<ApiEndpoint>, scheme: StatusScheme) -> (r: EndpointList)
        ensures
            r@ == shown_endpoints(endpoint_models(endpoints@), scheme),
    {
        let mut items: Vec<Endpoint> = Vec::new();
        let mut i: usize = 0;
        while i < endpoints.len()
            invariant
                i <= endpoints.len(),
                items@.len() == i,
                forall|j: int| 0 <= j < i ==> items@[j]@ == endpoints@[j]@.shown(scheme),
            decreases endpoints.len() - i,
        {
            items.push(endpoints[i].to_endpoint_as(scheme));
            i = i + 1;
        }
        let r = EndpointList { endpoints: items };
        assert(r@ =~= shown_endpoints(endpoint_models(endpoints@), scheme));
        r
    }

    /// The list as a record to print.
    pub fn document(&self) -> (v: Value)
        ensures
            v@ == Node::Record(endpoint_list_entries(self@)),
    {
        let mut out: Vec<Value> = Vec::new();
        let mut i: usize = 0;
        proof {
            lemma_nothing();
        }
        while i < self.endpoints.len()
            invariant
                i <= self.endpoints.len(),
                nodes_of(out@) == endpoint_nodes(self@).subrange(0, i as int),
            decreases self.endpoints.len() - i,
        {
            let item = self.endpoints[i].document();
            proof {
                lemma_nodes_push(out@, item);
                assert(nodes_of(out@.push(item)) =~= endpoint_nodes(self@).subrange(0, i + 1));
            }
            out.push(item);
            i = i + 1;
        }
        assert(nodes_of(out@) =~= endpoint_nodes(self@));
        let mut fields: Vec<Field> = Vec::new();
        put(&mut fields, "endpoints", Value::List(out));
        assert(entries_of(fields@) =~= endpoint_list_entries(self@));
        Value::Record(fields)
    }
}

/// What the literal keys of the stack records hold.
proof fn lemma_stack_keys()
    ensures
        "id"@.len() == 2,
        "name"@.len() == 4 && "name"@[0] == 'n',
        "type"@.len() == 4 && "type"@[0] == 't',
        "status"@.len() == 6,
        "endpointId"@.len() == 10,
        "env"@.len() == 3 && "env"@[0] == 'e',
        "stackFile"@.len() == 9,
        "url"@.len() == 3 && "url"@[0] == 'u',
        "value"@.len() == 5,
{
    reveal_strlit("url");
    reveal_strlit("value");
    reveal_strlit("id");
    reveal_strlit("name");
    reveal_strlit("type");
    reveal_strlit("status");
    reveal_strlit("endpointId");
    reveal_strlit("env");
    reveal_strlit("stackFile");
}

/// Every field that a list shows of a stack, the detail view of the same
/// stack shows too, under the same key and with the same value.
pub proof fn lemma_stack_list_item_within_detail(
    stack: ApiStackModel,
    stack_file: Option<Seq<char>>,
)
    ensures
        stack.detail(stack_file).summary() == stack.list_item(),
        within(stack.list_item().entries(), stack.detail(stack_file).entries()),
{
    let part = stack.list_item().entries();
    let whole = stack.detail(stack_file).entries();
    assert forall|i: int| 0 <= i < part.len() implies whole.contains(#[trigger] part[i]) by {
        assert(whole[i] == part[i]);
    }
}

/// The detail view of a stack that has an environment or a stack file shows
/// a field that the list does not show.
pub proof fn lemma_stack_detail_shows_more(stack: ApiStackModel, stack_file: Option<Seq<char>>)
    requires
        stack.env.len() > 0 || stack_file is Some,
    ensures
        exists|key: Seq<char>|
            has_key(stack.detail(stack_file).entries(), key) && !has_key(
                stack.list_item().entries(),
                key,
            ),
{
    lemma_stack_keys();
    let part = stack.list_item().entries();
    let whole = stack.detail(stack_file).entries();
    let key = whole[5].0;
    assert(key == "env"@ || key == "stackFile"@);
    assert(has_key(whole, key));
    assert(!has_key(part, key));
}

/// A list item of a stack shows neither an environment nor a stack file.
pub proof fn lemma_stack_list_item_fields(item: StackListItemModel)
    ensures
        !has_key(item.entries(), "env"@),
        !has_key(item.entries(), "stackFile"@),
{
    lemma_stack_keys();
}

/// The detail view of a stack shows the field `env` exactly when the
/// environment is not empty, and the field `stackFile` exactly when there is
/// a stack file.
pub proof fn lemma_stack_optional_fields(stack: StackModel)
    ensures
        has_key(stack.entries(), "env"@) <==> stack.env.len() > 0,
        has_key(stack.entries(), "stackFile"@) <==> stack.stack_file is Some,
{
    lemma_stack_keys();
    let entries = stack.entries();
    if stack.env.len() > 0 {
        assert(entries[5].0 == "env"@);
    }
    if stack.stack_file is Some {
        let last = entries.len() - 1;
        assert(entries[last].0 == "stackFile"@);
    }
}

/// A list of endpoints shows of each endpoint the very record that the
/// detail view of that endpoint shows.
pub proof fn lemma_endpoint_list_shows_details(
    endpoints: Seq<ApiEndpointModel>,
    scheme: StatusScheme,
    i: int,
)
    requires
        0 <= i < endpoints.len(),
    ensures
        endpoint_nodes(shown_endpoints(endpoints, scheme))[i] == Node::Record(
            endpoints[i].shown(scheme).entries(),
        ),
{
}

/// No record of a stack, of an environment variable or of an endpoint shows
/// a key twice.
pub proof fn lemma_keys_distinct(stack: StackModel, variable: EnvVarModel, endpoint: EndpointModel)
    ensures
        keys_distinct(stack.summary().entries()),
        keys_distinct(stack.entries()),
        keys_distinct(variable.entries()),
        keys_distinct(endpoint.entries()),
{
    lemma_stack_keys();
}

} // verus!
