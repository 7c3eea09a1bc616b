//! The shape of what is printed: an ordered tree of keys and values.
//!
//! Every answer of the clients is a [`Value`]: a record whose fields keep the
//! order in which they were put. What a value stands for is a [`Node`], and
//! the rules on which fields an answer shows are stated over nodes.

use vstd::prelude::*;

verus! {

/// What a printed value stands for.
pub enum Node {
    Int(int),
    Bool(bool),
    Text(Seq<char>),
    List(Seq<Node>),
    Record(Seq<(Seq<char>, Node)>),
}

/// A value to print.
#[derive(Debug)]
pub enum Value {
    Int(i64),
    Bool(bool),
    Text(String),
    List(Vec<Value>),
    Record(Vec<Field>),
}

/// One key of a record with its value.
#[derive(Debug)]
pub struct Field {
    pub key: String,
    pub value: Value,
}

/// What a value stands for.
pub open spec fn node_of(v: Value) -> Node
    decreases v,
{
    match v {
        Value::Int(n) => Node::Int(n as int),
        Value::Bool(b) => Node::Bool(b),
        Value::Text(s) => Node::Text(s@),
        Value::List(items) => Node::List(nodes_of(items@)),
        Value::Record(fields) => Node::Record(entries_of(fields@)),
    }
}

/// What the items of a list stand for, one by one.
pub open spec fn nodes_of(items: Seq<Value>) -> Seq<Node>
    decreases items,
{
    Seq::new(
        items.len(),
        |i: int|
            if 0 <= i < items.len() {
                node_of(items[i])
            } else {
                Node::Bool(false)
            },
    )
}

/// What the fields of a record stand for, one by one.
pub open spec fn entries_of(fields: Seq<Field>) -> Seq<(Seq<char>, Node)>
    decreases fields,
{
    Seq::new(
        fields.len(),
        |i: int|
            if 0 <= i < fields.len() {
                (fields[i].key@, node_of(fields[i].value))
            } else {
                (Seq::empty(), Node::Bool(false))
            },
    )
}

impl View for Value {
    type V = Node;

    open spec fn view(&self) -> Node {
        node_of(*self)
    }
}

impl View for Field {
    type V = (Seq<char>, Node);

    open spec fn view(&self) -> (Seq<char>, Node) {
        (self.key@, node_of(self.value))
    }
}

/// The texts of a list of strings, as nodes.
pub open spec fn text_nodes(items: Seq<Seq<char>>) -> Seq<Node> {
    Seq::new(items.len(), |i: int| Node::Text(items[i]))
}

/// The views of a list of strings.
pub open spec fn texts(items: Seq<String>) -> Seq<Seq<char>> {
    Seq::new(items.len(), |i: int| items[i]@)
}

/// A record shows `key`.
pub open spec fn has_key(entries: Seq<(Seq<char>, Node)>, key: Seq<char>) -> bool {
    exists|i: int| 0 <= i < entries.len() && (#[trigger] entries[i]).0 == key
}

/// Every field of `part`, key and value, is a field of `whole`.
pub open spec fn within(part: Seq<(Seq<char>, Node)>, whole: Seq<(Seq<char>, Node)>) -> bool {
    forall|i: int| 0 <= i < part.len() ==> whole.contains(#[trigger] part[i])
}

/// No key occurs twice.
pub open spec fn keys_distinct(entries: Seq<(Seq<char>, Node)>) -> bool {
    forall|i: int, j: int|
        0 <= i < j < entries.len() ==> (#[trigger] entries[i]).0 != (#[trigger] entries[j]).0
}

/// A list with one more item stands for one more node.
pub proof fn lemma_nodes_push(items: Seq<Value>, v: Value)
    ensures
        nodes_of(items.push(v)) == nodes_of(items).push(node_of(v)),
{
    assert(nodes_of(items.push(v)) =~= nodes_of(items).push(node_of(v)));
}

/// A record with one more field stands for one more entry.
pub proof fn lemma_entries_push(fields: Seq<Field>, f: Field)
    ensures
        entries_of(fields.push(f)) == entries_of(fields).push(f@),
{
    assert(entries_of(fields.push(f)) =~= entries_of(fields).push(f@));
}

/// The empty list and the empty record stand for nothing.
pub proof fn lemma_nothing()
    ensures
        nodes_of(Seq::empty()) == Seq::<Node>::empty(),
        entries_of(Seq::empty()) == Seq::<(Seq<char>, Node)>::empty(),
{
    assert(nodes_of(Seq::empty()) =~= Seq::<Node>::empty());
    assert(entries_of(Seq::empty()) =~= Seq::<(Seq<char>, Node)>::empty());
}

impl Value {
    /// A text value with the characters of `s`.
    pub fn text(s: &str) -> (v: Value)
        ensures
            v@ == Node::Text(s@),
    {
        Value::Text(s.to_owned())
    }

    /// The list of the given strings, in their order.
    pub fn text_list(items: &Vec<String>) -> (v: Value)
        ensures
            v@ == Node::List(text_nodes(texts(items@))),
    {
        let mut out: Vec<Value> = Vec::new();
        let mut i: usize = 0;
        proof {
            lemma_nothing();
        }
        while i < items.len()
            invariant
                i <= items.len(),
                nodes_of(out@) == text_nodes(texts(items@)).subrange(0, i as int),
            decreases items.len() - i,
        {
            let item = Value::Text(items[i].clone());
            proof {
                lemma_nodes_push(out@, item);
                assert(nodes_of(out@.push(item)) =~= text_nodes(texts(items@)).subrange(
                    0,
                    i + 1,
                ));
            }
            out.push(item);
            i = i + 1;
        }
        assert(nodes_of(out@) =~= text_nodes(texts(items@)));
        Value::List(out)
    }
}

/// Puts one more field at the end of a record under construction.
pub fn put(fields: &mut Vec<Field>, key: &str, value: Value)
    ensures
        entries_of(final(fields)@) == entries_of(old(fields)@).push((key@, value@)),
{
    let field = Field { key: key.to_owned(), value };
    proof {
        lemma_entries_push(fields@, field);
    }
    fields.push(field);
}

} // verus!
