//! The envelope in which a failure is reported.

use crate::document::{entries_of, keys_distinct, lemma_nothing, put, Field, Node, Value};
use crate::error::{code_of, message_of, Failure};
use crate::text::join;
use vstd::prelude::*;

verus! {

/// The two fields of a reported failure.
#[derive(Debug)]
pub struct ErrorDetail {
    pub code: String,
    pub message: String,
}

/// What is written when an invocation fails: the failure under the key
/// `error`.
#[derive(Debug)]
pub struct ErrorOutput {
    pub error: ErrorDetail,
}

/// What an error report stands for.
pub struct Envelope {
    pub code: Seq<char>,
    pub message: Seq<char>,
}

/// The report of a failure: the code string of its kind and its message.
pub open spec fn envelope_of(failure: Failure) -> Envelope {
    Envelope { code: code_of(failure.kind), message: message_of(failure) }
}

impl Envelope {
    /// The fields under `error`: the code, then the message.
    pub open spec fn detail_entries(self) -> Seq<(Seq<char>, Node)> {
        seq![("code"@, Node::Text(self.code)), ("message"@, Node::Text(self.message))]
    }

    /// The fields of the report: `error` alone.
    pub open spec fn entries(self) -> Seq<(Seq<char>, Node)> {
        seq![("error"@, Node::Record(self.detail_entries()))]
    }

    /// The line written in place of the report when the report cannot be
    /// rendered.
    pub open spec fn fallback_line(self) -> Seq<char> {
        "error: "@ + self.message
    }
}

impl View for ErrorDetail {
    type V = Envelope;

    open spec fn view(&self) -> Envelope {
        Envelope { code: self.code@, message: self.message@ }
    }
}

impl View for ErrorOutput {
    type V = Envelope;

    open spec fn view(&self) -> Envelope {
        self.error@
    }
}

impl ErrorDetail {
    /// The two fields as a record.
    pub fn document(&self) -> (v: Value)
        ensures
            v@ == Node::Record(self@.detail_entries()),
    {
        let mut fields: Vec<Field> = Vec::new();
        proof {
            lemma_nothing();
        }
        put(&mut fields, "code", Value::text(self.code.as_str()));
        put(&mut fields, "message", Value::text(self.message.as_str()));
        assert(entries_of(fields@) =~= self@.detail_entries());
        Value::Record(fields)
    }
}

impl ErrorOutput {
    /// The report with this code and message.
    pub fn new(code: &str, message: String) -> (r: ErrorOutput)
        ensures
            r@ == (Envelope { code: code@, message: message@ }),
    {
        ErrorOutput { error: ErrorDetail { code: code.to_owned(), message } }
    }

    /// The report as a record to print.
    pub fn document(&self) -> (v: Value)
        ensures
            v@ == Node::Record(self@.entries()),
    {
        let mut fields: Vec<Field> = Vec::new();
        proof {
            lemma_nothing();
        }
        put(&mut fields, "error", self.error.document());
        assert(entries_of(fields@) =~= self@.entries());
        Value::Record(fields)
    }

    /// The line to write when the report itself cannot be rendered.
    pub fn fallback_line(&self) -> (r: String)
        ensures
            r@ == self@.fallback_line(),
    {
        join("error: ", self.error.message.as_str())
    }
}

/// A report shows no key twice.
pub proof fn lemma_keys_distinct(envelope: Envelope)
    ensures
        keys_distinct(envelope.entries()),
        keys_distinct(envelope.detail_entries()),
{
    reveal_strlit("code");
    reveal_strlit("message");
    assert("code"@.len() == 4);
    assert("message"@.len() == 7);
}

} // verus!
