//! Responses and their encoding.

use crate::value::{lemma_array_view, views, Integer, Value, ValueView};
use vstd::prelude::*;

verus! {

/// The answer to one request. By the protocol's convention `error` is nil
/// where the call succeeded and `result` is nil where it failed; the type
/// does not enforce it.
#[derive(Debug, PartialEq, Eq)]
pub struct Response {
    /// The identifier of the request that this answers.
    pub msgid: Integer,
    /// What went wrong, or nil.
    pub error: Value,
    /// What the call returned, or nil.
    pub result: Value,
}

/// The mathematical model of a [`Response`].
pub struct ResponseView {
    pub msgid: Integer,
    pub error: ValueView,
    pub result: ValueView,
}

impl ResponseView {
    /// The response that reports the outcome of a call: a result beside a nil
    /// error, or an error beside a nil result.
    pub open spec fn from_outcome(
        msgid: Integer,
        outcome: Result<ValueView, ValueView>,
    ) -> ResponseView {
        match outcome {
            Ok(result) => ResponseView { msgid, error: ValueView::Nil, result },
            Err(error) => ResponseView { msgid, error, result: ValueView::Nil },
        }
    }

    /// The message that carries this response: the array
    /// `[1, msgid, error, result]`, the type tag `1` as an unsigned integer.
    pub open spec fn encode(self) -> ValueView {
        ValueView::Array(
            seq![
                ValueView::Integer(Integer::U64(1)),
                ValueView::Integer(self.msgid),
                self.error,
                self.result,
            ],
        )
    }
}

impl View for Response {
    type V = ResponseView;

    open spec fn view(&self) -> ResponseView {
        ResponseView { msgid: self.msgid, error: self.error@, result: self.result@ }
    }
}

/// The model of what a handler returned.
pub open spec fn outcome_view(outcome: Result<Value, Value>) -> Result<ValueView, ValueView> {
    match outcome {
        Ok(result) => Ok(result@),
        Err(error) => Err(error@),
    }
}

impl Response {
    /// Builds the response to the request `msgid` from what the handler
    /// returned for it.
    pub fn from_outcome(msgid: Integer, outcome: Result<Value, Value>) -> (response: Response)
        ensures
            response@ == ResponseView::from_outcome(msgid, outcome_view(outcome)),
    {
        match outcome {
            Ok(result) => Response { msgid, error: Value::Nil, result },
            Err(error) => Response { msgid, error, result: Value::Nil },
        }
    }

    /// Encodes the response as the message that goes onto the wire: always
    /// an array of exactly four elements, the unsigned integer `1`, the
    /// `msgid`, the error and the result.
    pub fn encode(self) -> (encoded: Value)
        ensures
            encoded@ == self@.encode(),
            encoded@ matches ValueView::Array(fields) && {
                &&& fields.len() == 4
                &&& fields[0] == ValueView::Integer(Integer::U64(1))
                &&& fields[1] == ValueView::Integer(self.msgid)
                &&& fields[2] == self.error@
                &&& fields[3] == self.result@
            },
    {
        let ghost response = self@;
        let mut fields: Vec<Value> = Vec::new();
        fields.push(Value::Integer(Integer::U64(1)));
        fields.push(Value::Integer(self.msgid));
        fields.push(self.error);
        fields.push(self.result);
        proof {
            lemma_array_view(fields);
            assert(views(fields@) =~= response.encode()->Array_0);
        }
        Value::Array(fields)
    }
}

} // verus!
