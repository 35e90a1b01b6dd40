//! Requests and the decoder that admits them.

use crate::value::{lemma_array_view, views, Integer, Value, ValueView};
use vstd::prelude::*;

verus! {

/// Why a message was not accepted as a request.
#[derive(Clone, Copy, Debug, PartialEq, Eq, Structural)]
pub enum RequestDecodeError {
    /// The message has the shape of a request, but its type tag is not `0`.
    InvalidMessageType,
    /// The message is no array, or it is an array of four elements of which
    /// one is not of the type that its position asks for.
    TypeMismatch,
    /// The message is an array of fewer or of more than four elements.
    InvalidLength,
}

/// A call received from a client. The only way to a `Request` is
/// [`Request::decode`], so every `Request` stands for a message that passed
/// the decoder.
#[derive(Debug, PartialEq, Eq)]
pub struct Request {
    msgid: Integer,
    method: String,
    params: Vec<Value>,
}

/// The mathematical model of a [`Request`].
pub struct RequestView {
    /// The identifier that the response has to echo.
    pub msgid: Integer,
    /// The name of the method to call.
    pub method: Seq<char>,
    /// The positional arguments of the call.
    pub params: Seq<ValueView>,
}

impl RequestView {
    /// The message that carries this request under the type tag `tag`: the
    /// array `[tag, msgid, method, params]`.
    pub open spec fn message(self, tag: Integer) -> ValueView {
        ValueView::Array(
            seq![
                ValueView::Integer(tag),
                ValueView::Integer(self.msgid),
                ValueView::String(self.method),
                ValueView::Array(self.params),
            ],
        )
    }

    /// What the decoder makes of a message: the request it carries, or the
    /// reason why it carries none.
    ///
    /// A request is an array `[0, msgid, method, params]` of two integers, a
    /// string and an array. The length is judged first: an array of another
    /// length than four is an `InvalidLength`, whatever it holds. An array of
    /// four elements of which one has the wrong type is a `TypeMismatch`, and
    /// so is anything that is no array. Four elements of the right types
    /// under a type tag other than `0` are an `InvalidMessageType`; the tag is
    /// compared as a number, so a signed and an unsigned zero both pass.
    pub open spec fn decode(message: ValueView) -> Result<RequestView, RequestDecodeError> {
        match message {
            ValueView::Array(fields) => {
                if fields.len() != 4 {
                    Err(RequestDecodeError::InvalidLength)
                } else {
                    match (fields[0], fields[1], fields[2], fields[3]) {
                        (
                            ValueView::Integer(tag),
                            ValueView::Integer(msgid),
                            ValueView::String(method),
                            ValueView::Array(params),
                        ) => {
                            if tag.value() == 0 {
                                Ok(RequestView { msgid, method, params })
                            } else {
                                Err(RequestDecodeError::InvalidMessageType)
                            }
                        },
                        _ => Err(RequestDecodeError::TypeMismatch),
                    }
                }
            },
            _ => Err(RequestDecodeError::TypeMismatch),
        }
    }
}

impl View for Request {
    type V = RequestView;

    closed spec fn view(&self) -> RequestView {
        RequestView { msgid: self.msgid, method: self.method@, params: views(self.params@) }
    }
}

impl Request {
    /// Decodes a message into the request that it carries, or says why it
    /// carries none. The fields of the request are moved out of the message.
    pub fn decode(value: Value) -> (decoded: Result<Request, RequestDecodeError>)
        ensures
            match RequestView::decode(value@) {
                Ok(request) => decoded is Ok && decoded->Ok_0@ == request,
                Err(error) => decoded == Err::<Request, RequestDecodeError>(error),
            },
    {
        let mut fields = match value {
            Value::Array(fields) => fields,
            _ => return Err(RequestDecodeError::TypeMismatch),
        };
        proof {
            lemma_array_view(fields);
        }
        if fields.len() != 4 {
            return Err(RequestDecodeError::InvalidLength);
        }
        let params = fields.pop().unwrap();
        let method = fields.pop().unwrap();
        let msgid = fields.pop().unwrap();
        let tag = fields.pop().unwrap();
        match (tag, msgid, method, params) {
            (
                Value::Integer(tag),
                Value::Integer(msgid),
                Value::String(method),
                Value::Array(params),
            ) => {
                proof {
                    lemma_array_view(params);
                }
                if tag.same_value(&Integer::U64(0)) {
                    Ok(Request { msgid, method, params })
                } else {
                    Err(RequestDecodeError::InvalidMessageType)
                }
            },
            _ => Err(RequestDecodeError::TypeMismatch),
        }
    }

    /// The identifier of the request, as the client encoded it.
    pub fn msgid(&self) -> (msgid: Integer)
        ensures
            msgid == self@.msgid,
    {
        self.msgid
    }

    /// The name of the method to call.
    pub fn method(&self) -> (method: &str)
        ensures
            method@ == self@.method,
    {
        self.method.as_str()
    }

    /// The positional arguments of the call.
    pub fn params(&self) -> (params: &Vec<Value>)
        ensures
            views(params@) == self@.params,
    {
        &self.params
    }

    /// Takes the request apart into its identifier, its method and its
    /// arguments.
    pub fn into_parts(self) -> (parts: (Integer, String, Vec<Value>))
        ensures
            parts.0 == self@.msgid,
            parts.1@ == self@.method,
            views(parts.2@) == self@.params,
    {
        (self.msgid, self.method, self.params)
    }
}

} // verus!
