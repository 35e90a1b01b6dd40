//! What holds of the codec and of the serve cycle for every input.

use crate::request::{RequestDecodeError, RequestView};
use crate::response::ResponseView;
use crate::server::{Handler, Server};
use crate::value::{Integer, ValueView};
use vstd::prelude::*;

verus! {

/// The encoding of a response is an array of exactly four elements: the
/// unsigned integer `1`, the `msgid` of the response, its error and its
/// result, in this order.
pub proof fn lemma_encoded_response_shape(response: ResponseView)
    ensures
        response.encode() matches ValueView::Array(fields) && {
            &&& fields.len() == 4
            &&& fields[0] == ValueView::Integer(Integer::U64(1))
            &&& fields[1] == ValueView::Integer(response.msgid)
            &&& fields[2] == response.error
            &&& fields[3] == response.result
        },
{
}

/// Every request decodes from the message that carries it, under any
/// encoding of the type tag `0`.
pub proof fn lemma_request_decodes(request: RequestView, tag: Integer)
    requires
        tag.value() == 0,
    ensures
        RequestView::decode(request.message(tag)) == Ok::<RequestView, RequestDecodeError>(
            request,
        ),
{
}

/// Only requests decode: a message that the decoder accepts is the array
/// `[tag, msgid, method, params]` of the request that it yields, under a tag
/// that stands for `0`.
pub proof fn lemma_decoded_message_is_request(message: ValueView)
    requires
        RequestView::decode(message) is Ok,
    ensures
        exists|tag: Integer|
            tag.value() == 0 && message == #[trigger] RequestView::decode(message)->Ok_0.message(
                tag,
            ),
{
    let fields = message->Array_0;
    let tag = fields[0]->Integer_0;
    let request = RequestView::decode(message)->Ok_0;
    assert(request.message(tag)->Array_0 =~= fields);
}

/// The decoder reads the type tag as a number: messages that differ only in
/// how the tag is encoded, signed or unsigned, decode alike.
pub proof fn lemma_tag_encoding_is_irrelevant(fields: Seq<ValueView>, signed: i64, unsigned: u64)
    requires
        signed == unsigned,
        fields.len() > 0,
    ensures
        RequestView::decode(
            ValueView::Array(fields.update(0, ValueView::Integer(Integer::I64(signed)))),
        ) == RequestView::decode(
            ValueView::Array(fields.update(0, ValueView::Integer(Integer::U64(unsigned)))),
        ),
{
}

/// A message of the right shape under a type tag other than `0` is an
/// `InvalidMessageType`.
pub proof fn lemma_other_tag_is_invalid_message_type(request: RequestView, tag: Integer)
    requires
        tag.value() != 0,
    ensures
        RequestView::decode(request.message(tag)) == Err::<RequestView, RequestDecodeError>(
            RequestDecodeError::InvalidMessageType,
        ),
{
}

/// An array of another length than four is an `InvalidLength`, whatever its
/// elements are.
pub proof fn lemma_other_length_is_invalid_length(fields: Seq<ValueView>)
    requires
        fields.len() != 4,
    ensures
        RequestView::decode(ValueView::Array(fields)) == Err::<RequestView, RequestDecodeError>(
            RequestDecodeError::InvalidLength,
        ),
{
}

/// An array of four elements, one of which is not of the type that its
/// position asks for, is a `TypeMismatch`, whatever its type tag is.
pub proof fn lemma_wrong_type_is_type_mismatch(fields: Seq<ValueView>)
    requires
        fields.len() == 4,
        !(fields[0] is Integer && fields[1] is Integer && fields[2] is String
            && fields[3] is Array),
    ensures
        RequestView::decode(ValueView::Array(fields)) == Err::<RequestView, RequestDecodeError>(
            RequestDecodeError::TypeMismatch,
        ),
{
}

/// A message that is no array is a `TypeMismatch`.
pub proof fn lemma_no_array_is_type_mismatch(message: ValueView)
    requires
        !(message is Array),
    ensures
        RequestView::decode(message) == Err::<RequestView, RequestDecodeError>(
            RequestDecodeError::TypeMismatch,
        ),
{
}

/// A response is never taken for a request: the decoder rejects every encoded
/// response.
pub proof fn lemma_response_is_no_request(response: ResponseView)
    ensures
        RequestView::decode(response.encode()) is Err,
{
}

/// A call that succeeded is answered by `[1, msgid, nil, result]`.
pub proof fn lemma_answer_to_success(msgid: Integer, result: ValueView)
    ensures
        ResponseView::from_outcome(msgid, Ok(result)).encode() == ValueView::Array(
            seq![
                ValueView::Integer(Integer::U64(1)),
                ValueView::Integer(msgid),
                ValueView::Nil,
                result,
            ],
        ),
{
}

/// A call that failed is answered by `[1, msgid, error, nil]`.
pub proof fn lemma_answer_to_failure(msgid: Integer, error: ValueView)
    ensures
        ResponseView::from_outcome(msgid, Err(error)).encode() == ValueView::Array(
            seq![
                ValueView::Integer(Integer::U64(1)),
                ValueView::Integer(msgid),
                error,
                ValueView::Nil,
            ],
        ),
{
}

/// What a serve cycle sends back for a request is a response that echoes the
/// request's `msgid` and holds nil for its error or for its result.
pub proof fn lemma_reply_shape<H: Handler>(
    server: Server<H>,
    request: RequestView,
    reply: ValueView,
    after: Server<H>,
)
    requires
        server.may_reply(request, reply, &after),
    ensures
        reply matches ValueView::Array(fields) && {
            &&& fields.len() == 4
            &&& fields[0] == ValueView::Integer(Integer::U64(1))
            &&& fields[1] == ValueView::Integer(request.msgid)
            &&& fields[2] is Nil || fields[3] is Nil
        },
{
}

/// Where the handler admits one outcome only for a call, the reply to a
/// request for this call is the response that carries this outcome: for a
/// result, `[1, msgid, nil, result]`; for an error, `[1, msgid, error, nil]`.
pub proof fn lemma_reply_carries_outcome<H: Handler>(
    server: Server<H>,
    request: RequestView,
    reply: ValueView,
    after: Server<H>,
    outcome: Result<ValueView, ValueView>,
)
    requires
        server.may_reply(request, reply, &after),
        forall|other: Result<ValueView, ValueView>, state: H| #[trigger]
            server.handler().may_answer(request.method, request.params, other, &state)
                ==> other == outcome,
    ensures
        reply == ResponseView::from_outcome(request.msgid, outcome).encode(),
{
}

} // verus!
