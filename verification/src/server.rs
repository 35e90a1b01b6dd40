//! The server: one handler, and the cycle that serves one request with it.

use crate::error::Error;
use crate::request::{Request, RequestView};
use crate::response::{outcome_view, Response, ResponseView};
use crate::value::{views, Value, ValueView};
use vstd::prelude::*;

verus! {

/// The application's side of the server: what performs the calls.
pub trait Handler {
    /// What the handler says of itself: whether a call of `method` on
    /// `params`, made in the state `self`, may return `outcome` and leave the
    /// handler in the state `after`.
    ///
    /// A handler that does not say admits everything, so nothing is taken on
    /// trust from a handler that was not verified. One that narrows this has
    /// to prove that its `request` keeps to it.
    open spec fn may_answer(
        &self,
        method: Seq<char>,
        params: Seq<ValueView>,
        outcome: Result<ValueView, ValueView>,
        after: &Self,
    ) -> bool {
        true
    }

    /// Performs the call of `method` on `params`. `Ok` carries the result of
    /// a call that succeeded, `Err` the error of one that failed.
    fn request(&mut self, method: &str, params: Vec<Value>) -> (outcome: Result<Value, Value>)
        ensures
            old(self).may_answer(method@, views(params@), outcome_view(outcome), final(self)),
    ;
}

/// A server for one connection. It owns its handler and calls it once for
/// each request that it decodes, one request after the other.
pub struct Server<H: Handler> {
    handler: H,
}

impl<H: Handler> Server<H> {
    /// The handler, in the state that the calls so far have left it in.
    pub closed spec fn handler(&self) -> H {
        self.handler
    }

    /// Whether serving `request` in the state `self` may send `reply` back
    /// and leave the server in the state `after`: the handler admits an
    /// outcome of the call of the request's method on its arguments, and
    /// `reply` is the encoded response that carries this outcome under the
    /// request's `msgid`.
    pub open spec fn may_reply(&self, request: RequestView, reply: ValueView, after: &Self) -> bool {
        exists|outcome: Result<ValueView, ValueView>|
            {
                &&& #[trigger] self.handler().may_answer(
                    request.method,
                    request.params,
                    outcome,
                    &after.handler(),
                )
                &&& reply == ResponseView::from_outcome(request.msgid, outcome).encode()
            }
    }

    /// A server that dispatches to `handler`.
    pub fn new(handler: H) -> (server: Server<H>)
        ensures
            server.handler() == handler,
    {
        Server { handler }
    }

    /// Serves one message: decodes it, hands the call to the handler, and
    /// encodes the response to send back.
    ///
    /// A message that is no request fails the cycle with its decode error:
    /// the handler is not called and there is nothing to send. For a request
    /// the cycle succeeds whatever the handler returns: the handler is called
    /// once, with the request's method and arguments, and the reply is the
    /// response that carries the request's `msgid` and the handler's outcome.
    pub fn serve_one(&mut self, message: Value) -> (served: Result<Value, Error>)
        ensures
            match RequestView::decode(message@) {
                Ok(request) => {
                    served matches Ok(reply) && old(self).may_reply(request, reply@, final(self))
                },
                Err(error) => {
                    &&& served matches Err(failure) && failure@ == Some(error)
                    &&& final(self).handler() == old(self).handler()
                },
            },
    {
        let request = match Request::decode(message) {
            Ok(request) => request,
            Err(error) => {
                return Err(Error::from(error));
            },
        };
        let ghost call = request@;
        let (msgid, method, params) = request.into_parts();
        let outcome = self.handler.request(method.as_str(), params);
        assert(old(self).handler().may_answer(
            call.method,
            call.params,
            outcome_view(outcome),
            &self.handler(),
        ));
        let response = Response::from_outcome(msgid, outcome);
        Ok(response.encode())
    }
}

} // verus!
