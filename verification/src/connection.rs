//! One JSON-RPC connection: the requests that went out and wait for their
//! responses, the handler of what comes in, and the rule by which each
//! inbound message is dispatched.

use crate::error::{plain_error, RpcError, RpcErrorView, CONNECTION_CLOSED, METHOD_NOT_FOUND};
use crate::error::opt_json_view;
use crate::handlers::{Handled, JsonRpcHandler, JsonRpcNotificationCx, JsonRpcRequestCx};
use crate::json::Json;
use crate::jsonrpc::{Decoded, Message, MessageView, RequestId, RequestIdView};
use crate::pending::{Pending, PendingResponses, SendError};
use vstd::prelude::*;

verus! {

/// What is done with an inbound message.
#[derive(Debug)]
pub enum Delivery<T> {
    /// The response completes the request that waited for it: `waiter` is
    /// the one who waited, and gets the outcome.
    CompleteRequest { id: RequestId, outcome: Result<Json, RpcError>, waiter: T },
    /// No request waits for the response: it is ignored, with a warning.
    UnknownResponse { id: RequestId },
    /// A handler took the message.
    Handled,
    /// The peer's request is answered with an error.
    Respond { id: RequestId, error: RpcError },
    /// The message is logged and dropped.
    LogAndDrop,
}

/// A connection with its handler.
#[derive(Debug)]
pub struct JsonRpcConnection<H: JsonRpcHandler, T> {
    pub pending: PendingResponses<T>,
    pub handler: H,
}

/// The error with which a request is answered that the handler did not
/// take, or failed at.
pub open spec fn request_error(answer: Result<Handled<JsonRpcRequestCx>, RpcErrorView>) -> Option<
    RpcErrorView,
> {
    match answer {
        Ok(Handled::Yes) => None,
        Ok(Handled::No(_)) => Some(plain_error(METHOD_NOT_FOUND as int, "Method not found"@)),
        Err(e) => Some(e),
    }
}

/// The failure of one request that waited when the connection closed.
pub open spec fn failed_on_close<T>(d: Delivery<T>, p: Pending<T>) -> bool {
    &&& d matches Delivery::CompleteRequest { id, outcome, waiter }
    &&& id@ == RequestIdView::Number(p.id as int)
    &&& waiter == p.waiter
    &&& outcome matches Err(e)
    &&& e@ == plain_error(CONNECTION_CLOSED as int, "Connection closed"@)
}

impl<H: JsonRpcHandler, T> JsonRpcConnection<H, T> {
    /// The table of the connection is in order.
    pub open spec fn wf(&self) -> bool {
        self.pending.wf()
    }

    /// A connection that has sent nothing, with `handler` for what comes in.
    pub fn new(handler: H) -> (r: Self)
        ensures
            r.wf(),
            r.pending.idle(),
            r.handler == handler,
    {
        JsonRpcConnection { pending: PendingResponses::new(), handler }
    }

    /// The request to write for `method` and `params`. It goes out under an
    /// identifier that this connection has not used, and `waiter` waits for
    /// its response from now on.
    pub fn send_request(&mut self, method: String, params: Option<Json>, waiter: T) -> (r: Result<
        Message,
        SendError,
    >)
        requires
            old(self).wf(),
        ensures
            final(self).wf(),
            final(self).handler == old(self).handler,
            r is Ok <==> old(self).pending.next_id < i64::MAX,
            match r {
                Ok(m) => {
                    &&& m@ == (MessageView::Request {
                        id: RequestIdView::Number(old(self).pending.next_id as int),
                        method: method@,
                        params: opt_json_view(params),
                    })
                    &&& !old(self).pending.is_pending(
                        RequestIdView::Number(old(self).pending.next_id as int),
                    )
                    &&& final(self).pending.waiter_of(
                        RequestIdView::Number(old(self).pending.next_id as int),
                    ) == Some(waiter)
                    &&& forall|other: RequestIdView|
                        other != RequestIdView::Number(old(self).pending.next_id as int)
                            ==> final(self).pending.waiter_of(other) == old(self).pending.waiter_of(other)
                },
                Err(_) => final(self).pending.waiting@ == old(self).pending.waiting@ && final(self).pending.next_id == old(self).pending.next_id,
            },
    {
        self.pending.send_request(method, params, waiter)
    }

    /// The notification to write for `method` and `params`. Nothing waits
    /// for an answer.
    pub fn send_notification(&self, method: String, params: Option<Json>) -> (r: Message)
        ensures
            r@ == (MessageView::Notification { method: method@, params: opt_json_view(params) }),
    {
        Message::Notification { method, params }
    }

    /// Dispatches what a line was read as. A response completes the request
    /// that waits for it: the one who waited for this identifier, and no
    /// other, gets the outcome; a response that nothing waits for is
    /// ignored. A request goes to the handler; where the handler does not
    /// take it the peer is told that the method was not found, and where
    /// the handler fails the peer is told the handler's error. A
    /// notification goes to the handler and is dropped where the handler
    /// does not take it or fails. What was no message is answered with its
    /// error where it had an identifier, and dropped where not.
    pub fn dispatch(&mut self, decoded: Decoded) -> (r: Delivery<T>)
        requires
            old(self).wf(),
        ensures
            final(self).wf(),
            match decoded {
                Decoded::Message(Message::Response { id, outcome }) => {
                    &&& final(self).handler == old(self).handler
                    &&& !final(self).pending.is_pending(id@)
                    &&& forall|other: RequestIdView|
                        other != id@ ==> final(self).pending.waiter_of(other) == old(self).pending.waiter_of(other)
                    &&& match old(self).pending.waiter_of(id@) {
                        Some(waiter) => r == (Delivery::CompleteRequest { id, outcome, waiter }),
                        None => r == Delivery::<T>::UnknownResponse { id } && final(self).pending.waiting@ == old(self).pending.waiting@,
                    }
                },
                Decoded::Message(Message::Request { id, method, params }) => {
                    let cx = JsonRpcRequestCx { id, method };
                    &&& final(self).pending == old(self).pending
                    &&& final(self).handler == old(self).handler.after_request(
                        cx,
                        opt_json_view(params),
                    )
                    &&& match request_error(
                        old(self).handler.request_answer(cx, opt_json_view(params)),
                    ) {
                        None => r is Handled,
                        Some(e) => r matches Delivery::Respond { id: to, error } && to == id
                            && error@ == e,
                    }
                },
                Decoded::Message(Message::Notification { method, params }) => {
                    let cx = JsonRpcNotificationCx { method };
                    &&& final(self).pending == old(self).pending
                    &&& final(self).handler == old(self).handler.after_notification(
                        cx,
                        opt_json_view(params),
                    )
                    &&& if old(self).handler.notification_answer(cx, opt_json_view(params)) == Ok::<
                        Handled<JsonRpcNotificationCx>,
                        RpcErrorView,
                    >(Handled::Yes) {
                        r is Handled
                    } else {
                        r is LogAndDrop
                    }
                },
                Decoded::Reject { id, error } => {
                    &&& r == Delivery::<T>::Respond { id, error }
                    &&& *final(self) == *old(self)
                },
                Decoded::Dropped => r is LogAndDrop && *final(self) == *old(self),
            },
    {
        match decoded {
            Decoded::Message(Message::Response { id, outcome }) => {
                match self.pending.receive_response(&id) {
                    Some(waiter) => Delivery::CompleteRequest { id, outcome, waiter },
                    None => Delivery::UnknownResponse { id },
                }
            },
            Decoded::Message(Message::Request { id, method, params }) => {
                let to = id.clone();
                let cx = JsonRpcRequestCx { id, method };
                match self.handler.handle_request(cx, &params) {
                    Ok(Handled::Yes) => Delivery::Handled,
                    Ok(Handled::No(_)) => Delivery::Respond {
                        id: to,
                        error: RpcError::method_not_found(),
                    },
                    Err(error) => Delivery::Respond { id: to, error },
                }
            },
            Decoded::Message(Message::Notification { method, params }) => {
                let cx = JsonRpcNotificationCx { method };
                match self.handler.handle_notification(cx, &params) {
                    Ok(Handled::Yes) => Delivery::Handled,
                    _ => Delivery::LogAndDrop,
                }
            },
            Decoded::Reject { id, error } => Delivery::Respond { id, error },
            Decoded::Dropped => Delivery::LogAndDrop,
        }
    }

    /// Closes the connection: every request that still waits fails with the
    /// connection-closed error, in the order in which the requests went
    /// out, and none waits afterwards.
    pub fn close(&mut self) -> (r: Vec<Delivery<T>>)
        requires
            old(self).wf(),
        ensures
            final(self).wf(),
            final(self).pending.idle(),
            final(self).handler == old(self).handler,
            r@.len() == old(self).pending.waiting@.len(),
            forall|i: int|
                0 <= i < r@.len() ==> failed_on_close(#[trigger] r@[i], old(self).pending.waiting@[i]),
    {
        let mut waiting = self.pending.close();
        let ghost all = waiting@;
        let mut reversed: Vec<Delivery<T>> = Vec::new();
        while waiting.len() > 0
            invariant
                waiting@.len() <= all.len(),
                waiting@ =~= all.take(waiting@.len() as int),
                reversed@.len() == all.len() - waiting@.len(),
                forall|k: int|
                    0 <= k < reversed@.len() ==> failed_on_close(
                        #[trigger] reversed@[k],
                        all[all.len() - 1 - k],
                    ),
            decreases waiting.len(),
        {
            let p = waiting.pop().unwrap();
            reversed.push(
                Delivery::CompleteRequest {
                    id: RequestId::Number(p.id),
                    outcome: Err(RpcError::connection_closed()),
                    waiter: p.waiter,
                },
            );
        }
        let mut failed: Vec<Delivery<T>> = Vec::new();
        let ghost turned = reversed@;
        while reversed.len() > 0
            invariant
                reversed@.len() <= turned.len(),
                turned.len() == all.len(),
                reversed@ =~= turned.take(reversed@.len() as int),
                failed@.len() == turned.len() - reversed@.len(),
                forall|k: int|
                    0 <= k < failed@.len() ==> (#[trigger] failed@[k]) == turned[turned.len() - 1
                        - k],
            decreases reversed.len(),
        {
            let d = reversed.pop().unwrap();
            failed.push(d);
        }
        failed
    }
}

} // verus!
