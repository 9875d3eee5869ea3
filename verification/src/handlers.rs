//! Handlers of inbound messages, and the chain that tries one handler after
//! another.

use crate::conductor::{read_successor_args, successor_args, UntypedMessage, UntypedView};
use crate::error::{opt_json_view, RpcError, RpcErrorView};
use crate::json::{Json, JsonView};
use crate::jsonrpc::{Message, RequestId};
use std::marker::PhantomData;
use vstd::prelude::*;

verus! {

/// What a handler says of a message: that it took it, or that it did not,
/// in which case it hands the context back for the next handler.
#[derive(Debug)]
pub enum Handled<T> {
    Yes,
    No(T),
}

/// What a handler is given with a request: the identifier under which the
/// answer goes back, and the method.
#[derive(Debug)]
pub struct JsonRpcRequestCx {
    pub id: RequestId,
    pub method: String,
}

/// What a handler is given with a notification: the method.
#[derive(Debug)]
pub struct JsonRpcNotificationCx {
    pub method: String,
}

impl JsonRpcRequestCx {
    /// The method of the request.
    pub fn method(&self) -> (r: &str)
        ensures
            r@ == self.method@,
    {
        self.method.as_str()
    }

    /// The response that answers the request with `result`. The context is
    /// used up: a request is answered once.
    pub fn respond(self, result: Json) -> (r: Message)
        ensures
            r == (Message::Response { id: self.id, outcome: Ok(result) }),
    {
        Message::Response { id: self.id, outcome: Ok(result) }
    }

    /// The response that answers the request with `error`.
    pub fn respond_with_error(self, error: RpcError) -> (r: Message)
        ensures
            r == (Message::Response { id: self.id, outcome: Err(error) }),
    {
        Message::Response { id: self.id, outcome: Err(error) }
    }

    /// The response that answers the request with a result or an error.
    pub fn respond_with_result(self, outcome: Result<Json, RpcError>) -> (r: Message)
        ensures
            r == (Message::Response { id: self.id, outcome }),
    {
        Message::Response { id: self.id, outcome }
    }

    /// The response that is owed where the context is let go without an
    /// answer: the generic internal error, so that the peer never hangs.
    pub fn abandon(self) -> (r: Message)
        ensures
            ({
                &&& r matches Message::Response { id, outcome }
                &&& id == self.id
                &&& outcome matches Err(e)
                &&& e@ == crate::error::plain_error(
                    crate::error::INTERNAL_ERROR as int,
                    "Internal error"@,
                )
            }),
    {
        Message::Response { id: self.id, outcome: Err(RpcError::internal_error()) }
    }
}

impl JsonRpcNotificationCx {
    /// The method of the notification.
    pub fn method(&self) -> (r: &str)
        ensures
            r@ == self.method@,
    {
        self.method.as_str()
    }
}

/// An answer with its error as a mathematical value.
pub open spec fn answer_view<T>(r: Result<Handled<T>, RpcError>) -> Result<Handled<T>, RpcErrorView> {
    match r {
        Ok(h) => Ok(h),
        Err(e) => Err(e@),
    }
}

/// The outcome of a callback with its error as a mathematical value.
pub open spec fn outcome_view(r: Result<(), RpcError>) -> Result<(), RpcErrorView> {
    match r {
        Ok(()) => Ok(()),
        Err(e) => Err(e@),
    }
}

/// What a reading gave, with its error as a mathematical value.
pub open spec fn parsed_view<M>(r: Option<Result<M, RpcError>>) -> Option<Result<M, RpcErrorView>> {
    match r {
        Some(Ok(m)) => Some(Ok(m)),
        Some(Err(e)) => Some(Err(e@)),
        None => None,
    }
}

/// A handler of inbound messages. What it answers to a message, and what
/// becomes of it, is a function of the handler and the message; a handler
/// that does not take a message hands back the context it was given.
pub trait JsonRpcHandler: Sized {
    /// The answer to a request. A handler whose answers are not written
    /// down answers in some way that nothing is known of.
    open spec fn request_answer(&self, cx: JsonRpcRequestCx, params: Option<JsonView>) -> Result<
        Handled<JsonRpcRequestCx>,
        RpcErrorView,
    > {
        arbitrary()
    }

    /// The handler after a request.
    open spec fn after_request(&self, cx: JsonRpcRequestCx, params: Option<JsonView>) -> Self {
        arbitrary()
    }

    /// The answer to a notification.
    open spec fn notification_answer(
        &self,
        cx: JsonRpcNotificationCx,
        params: Option<JsonView>,
    ) -> Result<Handled<JsonRpcNotificationCx>, RpcErrorView> {
        arbitrary()
    }

    /// The handler after a notification.
    open spec fn after_notification(&self, cx: JsonRpcNotificationCx, params: Option<JsonView>) -> Self {
        arbitrary()
    }

    /// The names of the handlers that this one is made of.
    open spec fn description(&self) -> Seq<char> {
        arbitrary()
    }

    /// Handles a request. A request that is not taken comes back with the
    /// context that was given.
    fn handle_request(&mut self, cx: JsonRpcRequestCx, params: &Option<Json>) -> (r: Result<
        Handled<JsonRpcRequestCx>,
        RpcError,
    >)
        ensures
            answer_view(r) == old(self).request_answer(cx, opt_json_view(*params)),
            *final(self) == old(self).after_request(cx, opt_json_view(*params)),
            r matches Ok(Handled::No(c)) ==> c == cx,
    ;

    /// Handles a notification. A notification that is not taken comes back
    /// with the context that was given.
    fn handle_notification(&mut self, cx: JsonRpcNotificationCx, params: &Option<Json>) -> (r:
        Result<Handled<JsonRpcNotificationCx>, RpcError>)
        ensures
            answer_view(r) == old(self).notification_answer(cx, opt_json_view(*params)),
            *final(self) == old(self).after_notification(cx, opt_json_view(*params)),
            r matches Ok(Handled::No(c)) ==> c == cx,
    ;

    /// The names of the handlers that this one is made of.
    fn describe_chain(&self) -> (r: String)
        ensures
            r@ == self.description(),
    ;
}

/// The handler that takes no message.
#[derive(Debug)]
pub struct NullHandler {}

impl JsonRpcHandler for NullHandler {
    open spec fn request_answer(&self, cx: JsonRpcRequestCx, params: Option<JsonView>) -> Result<
        Handled<JsonRpcRequestCx>,
        RpcErrorView,
    > {
        Ok(Handled::No(cx))
    }

    open spec fn after_request(&self, cx: JsonRpcRequestCx, params: Option<JsonView>) -> Self {
        *self
    }

    open spec fn notification_answer(
        &self,
        cx: JsonRpcNotificationCx,
        params: Option<JsonView>,
    ) -> Result<Handled<JsonRpcNotificationCx>, RpcErrorView> {
        Ok(Handled::No(cx))
    }

    open spec fn after_notification(&self, cx: JsonRpcNotificationCx, params: Option<JsonView>) -> Self {
        *self
    }

    open spec fn description(&self) -> Seq<char> {
        "(null)"@
    }

    fn handle_request(&mut self, cx: JsonRpcRequestCx, params: &Option<Json>) -> (r: Result<
        Handled<JsonRpcRequestCx>,
        RpcError,
    >) {
        Ok(Handled::No(cx))
    }

    fn handle_notification(&mut self, cx: JsonRpcNotificationCx, params: &Option<Json>) -> (r:
        Result<Handled<JsonRpcNotificationCx>, RpcError>) {
        Ok(Handled::No(cx))
    }

    fn describe_chain(&self) -> (r: String) {
        String::from_str("(null)")
    }
}

impl Default for NullHandler {
    fn default() -> (r: NullHandler) {
        NullHandler {  }
    }
}

/// The handler that tries `handler1` and, where that does not take the
/// message, `handler2`.
#[derive(Debug)]
pub struct ChainHandler<H1, H2> where H1: JsonRpcHandler, H2: JsonRpcHandler {
    pub handler1: H1,
    pub handler2: H2,
}

impl<H1, H2> ChainHandler<H1, H2> where H1: JsonRpcHandler, H2: JsonRpcHandler {
    /// The chain of `handler1` and `handler2`.
    pub fn new(handler1: H1, handler2: H2) -> (r: Self)
        ensures
            r.handler1 == handler1,
            r.handler2 == handler2,
    {
        ChainHandler { handler1, handler2 }
    }
}

impl<H1, H2> JsonRpcHandler for ChainHandler<H1, H2> where H1: JsonRpcHandler, H2: JsonRpcHandler {
    open spec fn request_answer(&self, cx: JsonRpcRequestCx, params: Option<JsonView>) -> Result<
        Handled<JsonRpcRequestCx>,
        RpcErrorView,
    > {
        match self.handler1.request_answer(cx, params) {
            Ok(Handled::Yes) => Ok(Handled::Yes),
            Ok(Handled::No(_)) => self.handler2.request_answer(cx, params),
            Err(e) => Err(e),
        }
    }

    open spec fn after_request(&self, cx: JsonRpcRequestCx, params: Option<JsonView>) -> Self {
        ChainHandler {
            handler1: self.handler1.after_request(cx, params),
            handler2: match self.handler1.request_answer(cx, params) {
                Ok(Handled::No(_)) => self.handler2.after_request(cx, params),
                _ => self.handler2,
            },
        }
    }

    open spec fn notification_answer(
        &self,
        cx: JsonRpcNotificationCx,
        params: Option<JsonView>,
    ) -> Result<Handled<JsonRpcNotificationCx>, RpcErrorView> {
        match self.handler1.notification_answer(cx, params) {
            Ok(Handled::Yes) => Ok(Handled::Yes),
            Ok(Handled::No(_)) => self.handler2.notification_answer(cx, params),
            Err(e) => Err(e),
        }
    }

    open spec fn after_notification(&self, cx: JsonRpcNotificationCx, params: Option<JsonView>) -> Self {
        ChainHandler {
            handler1: self.handler1.after_notification(cx, params),
            handler2: match self.handler1.notification_answer(cx, params) {
                Ok(Handled::No(_)) => self.handler2.after_notification(cx, params),
                _ => self.handler2,
            },
        }
    }

    open spec fn description(&self) -> Seq<char> {
        self.handler1.description() + ", "@ + self.handler2.description()
    }

    fn handle_request(&mut self, cx: JsonRpcRequestCx, params: &Option<Json>) -> (r: Result<
        Handled<JsonRpcRequestCx>,
        RpcError,
    >) {
        match self.handler1.handle_request(cx, params) {
            Ok(Handled::Yes) => Ok(Handled::Yes),
            Ok(Handled::No(cx)) => self.handler2.handle_request(cx, params),
            Err(e) => Err(e),
        }
    }

    fn handle_notification(&mut self, cx: JsonRpcNotificationCx, params: &Option<Json>) -> (r:
        Result<Handled<JsonRpcNotificationCx>, RpcError>) {
        match self.handler1.handle_notification(cx, params) {
            Ok(Handled::Yes) => Ok(Handled::Yes),
            Ok(Handled::No(cx)) => self.handler2.handle_notification(cx, params),
            Err(e) => Err(e),
        }
    }

    fn describe_chain(&self) -> (r: String) {
        let mut out = self.handler1.describe_chain();
        out.append(", ");
        let second = self.handler2.describe_chain();
        out.append(second.as_str());
        out
    }
}

/// The law of the chain, for requests. Where the first handler takes the
/// request or fails, the second is not asked and stays as it was. Where the
/// first does not take it, the second is asked with the very context and
/// parameters that the first was given, and its answer is the chain's.
pub proof fn chain_law_for_requests<H1: JsonRpcHandler, H2: JsonRpcHandler>(
    chain: ChainHandler<H1, H2>,
    cx: JsonRpcRequestCx,
    params: Option<JsonView>,
)
    ensures
        !(chain.handler1.request_answer(cx, params) matches Ok(Handled::No(_))) ==> {
            &&& chain.after_request(cx, params).handler2 == chain.handler2
            &&& chain.request_answer(cx, params) is Err || chain.request_answer(cx, params)
                == Ok::<Handled<JsonRpcRequestCx>, RpcErrorView>(Handled::Yes)
        },
        chain.handler1.request_answer(cx, params) matches Ok(Handled::No(_)) ==> {
            &&& chain.request_answer(cx, params) == chain.handler2.request_answer(cx, params)
            &&& chain.after_request(cx, params).handler2 == chain.handler2.after_request(
                cx,
                params,
            )
        },
        chain.after_request(cx, params).handler1 == chain.handler1.after_request(cx, params),
{
}

/// The law of the chain, for notifications.
pub proof fn chain_law_for_notifications<H1: JsonRpcHandler, H2: JsonRpcHandler>(
    chain: ChainHandler<H1, H2>,
    cx: JsonRpcNotificationCx,
    params: Option<JsonView>,
)
    ensures
        !(chain.handler1.notification_answer(cx, params) matches Ok(Handled::No(_))) ==> {
            &&& chain.after_notification(cx, params).handler2 == chain.handler2
            &&& chain.notification_answer(cx, params) is Err || chain.notification_answer(
                cx,
                params,
            ) == Ok::<Handled<JsonRpcNotificationCx>, RpcErrorView>(Handled::Yes)
        },
        chain.handler1.notification_answer(cx, params) matches Ok(Handled::No(_)) ==> {
            &&& chain.notification_answer(cx, params) == chain.handler2.notification_answer(
                cx,
                params,
            )
            &&& chain.after_notification(cx, params).handler2
                == chain.handler2.after_notification(cx, params)
        },
        chain.after_notification(cx, params).handler1 == chain.handler1.after_notification(
            cx,
            params,
        ),
{
}

/// A type of request or notification: it knows the method it travels
/// under and reads itself from untyped parameters.
pub trait JsonRpcMessage: Sized {
    /// What the reading of `params` under `method` gives: nothing where the
    /// method is another, the message, or the error for parameters that do
    /// not fit.
    open spec fn parsed(method: Seq<char>, params: Option<JsonView>) -> Option<Result<Self, RpcErrorView>> {
        arbitrary()
    }

    /// Reads a message of this type.
    fn parse(method: &str, params: &Option<Json>) -> (r: Option<Result<Self, RpcError>>)
        ensures
            parsed_view(r) == Self::parsed(method@, opt_json_view(*params)),
    ;
}

/// What is done with a request of type `R` once it is read.
pub trait RequestCallback<R>: Sized {
    /// The outcome of the callback.
    open spec fn outcome(&self, request: R, cx: JsonRpcRequestCx) -> Result<(), RpcErrorView> {
        arbitrary()
    }

    /// The callback after the call.
    open spec fn after(&self, request: R, cx: JsonRpcRequestCx) -> Self {
        arbitrary()
    }

    /// Takes the request.
    fn call(&mut self, request: R, cx: JsonRpcRequestCx) -> (r: Result<(), RpcError>)
        ensures
            outcome_view(r) == old(self).outcome(request, cx),
            *final(self) == old(self).after(request, cx),
    ;
}

/// What is done with a notification of type `N` once it is read.
pub trait NotificationCallback<N>: Sized {
    /// The outcome of the callback.
    open spec fn outcome(&self, notification: N, cx: JsonRpcNotificationCx) -> Result<
        (),
        RpcErrorView,
    > {
        arbitrary()
    }

    /// The callback after the call.
    open spec fn after(&self, notification: N, cx: JsonRpcNotificationCx) -> Self {
        arbitrary()
    }

    /// Takes the notification.
    fn call(&mut self, notification: N, cx: JsonRpcNotificationCx) -> (r: Result<(), RpcError>)
        ensures
            outcome_view(r) == old(self).outcome(notification, cx),
            *final(self) == old(self).after(notification, cx),
    ;
}

/// The handler of the requests of one type: it takes the requests that
/// read as an `R`, fails with the reading's error where the parameters do
/// not fit, and leaves every other request, and every notification, to the
/// next handler.
#[derive(Debug)]
pub struct RequestHandler<R, F> where R: JsonRpcMessage, F: RequestCallback<R> {
    pub handler: F,
    pub phantom: PhantomData<R>,
}

/// The handler of the notifications of one type.
#[derive(Debug)]
pub struct NotificationHandler<N, F> where N: JsonRpcMessage, F: NotificationCallback<N> {
    pub handler: F,
    pub phantom: PhantomData<N>,
}

impl<R, F> RequestHandler<R, F> where R: JsonRpcMessage, F: RequestCallback<R> {
    /// The handler that calls `handler` with each request of type `R`.
    pub fn new(handler: F) -> (r: Self)
        ensures
            r.handler == handler,
    {
        RequestHandler { handler, phantom: PhantomData }
    }
}

impl<N, F> NotificationHandler<N, F> where N: JsonRpcMessage, F: NotificationCallback<N> {
    /// The handler that calls `handler` with each notification of type `N`.
    pub fn new(handler: F) -> (r: Self)
        ensures
            r.handler == handler,
    {
        NotificationHandler { handler, phantom: PhantomData }
    }
}

impl<R, F> JsonRpcHandler for RequestHandler<R, F> where R: JsonRpcMessage, F: RequestCallback<R> {
    open spec fn request_answer(&self, cx: JsonRpcRequestCx, params: Option<JsonView>) -> Result<
        Handled<JsonRpcRequestCx>,
        RpcErrorView,
    > {
        match R::parsed(cx.method@, params) {
            Some(Ok(request)) => match self.handler.outcome(request, cx) {
                Ok(()) => Ok(Handled::Yes),
                Err(e) => Err(e),
            },
            Some(Err(e)) => Err(e),
            None => Ok(Handled::No(cx)),
        }
    }

    open spec fn after_request(&self, cx: JsonRpcRequestCx, params: Option<JsonView>) -> Self {
        match R::parsed(cx.method@, params) {
            Some(Ok(request)) => RequestHandler {
                handler: self.handler.after(request, cx),
                phantom: self.phantom,
            },
            _ => *self,
        }
    }

    open spec fn notification_answer(
        &self,
        cx: JsonRpcNotificationCx,
        params: Option<JsonView>,
    ) -> Result<Handled<JsonRpcNotificationCx>, RpcErrorView> {
        Ok(Handled::No(cx))
    }

    open spec fn after_notification(&self, cx: JsonRpcNotificationCx, params: Option<JsonView>) -> Self {
        *self
    }

    open spec fn description(&self) -> Seq<char> {
        "request"@
    }

    fn handle_request(&mut self, cx: JsonRpcRequestCx, params: &Option<Json>) -> (r: Result<
        Handled<JsonRpcRequestCx>,
        RpcError,
    >) {
        match R::parse(cx.method(), params) {
            Some(Ok(request)) => {
                match self.handler.call(request, cx) {
                    Ok(()) => Ok(Handled::Yes),
                    Err(e) => Err(e),
                }
            },
            Some(Err(e)) => Err(e),
            None => Ok(Handled::No(cx)),
        }
    }

    fn handle_notification(&mut self, cx: JsonRpcNotificationCx, params: &Option<Json>) -> (r:
        Result<Handled<JsonRpcNotificationCx>, RpcError>) {
        Ok(Handled::No(cx))
    }

    fn describe_chain(&self) -> (r: String) {
        String::from_str("request")
    }
}

impl<N, F> JsonRpcHandler for NotificationHandler<N, F> where
    N: JsonRpcMessage,
    F: NotificationCallback<N>,
 {
    open spec fn request_answer(&self, cx: JsonRpcRequestCx, params: Option<JsonView>) -> Result<
        Handled<JsonRpcRequestCx>,
        RpcErrorView,
    > {
        Ok(Handled::No(cx))
    }

    open spec fn after_request(&self, cx: JsonRpcRequestCx, params: Option<JsonView>) -> Self {
        *self
    }

    open spec fn notification_answer(
        &self,
        cx: JsonRpcNotificationCx,
        params: Option<JsonView>,
    ) -> Result<Handled<JsonRpcNotificationCx>, RpcErrorView> {
        match N::parsed(cx.method@, params) {
            Some(Ok(notification)) => match self.handler.outcome(notification, cx) {
                Ok(()) => Ok(Handled::Yes),
                Err(e) => Err(e),
            },
            Some(Err(e)) => Err(e),
            None => Ok(Handled::No(cx)),
        }
    }

    open spec fn after_notification(&self, cx: JsonRpcNotificationCx, params: Option<JsonView>) -> Self {
        match N::parsed(cx.method@, params) {
            Some(Ok(notification)) => NotificationHandler {
                handler: self.handler.after(notification, cx),
                phantom: self.phantom,
            },
            _ => *self,
        }
    }

    open spec fn description(&self) -> Seq<char> {
        "notification"@
    }

    fn handle_request(&mut self, cx: JsonRpcRequestCx, params: &Option<Json>) -> (r: Result<
        Handled<JsonRpcRequestCx>,
        RpcError,
    >) {
        Ok(Handled::No(cx))
    }

    fn handle_notification(&mut self, cx: JsonRpcNotificationCx, params: &Option<Json>) -> (r:
        Result<Handled<JsonRpcNotificationCx>, RpcError>) {
        match N::parse(cx.method(), params) {
            Some(Ok(notification)) => {
                match self.handler.call(notification, cx) {
                    Ok(()) => Ok(Handled::Yes),
                    Err(e) => Err(e),
                }
            },
            Some(Err(e)) => Err(e),
            None => Ok(Handled::No(cx)),
        }
    }

    fn describe_chain(&self) -> (r: String) {
        String::from_str("notification")
    }
}

/// The method under which a request of the successor reaches a proxy.
pub const METHOD_RECEIVE_REQUEST: &'static str = "_proxy/successor/receive/request";

/// The method under which a notification of the successor reaches a proxy.
pub const METHOD_RECEIVE_NOTIFICATION: &'static str = "_proxy/successor/receive/notification";

/// The handler of the requests of one type that come from the successor.
/// Such a request travels under the method for that, with its own method
/// and parameters inside.
#[derive(Debug)]
pub struct RequestFromSuccessorHandler<R, F> where R: JsonRpcMessage, F: RequestCallback<R> {
    pub handler: F,
    pub phantom: PhantomData<R>,
}

/// The handler of the notifications of one type that come from the
/// successor.
#[derive(Debug)]
pub struct NotificationFromSuccessorHandler<N, F> where
    N: JsonRpcMessage,
    F: NotificationCallback<N>,
 {
    pub handler: F,
    pub phantom: PhantomData<N>,
}

impl<R, F> RequestFromSuccessorHandler<R, F> where R: JsonRpcMessage, F: RequestCallback<R> {
    /// The handler that calls `handler` with each request of type `R` from
    /// the successor.
    pub fn new(handler: F) -> (r: Self)
        ensures
            r.handler == handler,
    {
        RequestFromSuccessorHandler { handler, phantom: PhantomData }
    }
}

impl<N, F> NotificationFromSuccessorHandler<N, F> where
    N: JsonRpcMessage,
    F: NotificationCallback<N>,
 {
    /// The handler that calls `handler` with each notification of type `N`
    /// from the successor.
    pub fn new(handler: F) -> (r: Self)
        ensures
            r.handler == handler,
    {
        NotificationFromSuccessorHandler { handler, phantom: PhantomData }
    }
}

/// What a message from the successor reads as: nothing where it travels
/// under another method or holds a message of another type, the error for
/// parameters that do not fit, or the message inside.
pub open spec fn parsed_from_successor<M: JsonRpcMessage>(
    outer: Seq<char>,
    method: Seq<char>,
    params: Option<JsonView>,
) -> Option<Result<M, RpcErrorView>> {
    if method != outer {
        None
    } else {
        match successor_args(params) {
            Ok(inner) => M::parsed(inner.method, inner.params),
            Err(e) => Some(Err(e)),
        }
    }
}

/// Reads a message from the successor that travels under `outer`.
pub fn parse_from_successor<M: JsonRpcMessage>(outer: &str, method: &str, params: &Option<Json>) -> (r:
    Option<Result<M, RpcError>>)
    ensures
        parsed_view(r) == parsed_from_successor::<M>(outer@, method@, opt_json_view(*params)),
{
    if !crate::text::same_text(method, outer) {
        return None;
    }
    match read_successor_args(params) {
        Ok(inner) => M::parse(inner.method.as_str(), &inner.params),
        Err(e) => Some(Err(e)),
    }
}

impl<R, F> JsonRpcHandler for RequestFromSuccessorHandler<R, F> where
    R: JsonRpcMessage,
    F: RequestCallback<R>,
 {
    open spec fn request_answer(&self, cx: JsonRpcRequestCx, params: Option<JsonView>) -> Result<
        Handled<JsonRpcRequestCx>,
        RpcErrorView,
    > {
        match parsed_from_successor::<R>(METHOD_RECEIVE_REQUEST@, cx.method@, params) {
            Some(Ok(request)) => match self.handler.outcome(request, cx) {
                Ok(()) => Ok(Handled::Yes),
                Err(e) => Err(e),
            },
            Some(Err(e)) => Err(e),
            None => Ok(Handled::No(cx)),
        }
    }

    open spec fn after_request(&self, cx: JsonRpcRequestCx, params: Option<JsonView>) -> Self {
        match parsed_from_successor::<R>(METHOD_RECEIVE_REQUEST@, cx.method@, params) {
            Some(Ok(request)) => RequestFromSuccessorHandler {
                handler: self.handler.after(request, cx),
                phantom: self.phantom,
            },
            _ => *self,
        }
    }

    open spec fn notification_answer(
        &self,
        cx: JsonRpcNotificationCx,
        params: Option<JsonView>,
    ) -> Result<Handled<JsonRpcNotificationCx>, RpcErrorView> {
        Ok(Handled::No(cx))
    }

    open spec fn after_notification(&self, cx: JsonRpcNotificationCx, params: Option<JsonView>) -> Self {
        *self
    }

    open spec fn description(&self) -> Seq<char> {
        "request from successor"@
    }

    fn handle_request(&mut self, cx: JsonRpcRequestCx, params: &Option<Json>) -> (r: Result<
        Handled<JsonRpcRequestCx>,
        RpcError,
    >) {
        match parse_from_successor::<R>(METHOD_RECEIVE_REQUEST, cx.method(), params) {
            Some(Ok(request)) => {
                match self.handler.call(request, cx) {
                    Ok(()) => Ok(Handled::Yes),
                    Err(e) => Err(e),
                }
            },
            Some(Err(e)) => Err(e),
            None => Ok(Handled::No(cx)),
        }
    }

    fn handle_notification(&mut self, cx: JsonRpcNotificationCx, params: &Option<Json>) -> (r:
        Result<Handled<JsonRpcNotificationCx>, RpcError>) {
        Ok(Handled::No(cx))
    }

    fn describe_chain(&self) -> (r: String) {
        String::from_str("request from successor")
    }
}

impl<N, F> JsonRpcHandler for NotificationFromSuccessorHandler<N, F> where
    N: JsonRpcMessage,
    F: NotificationCallback<N>,
 {
    open spec fn request_answer(&self, cx: JsonRpcRequestCx, params: Option<JsonView>) -> Result<
        Handled<JsonRpcRequestCx>,
        RpcErrorView,
    > {
        Ok(Handled::No(cx))
    }

    open spec fn after_request(&self, cx: JsonRpcRequestCx, params: Option<JsonView>) -> Self {
        *self
    }

    open spec fn notification_answer(
        &self,
        cx: JsonRpcNotificationCx,
        params: Option<JsonView>,
    ) -> Result<Handled<JsonRpcNotificationCx>, RpcErrorView> {
        match parsed_from_successor::<N>(METHOD_RECEIVE_NOTIFICATION@, cx.method@, params) {
            Some(Ok(notification)) => match self.handler.outcome(notification, cx) {
                Ok(()) => Ok(Handled::Yes),
                Err(e) => Err(e),
            },
            Some(Err(e)) => Err(e),
            None => Ok(Handled::No(cx)),
        }
    }

    open spec fn after_notification(&self, cx: JsonRpcNotificationCx, params: Option<JsonView>) -> Self {
        match parsed_from_successor::<N>(METHOD_RECEIVE_NOTIFICATION@, cx.method@, params) {
            Some(Ok(notification)) => NotificationFromSuccessorHandler {
                handler: self.handler.after(notification, cx),
                phantom: self.phantom,
            },
            _ => *self,
        }
    }

    open spec fn description(&self) -> Seq<char> {
        "notification from successor"@
    }

    fn handle_request(&mut self, cx: JsonRpcRequestCx, params: &Option<Json>) -> (r: Result<
        Handled<JsonRpcRequestCx>,
        RpcError,
    >) {
        Ok(Handled::No(cx))
    }

    fn handle_notification(&mut self, cx: JsonRpcNotificationCx, params: &Option<Json>) -> (r:
        Result<Handled<JsonRpcNotificationCx>, RpcError>) {
        match parse_from_successor::<N>(METHOD_RECEIVE_NOTIFICATION, cx.method(), params) {
            Some(Ok(notification)) => {
                match self.handler.call(notification, cx) {
                    Ok(()) => Ok(Handled::Yes),
                    Err(e) => Err(e),
                }
            },
            Some(Err(e)) => Err(e),
            None => Ok(Handled::No(cx)),
        }
    }

    fn describe_chain(&self) -> (r: String) {
        String::from_str("notification from successor")
    }
}

/// What is done with any message, in untyped form.
pub trait MessageCallback: Sized {
    /// The outcome for a request.
    open spec fn request_outcome(&self, message: UntypedView, cx: JsonRpcRequestCx) -> Result<
        (),
        RpcErrorView,
    > {
        arbitrary()
    }

    /// The callback after a request.
    open spec fn after_request(&self, message: UntypedView, cx: JsonRpcRequestCx) -> Self {
        arbitrary()
    }

    /// The outcome for a notification.
    open spec fn notification_outcome(&self, message: UntypedView, cx: JsonRpcNotificationCx) -> Result<
        (),
        RpcErrorView,
    > {
        arbitrary()
    }

    /// The callback after a notification.
    open spec fn after_notification(&self, message: UntypedView, cx: JsonRpcNotificationCx) -> Self {
        arbitrary()
    }

    /// Takes a request.
    fn on_request(&mut self, message: UntypedMessage, cx: JsonRpcRequestCx) -> (r: Result<
        (),
        RpcError,
    >)
        ensures
            outcome_view(r) == old(self).request_outcome(message@, cx),
            *final(self) == old(self).after_request(message@, cx),
    ;

    /// Takes a notification.
    fn on_notification(&mut self, message: UntypedMessage, cx: JsonRpcNotificationCx) -> (r:
        Result<(), RpcError>)
        ensures
            outcome_view(r) == old(self).notification_outcome(message@, cx),
            *final(self) == old(self).after_notification(message@, cx),
    ;
}

/// The handler that takes every message and hands it, untyped, to its
/// callback: what a proxy uses that relays any method.
#[derive(Debug)]
pub struct GenericHandler<F> where F: MessageCallback {
    pub callback: F,
}

impl<F> GenericHandler<F> where F: MessageCallback {
    /// The handler that hands every message to `callback`.
    pub fn send_to(callback: F) -> (r: Self)
        ensures
            r.callback == callback,
    {
        GenericHandler { callback }
    }
}

impl<F> JsonRpcHandler for GenericHandler<F> where F: MessageCallback {
    open spec fn request_answer(&self, cx: JsonRpcRequestCx, params: Option<JsonView>) -> Result<
        Handled<JsonRpcRequestCx>,
        RpcErrorView,
    > {
        match self.callback.request_outcome(UntypedView { method: cx.method@, params }, cx) {
            Ok(()) => Ok(Handled::Yes),
            Err(e) => Err(e),
        }
    }

    open spec fn after_request(&self, cx: JsonRpcRequestCx, params: Option<JsonView>) -> Self {
        GenericHandler {
            callback: self.callback.after_request(UntypedView { method: cx.method@, params }, cx),
        }
    }

    open spec fn notification_answer(
        &self,
        cx: JsonRpcNotificationCx,
        params: Option<JsonView>,
    ) -> Result<Handled<JsonRpcNotificationCx>, RpcErrorView> {
        match self.callback.notification_outcome(UntypedView { method: cx.method@, params }, cx) {
            Ok(()) => Ok(Handled::Yes),
            Err(e) => Err(e),
        }
    }

    open spec fn after_notification(&self, cx: JsonRpcNotificationCx, params: Option<JsonView>) -> Self {
        GenericHandler {
            callback: self.callback.after_notification(
                UntypedView { method: cx.method@, params },
                cx,
            ),
        }
    }

    open spec fn description(&self) -> Seq<char> {
        "(all messages)"@
    }

    fn handle_request(&mut self, cx: JsonRpcRequestCx, params: &Option<Json>) -> (r: Result<
        Handled<JsonRpcRequestCx>,
        RpcError,
    >) {
        let message = UntypedMessage {
            method: cx.method.clone(),
            params: match params {
                Some(p) => Some(p.clone()),
                None => None,
            },
        };
        match self.callback.on_request(message, cx) {
            Ok(()) => Ok(Handled::Yes),
            Err(e) => Err(e),
        }
    }

    fn handle_notification(&mut self, cx: JsonRpcNotificationCx, params: &Option<Json>) -> (r:
        Result<Handled<JsonRpcNotificationCx>, RpcError>) {
        let message = UntypedMessage {
            method: cx.method.clone(),
            params: match params {
                Some(p) => Some(p.clone()),
                None => None,
            },
        };
        match self.callback.on_notification(message, cx) {
            Ok(()) => Ok(Handled::Yes),
            Err(e) => Err(e),
        }
    }

    fn describe_chain(&self) -> (r: String) {
        String::from_str("(all messages)")
    }
}

/// What a proxy, or the conductor, does with the MCP messages that reach it
/// over ACP.
pub trait AcpMcpCallbacks: Sized {
    /// The outcome for an MCP request.
    open spec fn request_outcome(&self, request: UntypedView, cx: JsonRpcRequestCx) -> Result<
        (),
        RpcErrorView,
    > {
        arbitrary()
    }

    /// The callbacks after an MCP request.
    open spec fn after_request(&self, request: UntypedView, cx: JsonRpcRequestCx) -> Self {
        arbitrary()
    }

    /// The outcome for an MCP notification.
    open spec fn notification_outcome(
        &self,
        notification: UntypedView,
        cx: JsonRpcNotificationCx,
    ) -> Result<(), RpcErrorView> {
        arbitrary()
    }

    /// The callbacks after an MCP notification.
    open spec fn after_notification(
        &self,
        notification: UntypedView,
        cx: JsonRpcNotificationCx,
    ) -> Self {
        arbitrary()
    }

    /// Takes an MCP request.
    fn mcp_request(&mut self, request: UntypedMessage, request_cx: JsonRpcRequestCx) -> (r: Result<
        (),
        RpcError,
    >)
        ensures
            outcome_view(r) == old(self).request_outcome(request@, request_cx),
            *final(self) == old(self).after_request(request@, request_cx),
    ;

    /// Takes an MCP notification.
    fn mcp_notification(
        &mut self,
        notification: UntypedMessage,
        notification_cx: JsonRpcNotificationCx,
    ) -> (r: Result<(), RpcError>)
        ensures
            outcome_view(r) == old(self).notification_outcome(notification@, notification_cx),
            *final(self) == old(self).after_notification(notification@, notification_cx),
    ;
}

/// The handler of the MCP messages that travel inside ACP: it takes what
/// comes under `_mcp/request` and `_mcp/notification`, reads the MCP
/// message inside, and hands it to its callbacks.
#[derive(Debug)]
pub struct AcpMcpMessages<CB> where CB: AcpMcpCallbacks {
    pub callbacks: CB,
}

impl<CB> AcpMcpMessages<CB> where CB: AcpMcpCallbacks {
    /// The handler that hands MCP messages to `callbacks`.
    pub fn callback(callbacks: CB) -> (r: Self)
        ensures
            r.callbacks == callbacks,
    {
        AcpMcpMessages { callbacks }
    }
}

impl<CB> JsonRpcHandler for AcpMcpMessages<CB> where CB: AcpMcpCallbacks {
    open spec fn request_answer(&self, cx: JsonRpcRequestCx, params: Option<JsonView>) -> Result<
        Handled<JsonRpcRequestCx>,
        RpcErrorView,
    > {
        if cx.method@ != "_mcp/request"@ {
            Ok(Handled::No(cx))
        } else {
            match successor_args(params) {
                Ok(inner) => match self.callbacks.request_outcome(inner, cx) {
                    Ok(()) => Ok(Handled::Yes),
                    Err(e) => Err(e),
                },
                Err(e) => Err(e),
            }
        }
    }

    open spec fn after_request(&self, cx: JsonRpcRequestCx, params: Option<JsonView>) -> Self {
        if cx.method@ != "_mcp/request"@ {
            *self
        } else {
            match successor_args(params) {
                Ok(inner) => AcpMcpMessages { callbacks: self.callbacks.after_request(inner, cx) },
                Err(_) => *self,
            }
        }
    }

    open spec fn notification_answer(
        &self,
        cx: JsonRpcNotificationCx,
        params: Option<JsonView>,
    ) -> Result<Handled<JsonRpcNotificationCx>, RpcErrorView> {
        if cx.method@ != "_mcp/notification"@ {
            Ok(Handled::No(cx))
        } else {
            match successor_args(params) {
                Ok(inner) => match self.callbacks.notification_outcome(inner, cx) {
                    Ok(()) => Ok(Handled::Yes),
                    Err(e) => Err(e),
                },
                Err(e) => Err(e),
            }
        }
    }

    open spec fn after_notification(&self, cx: JsonRpcNotificationCx, params: Option<JsonView>) -> Self {
        if cx.method@ != "_mcp/notification"@ {
            *self
        } else {
            match successor_args(params) {
                Ok(inner) => AcpMcpMessages {
                    callbacks: self.callbacks.after_notification(inner, cx),
                },
                Err(_) => *self,
            }
        }
    }

    open spec fn description(&self) -> Seq<char> {
        "mcp over acp"@
    }

    fn handle_request(&mut self, cx: JsonRpcRequestCx, params: &Option<Json>) -> (r: Result<
        Handled<JsonRpcRequestCx>,
        RpcError,
    >) {
        if !crate::text::same_text(cx.method(), "_mcp/request") {
            return Ok(Handled::No(cx));
        }
        match read_successor_args(params) {
            Ok(request) => match self.callbacks.mcp_request(request, cx) {
                Ok(()) => Ok(Handled::Yes),
                Err(e) => Err(e),
            },
            Err(e) => Err(e),
        }
    }

    fn handle_notification(&mut self, cx: JsonRpcNotificationCx, params: &Option<Json>) -> (r:
        Result<Handled<JsonRpcNotificationCx>, RpcError>) {
        if !crate::text::same_text(cx.method(), "_mcp/notification") {
            return Ok(Handled::No(cx));
        }
        match read_successor_args(params) {
            Ok(notification) => match self.callbacks.mcp_notification(notification, cx) {
                Ok(()) => Ok(Handled::Yes),
                Err(e) => Err(e),
            },
            Err(e) => Err(e),
        }
    }

    fn describe_chain(&self) -> (r: String) {
        String::from_str("mcp over acp")
    }
}

/// What the conductor does when a proxy asks that a message be sent to its
/// successor.
pub trait ConductorCallbacks: Sized {
    /// The outcome for a request to the successor.
    open spec fn request_outcome(&self, args: UntypedView, cx: JsonRpcRequestCx) -> Result<
        (),
        RpcErrorView,
    > {
        arbitrary()
    }

    /// The callbacks after a request to the successor.
    open spec fn after_request(&self, args: UntypedView, cx: JsonRpcRequestCx) -> Self {
        arbitrary()
    }

    /// The outcome for a notification to the successor.
    open spec fn notification_outcome(&self, args: UntypedView, cx: JsonRpcNotificationCx) -> Result<
        (),
        RpcErrorView,
    > {
        arbitrary()
    }

    /// The callbacks after a notification to the successor.
    open spec fn after_notification(&self, args: UntypedView, cx: JsonRpcNotificationCx) -> Self {
        arbitrary()
    }

    /// Takes a request for the successor.
    fn successor_send_request(&mut self, args: UntypedMessage, response: JsonRpcRequestCx) -> (r:
        Result<(), RpcError>)
        ensures
            outcome_view(r) == old(self).request_outcome(args@, response),
            *final(self) == old(self).after_request(args@, response),
    ;

    /// Takes a notification for the successor.
    fn successor_send_notification(&mut self, args: UntypedMessage, cx: JsonRpcNotificationCx) -> (r:
        Result<(), RpcError>)
        ensures
            outcome_view(r) == old(self).notification_outcome(args@, cx),
            *final(self) == old(self).after_notification(args@, cx),
    ;
}

/// The handler of the messages that a proxy sends for its successor: it
/// takes what comes under the two methods for that, and hands the message
/// inside to its callbacks.
#[derive(Debug)]
pub struct AcpConductorMessages<CB> where CB: ConductorCallbacks {
    pub callbacks: CB,
}

impl<CB> AcpConductorMessages<CB> where CB: ConductorCallbacks {
    /// The handler that hands messages for the successor to `callbacks`.
    pub fn new(callbacks: CB) -> (r: Self)
        ensures
            r.callbacks == callbacks,
    {
        AcpConductorMessages { callbacks }
    }
}

impl<CB> JsonRpcHandler for AcpConductorMessages<CB> where CB: ConductorCallbacks {
    open spec fn request_answer(&self, cx: JsonRpcRequestCx, params: Option<JsonView>) -> Result<
        Handled<JsonRpcRequestCx>,
        RpcErrorView,
    > {
        if cx.method@ != "_proxy/successor/send/request"@ {
            Ok(Handled::No(cx))
        } else {
            match successor_args(params) {
                Ok(inner) => match self.callbacks.request_outcome(inner, cx) {
                    Ok(()) => Ok(Handled::Yes),
                    Err(e) => Err(e),
                },
                Err(e) => Err(e),
            }
        }
    }

    open spec fn after_request(&self, cx: JsonRpcRequestCx, params: Option<JsonView>) -> Self {
        if cx.method@ != "_proxy/successor/send/request"@ {
            *self
        } else {
            match successor_args(params) {
                Ok(inner) => AcpConductorMessages {
                    callbacks: self.callbacks.after_request(inner, cx),
                },
                Err(_) => *self,
            }
        }
    }

    open spec fn notification_answer(
        &self,
        cx: JsonRpcNotificationCx,
        params: Option<JsonView>,
    ) -> Result<Handled<JsonRpcNotificationCx>, RpcErrorView> {
        if cx.method@ != "_proxy/successor/send/notification"@ {
            Ok(Handled::No(cx))
        } else {
            match successor_args(params) {
                Ok(inner) => match self.callbacks.notification_outcome(inner, cx) {
                    Ok(()) => Ok(Handled::Yes),
                    Err(e) => Err(e),
                },
                Err(e) => Err(e),
            }
        }
    }

    open spec fn after_notification(&self, cx: JsonRpcNotificationCx, params: Option<JsonView>) -> Self {
        if cx.method@ != "_proxy/successor/send/notification"@ {
            *self
        } else {
            match successor_args(params) {
                Ok(inner) => AcpConductorMessages {
                    callbacks: self.callbacks.after_notification(inner, cx),
                },
                Err(_) => *self,
            }
        }
    }

    open spec fn description(&self) -> Seq<char> {
        "conductor"@
    }

    fn handle_request(&mut self, cx: JsonRpcRequestCx, params: &Option<Json>) -> (r: Result<
        Handled<JsonRpcRequestCx>,
        RpcError,
    >) {
        if !crate::text::same_text(cx.method(), "_proxy/successor/send/request") {
            return Ok(Handled::No(cx));
        }
        match read_successor_args(params) {
            Ok(args) => match self.callbacks.successor_send_request(args, cx) {
                Ok(()) => Ok(Handled::Yes),
                Err(e) => Err(e),
            },
            Err(e) => Err(e),
        }
    }

    fn handle_notification(&mut self, cx: JsonRpcNotificationCx, params: &Option<Json>) -> (r:
        Result<Handled<JsonRpcNotificationCx>, RpcError>) {
        if !crate::text::same_text(cx.method(), "_proxy/successor/send/notification") {
            return Ok(Handled::No(cx));
        }
        match read_successor_args(params) {
            Ok(args) => match self.callbacks.successor_send_notification(args, cx) {
                Ok(()) => Ok(Handled::Yes),
                Err(e) => Err(e),
            },
            Err(e) => Err(e),
        }
    }

    fn describe_chain(&self) -> (r: String) {
        String::from_str("conductor")
    }
}

} // verus!
