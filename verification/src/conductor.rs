//! The conductor: an ordered chain of components between an editor and an
//! agent. It launches the components in order, negotiates the proxy role
//! during `initialize`, and decides for every message which neighbour gets
//! it and how the answer travels back.

use crate::capability::{add_capability, granted, has_capability, holds, proxy_capability};
use crate::capability::{granted_is_held, remove_capability, revoked, revoked_is_not_held};
use crate::error::{opt_json_view, plain_error, RpcError, RpcErrorView, INTERNAL_ERROR};
use crate::json::{lookup, with_member, Json, JsonView};
use crate::json::lookup_put_same;
use crate::text::{decimal, decimal_string, same_text, texts};
use vstd::prelude::*;

verus! {

/// A neighbour of the conductor: the editor, or the component at a position
/// of the chain.
#[derive(Clone, Copy, Debug, PartialEq, Eq, Structural)]
pub enum Peer {
    Editor,
    Component(usize),
}

/// A request or notification by its method name and untyped parameters.
#[derive(Debug)]
pub struct UntypedMessage {
    pub method: String,
    pub params: Option<Json>,
}

/// The mathematical value of an [`UntypedMessage`].
pub struct UntypedView {
    pub method: Seq<char>,
    pub params: Option<JsonView>,
}

impl View for UntypedMessage {
    type V = UntypedView;

    open spec fn view(&self) -> UntypedView {
        UntypedView { method: self.method@, params: opt_json_view(self.params) }
    }
}

/// An ACP message on its way through the chain.
#[derive(Debug)]
pub enum AcpMessage {
    Request(UntypedMessage),
    Notification(UntypedMessage),
}

/// What the conductor is told: a message from one of its neighbours, or an
/// error that a relaying task met.
#[derive(Debug)]
pub enum ConductorMessage {
    /// The editor sent a message towards the agent.
    ClientToAgentViaProxyChain { message: AcpMessage },
    /// A component sent a message towards the editor.
    ComponentToItsClientMessage { component_index: usize, message: AcpMessage },
    /// A proxy asks that a request be sent to the component after it.
    ComponentToItsSuccessorSendRequest { component_index: usize, args: UntypedMessage },
    /// A proxy asks that a notification be sent to the component after it.
    ComponentToItsSuccessorSendNotification { component_index: usize, args: UntypedMessage },
    /// A task that relayed a response failed.
    Error { error: RpcError },
}

/// How the answer to a forwarded request reaches the one who asked.
#[derive(Clone, Copy, Debug, PartialEq, Eq, Structural)]
pub enum ReplyRoute {
    /// The result, or the error, is the response itself.
    Direct,
    /// Result and error alike travel inside a successful response, as the
    /// outcome of the successor's call.
    SuccessorResponse,
}

/// What the conductor does with a message.
#[derive(Debug)]
pub enum ConductorAction {
    /// Send the request to `to`; its response goes to `reply_to` by `reply`.
    /// Where `confirm_proxy` names a component, the response must confirm
    /// the proxy role for it.
    ForwardRequest {
        to: Peer,
        reply_to: Peer,
        reply: ReplyRoute,
        confirm_proxy: Option<usize>,
        message: UntypedMessage,
    },
    /// Send the notification to `to`.
    ForwardNotification { to: Peer, message: UntypedMessage },
    /// Answer the request of `to` with an error.
    RespondWithError { to: Peer, error: RpcError },
    /// Tell `to` of an error in a notification.
    SendErrorNotification { to: Peer, error: RpcError },
    /// Record the error; nothing is sent.
    LogError { error: RpcError },
    /// The handshake failed before: nothing is routed any more.
    Halted,
}

/// The mathematical value of an [`AcpMessage`].
pub enum AcpMessageView {
    Request(UntypedView),
    Notification(UntypedView),
}

/// The mathematical value of a [`ConductorMessage`].
pub enum ConductorMessageView {
    ClientToAgentViaProxyChain { message: AcpMessageView },
    ComponentToItsClientMessage { component_index: usize, message: AcpMessageView },
    ComponentToItsSuccessorSendRequest { component_index: usize, args: UntypedView },
    ComponentToItsSuccessorSendNotification { component_index: usize, args: UntypedView },
    Error { error: RpcErrorView },
}

/// The mathematical value of a [`ConductorAction`].
pub enum ConductorActionView {
    ForwardRequest {
        to: Peer,
        reply_to: Peer,
        reply: ReplyRoute,
        confirm_proxy: Option<usize>,
        message: UntypedView,
    },
    ForwardNotification { to: Peer, message: UntypedView },
    RespondWithError { to: Peer, error: RpcErrorView },
    SendErrorNotification { to: Peer, error: RpcErrorView },
    LogError { error: RpcErrorView },
    Halted,
}

impl View for AcpMessage {
    type V = AcpMessageView;

    open spec fn view(&self) -> AcpMessageView {
        match self {
            AcpMessage::Request(m) => AcpMessageView::Request(m@),
            AcpMessage::Notification(m) => AcpMessageView::Notification(m@),
        }
    }
}

impl View for ConductorMessage {
    type V = ConductorMessageView;

    open spec fn view(&self) -> ConductorMessageView {
        match self {
            ConductorMessage::ClientToAgentViaProxyChain { message } => {
                ConductorMessageView::ClientToAgentViaProxyChain { message: message@ }
            },
            ConductorMessage::ComponentToItsClientMessage { component_index, message } => {
                ConductorMessageView::ComponentToItsClientMessage {
                    component_index: *component_index,
                    message: message@,
                }
            },
            ConductorMessage::ComponentToItsSuccessorSendRequest { component_index, args } => {
                ConductorMessageView::ComponentToItsSuccessorSendRequest {
                    component_index: *component_index,
                    args: args@,
                }
            },
            ConductorMessage::ComponentToItsSuccessorSendNotification { component_index, args } => {
                ConductorMessageView::ComponentToItsSuccessorSendNotification {
                    component_index: *component_index,
                    args: args@,
                }
            },
            ConductorMessage::Error { error } => ConductorMessageView::Error { error: error@ },
        }
    }
}

impl View for ConductorAction {
    type V = ConductorActionView;

    open spec fn view(&self) -> ConductorActionView {
        match self {
            ConductorAction::ForwardRequest { to, reply_to, reply, confirm_proxy, message } => {
                ConductorActionView::ForwardRequest {
                    to: *to,
                    reply_to: *reply_to,
                    reply: *reply,
                    confirm_proxy: *confirm_proxy,
                    message: message@,
                }
            },
            ConductorAction::ForwardNotification { to, message } => {
                ConductorActionView::ForwardNotification { to: *to, message: message@ }
            },
            ConductorAction::RespondWithError { to, error } => {
                ConductorActionView::RespondWithError { to: *to, error: error@ }
            },
            ConductorAction::SendErrorNotification { to, error } => {
                ConductorActionView::SendErrorNotification { to: *to, error: error@ }
            },
            ConductorAction::LogError { error } => ConductorActionView::LogError { error: error@ },
            ConductorAction::Halted => ConductorActionView::Halted,
        }
    }
}

/// The method by which a session opens.
pub open spec fn initialize_method() -> Seq<char> {
    "initialize"@
}

/// The member of a message's parameters, or of a result, that holds its
/// metadata.
pub open spec fn meta_key() -> Seq<char> {
    "_meta"@
}

/// The metadata of a message's parameters or of a result.
pub open spec fn meta_of(body: Option<JsonView>) -> Option<JsonView> {
    match body {
        Some(b) => lookup(b, meta_key()),
        None => None,
    }
}

/// Whether the parameters of an `initialize` offer the proxy role, and
/// whether a result confirms it.
pub open spec fn carries_proxy(body: Option<JsonView>) -> bool {
    holds(meta_of(body), proxy_capability())
}

/// Whether the component at `index` of a chain of `chain_len` is offered the
/// proxy role: every component but the last is.
pub open spec fn proxy_offered(chain_len: int, index: int) -> bool {
    0 <= index && index + 1 < chain_len
}

/// The parameters of the `initialize` that a component receives: with the
/// proxy role offered where `offer` holds, without it where not. All else in
/// the parameters stays.
pub open spec fn initialize_params(params: Option<JsonView>, offer: bool) -> Option<JsonView> {
    if offer {
        let p = match params {
            Some(p) => p,
            None => JsonView::Null,
        };
        Some(with_member(p, meta_key(), granted(lookup(p, meta_key()), proxy_capability())->Some_0))
    } else {
        match params {
            Some(p) => match lookup(p, meta_key()) {
                Some(meta) => Some(
                    with_member(p, meta_key(), revoked(Some(meta), proxy_capability())->Some_0),
                ),
                None => Some(p),
            },
            None => None,
        }
    }
}

/// The message as the component at `target` receives it: an `initialize`
/// with the proxy role offered or withheld by the component's position,
/// every other message as it came.
pub open spec fn outgoing(chain_len: int, target: int, m: UntypedView) -> UntypedView {
    if m.method == initialize_method() {
        UntypedView {
            method: m.method,
            params: initialize_params(m.params, proxy_offered(chain_len, target)),
        }
    } else {
        m
    }
}

/// The component whose confirmation the response to `m` owes, where `m` is
/// an `initialize` that offers `target` the proxy role.
pub open spec fn confirmation_owed(chain_len: int, target: usize, m: UntypedView) -> Option<usize> {
    if m.method == initialize_method() && proxy_offered(chain_len, target as int) {
        Some(target)
    } else {
        None
    }
}

/// The one a component's own messages go to: the component before it, or
/// the editor for the first.
pub open spec fn client_of(index: usize) -> Peer {
    if index == 0 {
        Peer::Editor
    } else {
        Peer::Component((index - 1) as usize)
    }
}

/// A request on its way to the component at `target`.
pub open spec fn forward_to_component(
    chain_len: int,
    target: usize,
    reply_to: Peer,
    reply: ReplyRoute,
    m: UntypedView,
) -> ConductorActionView {
    ConductorActionView::ForwardRequest {
        to: Peer::Component(target),
        reply_to,
        reply,
        confirm_proxy: confirmation_owed(chain_len, target, m),
        message: outgoing(chain_len, target as int, m),
    }
}

/// The routing policy: what is done with `message` in a chain of
/// `chain_len` components.
pub open spec fn routed(chain_len: int, message: ConductorMessageView) -> ConductorActionView {
    match message {
        ConductorMessageView::ClientToAgentViaProxyChain { message } => match message {
            AcpMessageView::Request(m) => forward_to_component(
                chain_len,
                0,
                Peer::Editor,
                ReplyRoute::Direct,
                m,
            ),
            AcpMessageView::Notification(m) => ConductorActionView::ForwardNotification {
                to: Peer::Component(0),
                message: m,
            },
        },
        ConductorMessageView::ComponentToItsClientMessage { component_index, message } => match message {
            AcpMessageView::Request(m) => ConductorActionView::ForwardRequest {
                to: client_of(component_index),
                reply_to: Peer::Component(component_index),
                reply: ReplyRoute::Direct,
                confirm_proxy: None,
                message: m,
            },
            AcpMessageView::Notification(m) => ConductorActionView::ForwardNotification {
                to: client_of(component_index),
                message: m,
            },
        },
        ConductorMessageView::ComponentToItsSuccessorSendRequest { component_index, args } => {
            if component_index + 1 < chain_len {
                forward_to_component(
                    chain_len,
                    (component_index + 1) as usize,
                    Peer::Component(component_index),
                    ReplyRoute::SuccessorResponse,
                    args,
                )
            } else {
                ConductorActionView::RespondWithError {
                    to: Peer::Component(component_index),
                    error: plain_error(INTERNAL_ERROR as int, "Internal error"@),
                }
            }
        },
        ConductorMessageView::ComponentToItsSuccessorSendNotification { component_index, args } => {
            if component_index + 1 < chain_len {
                ConductorActionView::ForwardNotification {
                    to: Peer::Component((component_index + 1) as usize),
                    message: args,
                }
            } else {
                ConductorActionView::SendErrorNotification {
                    to: Peer::Component(component_index),
                    error: plain_error(INTERNAL_ERROR as int, "Internal error"@),
                }
            }
        },
        ConductorMessageView::Error { error } => ConductorActionView::LogError { error },
    }
}

/// The component that a message says it came from, if it names one.
pub open spec fn sender_index(message: ConductorMessageView) -> Option<usize> {
    match message {
        ConductorMessageView::ComponentToItsClientMessage { component_index, .. } => Some(
            component_index,
        ),
        ConductorMessageView::ComponentToItsSuccessorSendRequest { component_index, .. } => Some(
            component_index,
        ),
        ConductorMessageView::ComponentToItsSuccessorSendNotification {
            component_index,
            ..
        } => Some(component_index),
        _ => None,
    }
}

/// The message of the error that fails a handshake: it names the component
/// that did not confirm the proxy role.
pub open spec fn not_a_proxy_message(index: nat) -> Seq<char> {
    "component "@ + decimal(index) + " is not a proxy"@
}

/// The error that fails a handshake.
pub open spec fn not_a_proxy(index: nat) -> RpcErrorView {
    plain_error(INTERNAL_ERROR as int, not_a_proxy_message(index))
}

/// The outcome of a forwarded request: a result or an error.
pub open spec fn outcome_view(outcome: Result<Json, RpcError>) -> Result<JsonView, RpcErrorView> {
    match outcome {
        Ok(v) => Ok(v@),
        Err(e) => Err(e@),
    }
}

/// Whether an outcome fails the handshake: it owes the confirmation of a
/// component and is a result that does not carry it.
pub open spec fn handshake_fails(
    confirm_proxy: Option<usize>,
    outcome: Result<JsonView, RpcErrorView>,
) -> bool {
    confirm_proxy is Some && outcome is Ok && !carries_proxy(Some(outcome->Ok_0))
}

/// An error as a JSON object: its code, its message, and its data where it
/// has some.
pub open spec fn error_json(e: RpcErrorView) -> JsonView {
    let base = with_member(
        with_member(JsonView::Null, "code"@, JsonView::Number(crate::text::signed_decimal(e.code))),
        "message"@,
        JsonView::Text(e.message),
    );
    match e.data {
        Some(d) => with_member(base, "data"@, d),
        None => base,
    }
}

/// The outcome of a successor's call as the result that carries it.
pub open spec fn successor_response(outcome: Result<JsonView, RpcErrorView>) -> JsonView {
    match outcome {
        Ok(v) => with_member(JsonView::Null, "result"@, v),
        Err(e) => with_member(JsonView::Null, "error"@, error_json(e)),
    }
}

/// What is sent back for an outcome that passed the handshake.
pub open spec fn relayed(reply: ReplyRoute, outcome: Result<JsonView, RpcErrorView>) -> Result<
    JsonView,
    RpcErrorView,
> {
    match reply {
        ReplyRoute::Direct => outcome,
        ReplyRoute::SuccessorResponse => Ok(successor_response(outcome)),
    }
}

/// What becomes of the outcome of a forwarded request.
#[derive(Debug)]
pub struct Settlement {
    /// The response for the one who asked.
    pub response: Result<Json, RpcError>,
    /// Where the handshake failed: the error with which the editor's
    /// `initialize` resolves.
    pub editor_failure: Option<RpcError>,
}

/// The value of an optional error.
pub open spec fn opt_error_view(e: Option<RpcError>) -> Option<RpcErrorView> {
    match e {
        Some(e) => Some(e@),
        None => None,
    }
}

/// The mathematical value of a [`Settlement`].
pub struct SettlementView {
    pub response: Result<JsonView, RpcErrorView>,
    pub editor_failure: Option<RpcErrorView>,
}

impl View for Settlement {
    type V = SettlementView;

    open spec fn view(&self) -> SettlementView {
        SettlementView {
            response: outcome_view(self.response),
            editor_failure: opt_error_view(self.editor_failure),
        }
    }
}

/// What becomes of an outcome: where it fails the handshake, the error that
/// names the component, for the one who asked and for the editor alike;
/// else the outcome, relayed.
pub open spec fn settled(
    reply: ReplyRoute,
    confirm_proxy: Option<usize>,
    outcome: Result<JsonView, RpcErrorView>,
) -> SettlementView {
    if handshake_fails(confirm_proxy, outcome) {
        SettlementView {
            response: Err(not_a_proxy(confirm_proxy->Some_0 as nat)),
            editor_failure: Some(not_a_proxy(confirm_proxy->Some_0 as nat)),
        }
    } else {
        SettlementView { response: relayed(reply, outcome), editor_failure: None }
    }
}

/// Whether `method` is `initialize`.
pub fn is_initialize(method: &str) -> (r: bool)
    ensures
        r == (method@ == initialize_method()),
{
    same_text(method, "initialize")
}

/// Whether the parameters of a message, or a result, carry the proxy role.
pub fn carries_proxy_capability(body: &Option<Json>) -> (r: bool)
    ensures
        r == carries_proxy(opt_json_view(*body)),
{
    match body {
        Some(b) => {
            let meta = match b.get("_meta") {
                Some(m) => Some(m.clone()),
                None => None,
            };
            has_capability(&meta, "proxy")
        },
        None => {
            let meta: Option<Json> = None;
            has_capability(&meta, "proxy")
        },
    }
}

/// The parameters of an `initialize` with the proxy role offered or
/// withheld.
pub fn prepare_initialize_params(params: Option<Json>, offer: bool) -> (r: Option<Json>)
    ensures
        opt_json_view(r) == initialize_params(opt_json_view(params), offer),
{
    if offer {
        let p = match params {
            Some(p) => p,
            None => Json::Null,
        };
        let meta = match p.get("_meta") {
            Some(m) => Some(m.clone()),
            None => None,
        };
        match add_capability(meta, "proxy") {
            Some(m) => Some(p.set("_meta", m)),
            None => Some(p),
        }
    } else {
        match params {
            Some(p) => {
                let meta = match p.get("_meta") {
                    Some(m) => Some(m.clone()),
                    None => None,
                };
                match meta {
                    Some(m) => match remove_capability(Some(m), "proxy") {
                        Some(m) => Some(p.set("_meta", m)),
                        None => Some(p),
                    },
                    None => Some(p),
                }
            },
            None => None,
        }
    }
}

/// The message as the component at `target` is to receive it.
pub fn prepare_outgoing(chain_len: usize, target: usize, m: UntypedMessage) -> (r: UntypedMessage)
    ensures
        r@ == outgoing(chain_len as int, target as int, m@),
{
    if is_initialize(m.method.as_str()) {
        let offer = target < chain_len && target + 1 < chain_len;
        UntypedMessage { method: m.method, params: prepare_initialize_params(m.params, offer) }
    } else {
        m
    }
}

/// The error that names the component which did not confirm the proxy role.
pub fn not_a_proxy_error(index: usize) -> (r: RpcError)
    ensures
        r@ == not_a_proxy(index as nat),
{
    let mut message = String::from_str("component ");
    let digits = decimal_string(index as u64);
    message.append(digits.as_str());
    message.append(" is not a proxy");
    RpcError { code: INTERNAL_ERROR, message, data: None }
}

/// An error as a JSON object.
pub fn error_to_json(e: RpcError) -> (r: Json)
    ensures
        r@ == error_json(e@),
{
    let code = Json::Number(crate::text::signed_decimal_string(e.code as i64));
    let base = Json::Null.set("code", code).set("message", Json::Text(e.message));
    match e.data {
        Some(d) => base.set("data", d),
        None => base,
    }
}

/// What is sent back for an outcome that passed the handshake.
pub fn relay_outcome(reply: ReplyRoute, outcome: Result<Json, RpcError>) -> (r: Result<
    Json,
    RpcError,
>)
    ensures
        outcome_view(r) == relayed(reply, outcome_view(outcome)),
{
    match reply {
        ReplyRoute::Direct => outcome,
        ReplyRoute::SuccessorResponse => match outcome {
            Ok(v) => Ok(Json::Null.set("result", v)),
            Err(e) => Ok(Json::Null.set("error", error_to_json(e))),
        },
    }
}

/// A component that the conductor has launched.
#[derive(Debug)]
pub struct Component {
    /// The command that started it.
    pub command: String,
}

/// What the conductor does next while it sets the chain up.
#[derive(Debug)]
pub enum LaunchStep {
    /// Spawn `command` as the component at `component_index`.
    Spawn { component_index: usize, command: String },
    /// Every component runs: serve the editor.
    Serve,
}

/// Why a conductor cannot be made.
#[derive(Clone, Copy, Debug, PartialEq, Eq, Structural)]
pub enum ConductorError {
    /// A chain needs at least one component.
    NoComponents,
}

/// The conductor's own state: the components still to launch, those that
/// run, and whether the handshake has failed.
#[derive(Debug)]
pub struct Conductor {
    /// The commands still to launch, the next one last.
    pub pending: Vec<String>,
    /// The components that run, in chain order.
    pub components: Vec<Component>,
    /// The component that failed the handshake, if one did.
    pub failed: Option<usize>,
}

/// The commands of the components that run.
pub open spec fn commands(components: Seq<Component>) -> Seq<Seq<char>> {
    Seq::new(components.len(), |i: int| components[i].command@)
}

impl Conductor {
    /// The whole chain as it was asked for: what runs, then what is still to
    /// launch, in launch order.
    pub open spec fn chain(&self) -> Seq<Seq<char>> {
        commands(self.components@) + texts(self.pending@).reverse()
    }

    /// The number of components of the whole chain.
    pub open spec fn chain_len(&self) -> int {
        (self.components@.len() + self.pending@.len()) as int
    }

    /// Whether every component runs.
    pub open spec fn ready(&self) -> bool {
        self.pending@.len() == 0 && self.components@.len() > 0
    }

    /// A conductor for the chain `proxies`, none of it launched yet. A chain
    /// without components is refused.
    pub fn new(proxies: Vec<String>) -> (r: Result<Conductor, ConductorError>)
        ensures
            match r {
                Ok(c) => proxies@.len() > 0 && c.chain() == texts(proxies@) && c.components@.len()
                    == 0 && c.failed is None,
                Err(e) => proxies@.len() == 0 && e == ConductorError::NoComponents,
            },
    {
        if proxies.len() == 0 {
            return Err(ConductorError::NoComponents);
        }
        let mut pending = proxies;
        let ghost asked = texts(pending@);
        let mut reversed: Vec<String> = Vec::new();
        while pending.len() > 0
            invariant
                texts(reversed@) + texts(pending@).reverse() =~= asked.reverse(),
                asked.len() == reversed@.len() + pending@.len(),
            decreases pending.len(),
        {
            let ghost before = texts(pending@);
            let ghost done = texts(reversed@);
            let next = pending.pop().unwrap();
            reversed.push(next);
            proof {
                assert(texts(pending@) =~= before.drop_last());
                assert(texts(reversed@) =~= done.push(before.last()));
                assert(before.reverse() =~= seq![before.last()] + before.drop_last().reverse());
            }
        }
        let components: Vec<Component> = Vec::new();
        proof {
            assert(texts(pending@).reverse() =~= Seq::<Seq<char>>::empty());
            assert(commands(components@) =~= Seq::<Seq<char>>::empty());
            assert(texts(reversed@) =~= asked.reverse());
            assert(asked.reverse().reverse() =~= asked);
        }
        Ok(Conductor { pending: reversed, components, failed: None })
    }

    /// The next step of the launch: the next command of the chain with the
    /// position it takes, or serving once none is left. The command counts
    /// as launched from here on.
    pub fn launch_proxy(&mut self) -> (r: LaunchStep)
        ensures
            final(self).chain() == old(self).chain(),
            final(self).failed == old(self).failed,
            match r {
                LaunchStep::Spawn { component_index, command } => {
                    &&& old(self).pending@.len() > 0
                    &&& component_index == old(self).components@.len()
                    &&& command@ == old(self).chain()[component_index as int]
                    &&& final(self).components@.len() == component_index + 1
                    &&& final(self).pending@.len() == old(self).pending@.len() - 1
                },
                LaunchStep::Serve => {
                    &&& old(self).pending@.len() == 0
                    &&& final(self).components@.len() == old(self).components@.len()
                    &&& final(self).pending@.len() == 0
                },
            },
    {
        let ghost before_pending = texts(self.pending@);
        let ghost before_running = commands(self.components@);
        if self.pending.len() == 0 {
            return LaunchStep::Serve;
        }
        let component_index = self.components.len();
        let command = self.pending.pop().unwrap();
        self.components.push(Component { command: command.clone() });
        proof {
            assert(texts(self.pending@) =~= before_pending.drop_last());
            assert(commands(self.components@) =~= before_running.push(before_pending.last()));
            assert(before_pending.reverse() =~= seq![before_pending.last()]
                + before_pending.drop_last().reverse());
            assert(self.chain() =~= before_running + before_pending.reverse());
            assert(before_pending.reverse()[0] == before_pending.last());
        }
        LaunchStep::Spawn { component_index, command }
    }

    /// The routing policy for one message, once every component runs. After
    /// a failed handshake nothing is routed any more.
    pub fn serve(&self, message: ConductorMessage) -> (r: ConductorAction)
        requires
            self.ready(),
            sender_index(message@) matches Some(i) ==> i < self.components@.len(),
        ensures
            r@ == if self.failed is Some {
                ConductorActionView::Halted
            } else {
                routed(self.components@.len() as int, message@)
            },
    {
        if self.failed.is_some() {
            return ConductorAction::Halted;
        }
        let chain_len = self.components.len();
        match message {
            ConductorMessage::ClientToAgentViaProxyChain { message } => match message {
                AcpMessage::Request(m) => {
                    let confirm_proxy = if is_initialize(m.method.as_str()) && 1 < chain_len {
                        Some(0usize)
                    } else {
                        None
                    };
                    ConductorAction::ForwardRequest {
                        to: Peer::Component(0),
                        reply_to: Peer::Editor,
                        reply: ReplyRoute::Direct,
                        confirm_proxy,
                        message: prepare_outgoing(chain_len, 0, m),
                    }
                },
                AcpMessage::Notification(m) => ConductorAction::ForwardNotification {
                    to: Peer::Component(0),
                    message: m,
                },
            },
            ConductorMessage::ComponentToItsClientMessage { component_index, message } => {
                let its_client = if component_index == 0 {
                    Peer::Editor
                } else {
                    Peer::Component(component_index - 1)
                };
                match message {
                    AcpMessage::Request(m) => ConductorAction::ForwardRequest {
                        to: its_client,
                        reply_to: Peer::Component(component_index),
                        reply: ReplyRoute::Direct,
                        confirm_proxy: None,
                        message: m,
                    },
                    AcpMessage::Notification(m) => ConductorAction::ForwardNotification {
                        to: its_client,
                        message: m,
                    },
                }
            },
            ConductorMessage::ComponentToItsSuccessorSendRequest { component_index, args } => {
                let successor_index = component_index + 1;
                if successor_index < chain_len {
                    let confirm_proxy = if is_initialize(args.method.as_str()) && successor_index
                        + 1 < chain_len {
                        Some(successor_index)
                    } else {
                        None
                    };
                    ConductorAction::ForwardRequest {
                        to: Peer::Component(successor_index),
                        reply_to: Peer::Component(component_index),
                        reply: ReplyRoute::SuccessorResponse,
                        confirm_proxy,
                        message: prepare_outgoing(chain_len, successor_index, args),
                    }
                } else {
                    ConductorAction::RespondWithError {
                        to: Peer::Component(component_index),
                        error: RpcError::internal_error(),
                    }
                }
            },
            ConductorMessage::ComponentToItsSuccessorSendNotification { component_index, args } => {
                let successor_index = component_index + 1;
                if successor_index < chain_len {
                    ConductorAction::ForwardNotification {
                        to: Peer::Component(successor_index),
                        message: args,
                    }
                } else {
                    ConductorAction::SendErrorNotification {
                        to: Peer::Component(component_index),
                        error: RpcError::internal_error(),
                    }
                }
            },
            ConductorMessage::Error { error } => ConductorAction::LogError { error },
        }
    }

    /// What becomes of the outcome of a forwarded request. A result that
    /// owes the confirmation of the proxy role and lacks it fails the
    /// handshake: the conductor stops routing, and the error names the
    /// component.
    pub fn settle(
        &mut self,
        reply: ReplyRoute,
        confirm_proxy: Option<usize>,
        outcome: Result<Json, RpcError>,
    ) -> (r: Settlement)
        ensures
            r@ == settled(reply, confirm_proxy, outcome_view(outcome)),
            final(self).pending == old(self).pending,
            final(self).components == old(self).components,
            final(self).failed == if handshake_fails(confirm_proxy, outcome_view(outcome)) {
                confirm_proxy
            } else {
                old(self).failed
            },
    {
        match confirm_proxy {
            Some(index) => {
                let refused = match &outcome {
                    Ok(v) => {
                        let meta = match v.get("_meta") {
                            Some(m) => Some(m.clone()),
                            None => None,
                        };
                        !has_capability(&meta, "proxy")
                    },
                    Err(_) => false,
                };
                if refused {
                    self.failed = Some(index);
                    let error = not_a_proxy_error(index);
                    return Settlement { response: Err(error.clone()), editor_failure: Some(error) };
                }
            },
            None => {},
        }
        Settlement { response: relay_outcome(reply, outcome), editor_failure: None }
    }
}

/// In a chain of `chain_len` components, the `initialize` that reaches a
/// component before the last offers it the proxy role.
pub proof fn initialize_offers_proxy_role(chain_len: int, index: int, m: UntypedView)
    requires
        m.method == initialize_method(),
        0 <= index,
        index + 1 < chain_len,
    ensures
        carries_proxy(outgoing(chain_len, index, m).params),
{
    let p = match m.params {
        Some(p) => p,
        None => JsonView::Null,
    };
    let meta = granted(lookup(p, meta_key()), proxy_capability())->Some_0;
    lookup_put_same(crate::json::members_of(p), meta_key(), meta);
    granted_is_held(lookup(p, meta_key()), proxy_capability());
}

/// The `initialize` that reaches the last component of a chain does not
/// offer the proxy role, whatever the message held when it came in.
pub proof fn initialize_reaches_agent_without_offer(chain_len: int, m: UntypedView)
    requires
        m.method == initialize_method(),
        chain_len >= 1,
    ensures
        !carries_proxy(outgoing(chain_len, chain_len - 1, m).params),
{
    match m.params {
        Some(p) => match lookup(p, meta_key()) {
            Some(meta) => {
                let after = revoked(Some(meta), proxy_capability())->Some_0;
                lookup_put_same(crate::json::members_of(p), meta_key(), after);
                revoked_is_not_held(Some(meta), proxy_capability());
            },
            None => {},
        },
        None => {},
    }
}

/// Where a component before the last answers `initialize` with a result
/// that does not confirm the proxy role, the editor's `initialize` resolves
/// with an internal error whose message holds that component's index.
pub proof fn unconfirmed_proxy_fails_initialize(
    chain_len: int,
    index: usize,
    m: UntypedView,
    reply: ReplyRoute,
    result: JsonView,
)
    requires
        m.method == initialize_method(),
        index + 1 < chain_len,
        !carries_proxy(Some(result)),
    ensures
        confirmation_owed(chain_len, index, m) == Some(index),
        settled(reply, Some(index), Ok(result)).editor_failure == Some(not_a_proxy(index as nat)),
        settled(reply, Some(index), Ok(result)).response == Err::<JsonView, RpcErrorView>(
            not_a_proxy(index as nat),
        ),
        not_a_proxy(index as nat).code == INTERNAL_ERROR,
        not_a_proxy(index as nat).message == "component "@ + decimal(index as nat)
            + " is not a proxy"@,
{
}

/// A result that confirms the proxy role, and every error, passes the
/// handshake and is relayed.
pub proof fn confirmed_proxy_passes(
    reply: ReplyRoute,
    confirm_proxy: Option<usize>,
    outcome: Result<JsonView, RpcErrorView>,
)
    requires
        outcome is Ok ==> carries_proxy(Some(outcome->Ok_0)),
    ensures
        settled(reply, confirm_proxy, outcome).editor_failure is None,
        settled(reply, confirm_proxy, outcome).response == relayed(reply, outcome),
{
}

/// The method by which a proxy asks that a request be sent to its
/// successor.
pub const METHOD_SUCCESSOR_REQUEST: &'static str = "_proxy/successor/send/request";

/// The method by which a proxy asks that a notification be sent to its
/// successor.
pub const METHOD_SUCCESSOR_NOTIFICATION: &'static str = "_proxy/successor/send/notification";

/// A request on its way to the successor of a proxy.
#[derive(Debug)]
pub struct ToSuccessorRequest<Req> {
    /// The method to call on the successor.
    pub method: String,
    /// The parameters of the call.
    pub params: Req,
}

/// A notification on its way to the successor of a proxy.
#[derive(Debug)]
pub struct ToSuccessorNotification<Req> {
    /// The method of the notification.
    pub method: String,
    /// The parameters of the notification.
    pub params: Req,
}

/// The outcome of a call on the successor.
#[derive(Debug)]
pub enum ToSuccessorResponse<Response> {
    Result(Response),
    Error(RpcError),
}

/// A request that the successor sent, on its way to a proxy.
#[derive(Debug)]
pub struct ReceiveFromSuccessorRequest {
    /// The method that the successor calls.
    pub method: String,
    /// The parameters of the call.
    pub params: Option<Json>,
}

/// The answer of a proxy to a request of its successor.
#[derive(Debug)]
pub enum FromSuccessorResponse {
    Result(Json),
    Error(RpcError),
}

/// A notification that the successor sent, on its way to a proxy.
#[derive(Debug)]
pub struct FromSuccessorNotification {
    /// The method of the notification.
    pub method: String,
    /// The parameters of the notification.
    pub params: Option<Json>,
}

impl ReceiveFromSuccessorRequest {
    /// The method under which the request reaches the proxy.
    pub fn method(&self) -> (r: &'static str)
        ensures
            r@ == "_proxy/successor/receive/request"@,
    {
        "_proxy/successor/receive/request"
    }
}

impl FromSuccessorNotification {
    /// The method under which the notification reaches the proxy.
    pub fn method(&self) -> (r: &'static str)
        ensures
            r@ == "_proxy/successor/receive/notification"@,
    {
        "_proxy/successor/receive/notification"
    }
}

impl FromSuccessorResponse {
    /// The outcome of a request as the answer that carries it.
    pub fn from_outcome(value: Result<Json, RpcError>) -> (r: Self)
        ensures
            match value {
                Ok(v) => r == FromSuccessorResponse::Result(v),
                Err(e) => r == FromSuccessorResponse::Error(e),
            },
    {
        match value {
            Ok(v) => FromSuccessorResponse::Result(v),
            Err(e) => FromSuccessorResponse::Error(e),
        }
    }
}

impl<Req> ToSuccessorRequest<Req> {
    /// The method under which the request reaches the conductor.
    pub fn method(&self) -> (r: &'static str)
        ensures
            r@ == METHOD_SUCCESSOR_REQUEST@,
    {
        METHOD_SUCCESSOR_REQUEST
    }
}

impl<Req> ToSuccessorNotification<Req> {
    /// The method under which the notification reaches the conductor.
    pub fn method(&self) -> (r: &'static str)
        ensures
            r@ == METHOD_SUCCESSOR_NOTIFICATION@,
    {
        METHOD_SUCCESSOR_NOTIFICATION
    }
}

impl<Response> ToSuccessorResponse<Response> {
    /// The outcome of a call as the response that carries it.
    pub fn from_outcome(value: Result<Response, RpcError>) -> (r: Self)
        ensures
            match value {
                Ok(v) => r == ToSuccessorResponse::Result(v),
                Err(e) => r == ToSuccessorResponse::<Response>::Error(e),
            },
    {
        match value {
            Ok(v) => ToSuccessorResponse::Result(v),
            Err(e) => ToSuccessorResponse::Error(e),
        }
    }
}

/// What a proxy asks to be sent on, read from the parameters of its
/// request: the method and the parameters for the successor. Parameters
/// that name no method, or give no parameters, are invalid.
pub open spec fn successor_args(params: Option<JsonView>) -> Result<UntypedView, RpcErrorView> {
    match params {
        Some(p) => match (lookup(p, "method"@), lookup(p, "params"@)) {
            (Some(JsonView::Text(method)), Some(inner)) => Ok(
                UntypedView { method, params: Some(inner) },
            ),
            _ => Err(plain_error(crate::error::INVALID_PARAMS as int, "Invalid params"@)),
        },
        None => Err(plain_error(crate::error::INVALID_PARAMS as int, "Invalid params"@)),
    }
}

/// Reads what a proxy asks to be sent on.
pub fn read_successor_args(params: &Option<Json>) -> (r: Result<UntypedMessage, RpcError>)
    ensures
        match r {
            Ok(m) => successor_args(opt_json_view(*params)) == Ok::<UntypedView, RpcErrorView>(m@),
            Err(e) => successor_args(opt_json_view(*params)) == Err::<UntypedView, RpcErrorView>(
                e@,
            ),
        },
{
    let p = match params {
        Some(p) => p,
        None => {
            return Err(RpcError::invalid_params());
        },
    };
    let method = match p.get("method") {
        Some(m) => match m.as_text() {
            Some(t) => t.clone(),
            None => {
                return Err(RpcError::invalid_params());
            },
        },
        None => {
            return Err(RpcError::invalid_params());
        },
    };
    match p.get("params") {
        Some(inner) => Ok(UntypedMessage { method, params: Some(inner.clone()) }),
        None => Err(RpcError::invalid_params()),
    }
}

/// What the conductor is told of a message that the editor sent.
pub fn from_editor(message: AcpMessage) -> (r: ConductorMessage)
    ensures
        r@ == (ConductorMessageView::ClientToAgentViaProxyChain { message: message@ }),
{
    ConductorMessage::ClientToAgentViaProxyChain { message }
}

/// What the conductor is told of a message that a component sent: a
/// request or notification for the component's successor where it travels
/// under the method for that, and a message for the component's client in
/// every other case.
pub open spec fn told_by_component(component_index: usize, message: AcpMessageView) -> Result<
    ConductorMessageView,
    RpcErrorView,
> {
    match message {
        AcpMessageView::Request(m) => if m.method == METHOD_SUCCESSOR_REQUEST@ {
            match successor_args(m.params) {
                Ok(args) => Ok(
                    ConductorMessageView::ComponentToItsSuccessorSendRequest {
                        component_index,
                        args,
                    },
                ),
                Err(e) => Err(e),
            }
        } else {
            Ok(ConductorMessageView::ComponentToItsClientMessage { component_index, message })
        },
        AcpMessageView::Notification(m) => if m.method == METHOD_SUCCESSOR_NOTIFICATION@ {
            match successor_args(m.params) {
                Ok(args) => Ok(
                    ConductorMessageView::ComponentToItsSuccessorSendNotification {
                        component_index,
                        args,
                    },
                ),
                Err(e) => Err(e),
            }
        } else {
            Ok(ConductorMessageView::ComponentToItsClientMessage { component_index, message })
        },
    }
}

/// The value of what the conductor is told, or of the error in its place.
pub open spec fn told_view(r: Result<ConductorMessage, RpcError>) -> Result<
    ConductorMessageView,
    RpcErrorView,
> {
    match r {
        Ok(m) => Ok(m@),
        Err(e) => Err(e@),
    }
}

/// What the conductor is told of a message that the component at
/// `component_index` sent.
pub fn from_component(component_index: usize, message: AcpMessage) -> (r: Result<
    ConductorMessage,
    RpcError,
>)
    ensures
        told_view(r) == told_by_component(component_index, message@),
{
    match message {
        AcpMessage::Request(m) => {
            if same_text(m.method.as_str(), METHOD_SUCCESSOR_REQUEST) {
                match read_successor_args(&m.params) {
                    Ok(args) => Ok(
                        ConductorMessage::ComponentToItsSuccessorSendRequest {
                            component_index,
                            args,
                        },
                    ),
                    Err(e) => Err(e),
                }
            } else {
                Ok(
                    ConductorMessage::ComponentToItsClientMessage {
                        component_index,
                        message: AcpMessage::Request(m),
                    },
                )
            }
        },
        AcpMessage::Notification(m) => {
            if same_text(m.method.as_str(), METHOD_SUCCESSOR_NOTIFICATION) {
                match read_successor_args(&m.params) {
                    Ok(args) => Ok(
                        ConductorMessage::ComponentToItsSuccessorSendNotification {
                            component_index,
                            args,
                        },
                    ),
                    Err(e) => Err(e),
                }
            } else {
                Ok(
                    ConductorMessage::ComponentToItsClientMessage {
                        component_index,
                        message: AcpMessage::Notification(m),
                    },
                )
            }
        },
    }
}

/// The arguments of the conductor's command line: the commands of the
/// components, in chain order.
#[derive(Debug)]
pub struct ConductorArgs {
    pub proxies: Vec<String>,
}

impl ConductorArgs {
    /// The conductor for the chain that the arguments name.
    pub fn conductor(self) -> (r: Result<Conductor, ConductorError>)
        ensures
            match r {
                Ok(c) => self.proxies@.len() > 0 && c.chain() == texts(self.proxies@)
                    && c.components@.len() == 0 && c.failed is None,
                Err(e) => self.proxies@.len() == 0 && e == ConductorError::NoComponents,
            },
    {
        Conductor::new(self.proxies)
    }
}

/// Forwarding is transparent. A message that is no `initialize` reaches
/// the next component as it came, and the outcome of a request that owes
/// no confirmation goes back to the one who asked as it came: a chain of
/// components that only forward behaves, message by message, as the agent
/// at its end.
pub proof fn forwarding_is_transparent(
    chain_len: int,
    target: int,
    m: UntypedView,
    outcome: Result<JsonView, RpcErrorView>,
)
    requires
        m.method != initialize_method(),
    ensures
        outgoing(chain_len, target, m) == m,
        confirmation_owed(chain_len, target as usize, m) is None,
        settled(ReplyRoute::Direct, None, outcome).response == outcome,
        settled(ReplyRoute::Direct, None, outcome).editor_failure is None,
{
}

/// How the chain ends when a neighbour's stream closes.
#[derive(Debug)]
pub struct ChainEnd {
    /// The error with which the requests that waited on the neighbour are
    /// answered; none where nobody is left to answer.
    pub fail_pending_with: Option<RpcError>,
    /// Whether every component is to be stopped.
    pub abort_components: bool,
}

/// What follows when the stream of `from` closes. Either way the chain
/// ends and every component is stopped. Where a component went away, the
/// requests that waited on it are answered with an internal error; where
/// the editor went away, nobody is left to answer.
pub fn stream_closed(from: Peer) -> (r: ChainEnd)
    ensures
        r.abort_components,
        match from {
            Peer::Editor => r.fail_pending_with is None,
            Peer::Component(_) => r.fail_pending_with matches Some(e) && e@ == plain_error(
                INTERNAL_ERROR as int,
                "Internal error"@,
            ),
        },
{
    match from {
        Peer::Editor => ChainEnd { fail_pending_with: None, abort_components: true },
        Peer::Component(_) => ChainEnd {
            fail_pending_with: Some(RpcError::internal_error()),
            abort_components: true,
        },
    }
}

} // verus!
