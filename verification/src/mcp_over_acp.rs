//! MCP carried inside ACP: the extension methods `_mcp/connect`,
//! `_mcp/request`, `_mcp/notification` and `_mcp/disconnect`, how their
//! parameters are read, and how a proxy's registry answers them.

use crate::error::{opt_json_view, plain_error, RpcError, RpcErrorView, INVALID_PARAMS};
use crate::json::{lookup, Json, JsonView};
use crate::mcp_server::{delivered_notification, delivered_request, disconnected, enriched, opened};
use crate::mcp_server::{McpConnectRequest, McpDisconnectNotification, McpOverAcpMessage};
use crate::mcp_server::{McpServiceRegistry, NewSessionRequest, RegistryAction};
use crate::text::same_text;
use vstd::prelude::*;

verus! {

/// The method that opens a bridge session.
pub const METHOD_MCP_CONNECT: &'static str = "_mcp/connect";

/// The method that carries an MCP request.
pub const METHOD_MCP_REQUEST: &'static str = "_mcp/request";

/// The method that carries an MCP notification.
pub const METHOD_MCP_NOTIFICATION: &'static str = "_mcp/notification";

/// The method that ends a bridge session.
pub const METHOD_MCP_DISCONNECT: &'static str = "_mcp/disconnect";

/// The method that opens an ACP session.
pub const METHOD_SESSION_NEW: &'static str = "session/new";

/// An MCP request on its way over ACP.
#[derive(Debug)]
pub struct McpRequest<R> {
    pub message: R,
}

/// An MCP notification on its way over ACP.
#[derive(Debug)]
pub struct McpNotification<R> {
    pub message: R,
}

impl<R> McpRequest<R> {
    /// The method under which the request travels.
    pub fn method(&self) -> (r: &'static str)
        ensures
            r@ == METHOD_MCP_REQUEST@,
    {
        METHOD_MCP_REQUEST
    }
}

impl<R> McpNotification<R> {
    /// The method under which the notification travels.
    pub fn method(&self) -> (r: &'static str)
        ensures
            r@ == METHOD_MCP_NOTIFICATION@,
    {
        METHOD_MCP_NOTIFICATION
    }
}

/// The text under `key` in the parameters, where they are an object that
/// holds a string there.
pub open spec fn text_param(params: Option<JsonView>, key: Seq<char>) -> Option<Seq<char>> {
    match params {
        Some(p) => match lookup(p, key) {
            Some(JsonView::Text(t)) => Some(t),
            _ => None,
        },
        None => None,
    }
}

/// The value under `key` in the parameters.
pub open spec fn value_param(params: Option<JsonView>, key: Seq<char>) -> Option<JsonView> {
    match params {
        Some(p) => lookup(p, key),
        None => None,
    }
}

/// The error for parameters that a method cannot read.
pub open spec fn invalid_params() -> RpcErrorView {
    plain_error(INVALID_PARAMS as int, "Invalid params"@)
}

/// The url of a connect request, or the error for parameters without one.
pub open spec fn connect_params(params: Option<JsonView>) -> Result<Seq<char>, RpcErrorView> {
    match text_param(params, "acp_url"@) {
        Some(url) => Ok(url),
        None => Err(invalid_params()),
    }
}

/// The session and the payload of a bridged message, the payload under
/// `key`; or the error for parameters that lack either.
pub open spec fn over_acp_params(params: Option<JsonView>, key: Seq<char>) -> Result<
    (Seq<char>, JsonView),
    RpcErrorView,
> {
    match (text_param(params, "connection_id"@), value_param(params, key)) {
        (Some(id), Some(payload)) => Ok((id, payload)),
        _ => Err(invalid_params()),
    }
}

/// The session of a disconnect notification, or the error for parameters
/// without one.
pub open spec fn disconnect_params(params: Option<JsonView>) -> Result<Seq<char>, RpcErrorView> {
    match text_param(params, "connection_id"@) {
        Some(id) => Ok(id),
        None => Err(invalid_params()),
    }
}

/// The text under `key` in the parameters.
pub fn text_param_of(params: &Option<Json>, key: &str) -> (r: Option<String>)
    ensures
        match r {
            Some(t) => text_param(opt_json_view(*params), key@) == Some(t@),
            None => text_param(opt_json_view(*params), key@) is None,
        },
{
    match params {
        Some(p) => match p.get(key) {
            Some(v) => match v.as_text() {
                Some(t) => Some(t.clone()),
                None => None,
            },
            None => None,
        },
        None => None,
    }
}

/// The value under `key` in the parameters.
pub fn value_param_of(params: &Option<Json>, key: &str) -> (r: Option<Json>)
    ensures
        opt_json_view(r) == value_param(opt_json_view(*params), key@),
{
    match params {
        Some(p) => match p.get(key) {
            Some(v) => Some(v.clone()),
            None => None,
        },
        None => None,
    }
}

impl McpConnectRequest {
    /// Reads a connect request: nothing where the method is another, the
    /// request where the parameters hold a url, an error where they do not.
    pub fn parse_request(method: &str, params: &Option<Json>) -> (r: Option<
        Result<McpConnectRequest, RpcError>,
    >)
        ensures
            r is Some <==> method@ == METHOD_MCP_CONNECT@,
            r matches Some(q) ==> crate::mcp_server::connect_view(q) == connect_params(
                opt_json_view(*params),
            ),
    {
        if !same_text(method, METHOD_MCP_CONNECT) {
            return None;
        }
        match text_param_of(params, "acp_url") {
            Some(acp_url) => Some(Ok(McpConnectRequest { acp_url })),
            None => Some(Err(RpcError::invalid_params())),
        }
    }
}

/// Reads the session and the payload of a bridged message.
fn read_over_acp(params: &Option<Json>, key: &str) -> (r: Result<McpOverAcpMessage, RpcError>)
    ensures
        crate::mcp_server::over_acp_view(r) == over_acp_params(opt_json_view(*params), key@),
{
    match text_param_of(params, "connection_id") {
        Some(connection_id) => match value_param_of(params, key) {
            Some(message) => Ok(McpOverAcpMessage { connection_id, message }),
            None => Err(RpcError::invalid_params()),
        },
        None => Err(RpcError::invalid_params()),
    }
}

impl McpOverAcpMessage {
    /// Reads an MCP request that came over ACP.
    pub fn parse_request(method: &str, params: &Option<Json>) -> (r: Option<
        Result<McpOverAcpMessage, RpcError>,
    >)
        ensures
            r is Some <==> method@ == METHOD_MCP_REQUEST@,
            r matches Some(q) ==> crate::mcp_server::over_acp_view(q) == over_acp_params(
                opt_json_view(*params),
                "request"@,
            ),
    {
        if !same_text(method, METHOD_MCP_REQUEST) {
            return None;
        }
        Some(read_over_acp(params, "request"))
    }

    /// Reads an MCP notification that came over ACP.
    pub fn parse_notification(method: &str, params: &Option<Json>) -> (r: Option<
        Result<McpOverAcpMessage, RpcError>,
    >)
        ensures
            r is Some <==> method@ == METHOD_MCP_NOTIFICATION@,
            r matches Some(q) ==> crate::mcp_server::over_acp_view(q) == over_acp_params(
                opt_json_view(*params),
                "notification"@,
            ),
    {
        if !same_text(method, METHOD_MCP_NOTIFICATION) {
            return None;
        }
        Some(read_over_acp(params, "notification"))
    }
}

impl McpDisconnectNotification {
    /// Reads the notice that a bridge session ended.
    pub fn parse_notification(method: &str, params: &Option<Json>) -> (r: Option<
        Result<McpDisconnectNotification, RpcError>,
    >)
        ensures
            r is Some <==> method@ == METHOD_MCP_DISCONNECT@,
            r matches Some(q) ==> crate::mcp_server::disconnect_view(q) == disconnect_params(
                opt_json_view(*params),
            ),
    {
        if !same_text(method, METHOD_MCP_DISCONNECT) {
            return None;
        }
        match text_param_of(params, "connection_id") {
            Some(connection_id) => Some(Ok(McpDisconnectNotification { connection_id })),
            None => Some(Err(RpcError::invalid_params())),
        }
    }
}

/// The rule for a request that reaches the registry: a connect request and
/// a bridged request by their own rules, a request that opens a session by
/// its rule where it was read, everything else left to the next handler.
pub open spec fn request_handled(
    before: McpServiceRegistry,
    after: McpServiceRegistry,
    method: Seq<char>,
    params: Option<JsonView>,
    session: Option<Result<NewSessionRequest, RpcError>>,
    r: RegistryAction,
) -> bool {
    if method == METHOD_MCP_CONNECT@ {
        opened(before, after, connect_params(params), r)
    } else if method == METHOD_MCP_REQUEST@ {
        after == before && delivered_request(before, over_acp_params(params, "request"@), r)
    } else if method == METHOD_SESSION_NEW@ && session is Some {
        after == before && enriched(before, session->Some_0, r)
    } else {
        after == before && r is NotHandled
    }
}

/// The rule for a notification that reaches the registry.
pub open spec fn notification_handled(
    before: McpServiceRegistry,
    after: McpServiceRegistry,
    method: Seq<char>,
    params: Option<JsonView>,
    r: RegistryAction,
) -> bool {
    if method == METHOD_MCP_NOTIFICATION@ {
        after == before && delivered_notification(
            before,
            over_acp_params(params, "notification"@),
            r,
        )
    } else if method == METHOD_MCP_DISCONNECT@ {
        disconnected(before, after, disconnect_params(params), r)
    } else {
        after == before && r is NotHandled
    }
}

impl McpServiceRegistry {
    /// What the registry does with a request. `session` is the request as
    /// one that opens a session, where the caller read it as such.
    pub fn handle_request(
        &mut self,
        method: &str,
        params: &Option<Json>,
        session: Option<Result<NewSessionRequest, RpcError>>,
    ) -> (r: RegistryAction)
        requires
            old(self).wf(),
        ensures
            final(self).wf(),
            request_handled(
                *old(self),
                *final(self),
                method@,
                opt_json_view(*params),
                session,
                r,
            ),
    {
        match McpConnectRequest::parse_request(method, params) {
            Some(request) => {
                return self.handle_connect_request(request);
            },
            None => {},
        }
        match McpOverAcpMessage::parse_request(method, params) {
            Some(request) => {
                return self.handle_mcp_over_acp_request(request);
            },
            None => {},
        }
        if same_text(method, METHOD_SESSION_NEW) {
            match session {
                Some(request) => {
                    return self.handle_new_session_request(request);
                },
                None => {},
            }
        }
        RegistryAction::NotHandled
    }

    /// What the registry does with a notification.
    pub fn handle_notification(&mut self, method: &str, params: &Option<Json>) -> (r:
        RegistryAction)
        requires
            old(self).wf(),
        ensures
            final(self).wf(),
            notification_handled(*old(self), *final(self), method@, opt_json_view(*params), r),
    {
        match McpOverAcpMessage::parse_notification(method, params) {
            Some(notification) => {
                return self.handle_mcp_over_acp_notification(notification);
            },
            None => {},
        }
        match McpDisconnectNotification::parse_notification(method, params) {
            Some(notification) => {
                return self.handle_mcp_disconnect_notification(notification);
            },
            None => {},
        }
        RegistryAction::NotHandled
    }
}

} // verus!
