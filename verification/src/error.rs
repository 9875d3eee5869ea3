//! The error object of JSON-RPC 2.0 and the codes this library answers with.

use crate::json::{Json, JsonView};
use vstd::prelude::*;

verus! {

/// Malformed JSON on the wire.
pub const PARSE_ERROR: i32 = -32700;

/// A JSON value that is no JSON-RPC 2.0 message.
pub const INVALID_REQUEST: i32 = -32600;

/// No handler accepted the request.
pub const METHOD_NOT_FOUND: i32 = -32601;

/// The parameters do not fit the method.
pub const INVALID_PARAMS: i32 = -32602;

/// A failure inside the receiver, a failed handshake among them.
pub const INTERNAL_ERROR: i32 = -32603;

/// The connection closed before the response came.
pub const CONNECTION_CLOSED: i32 = -32000;

/// The request was cancelled while in flight.
pub const REQUEST_CANCELLED: i32 = -32800;

/// A JSON-RPC error object.
#[derive(Debug)]
pub struct RpcError {
    pub code: i32,
    pub message: String,
    pub data: Option<Json>,
}

/// The mathematical value of an [`RpcError`].
pub struct RpcErrorView {
    pub code: int,
    pub message: Seq<char>,
    pub data: Option<JsonView>,
}

/// The value of an optional JSON value.
pub open spec fn opt_json_view(j: Option<Json>) -> Option<JsonView> {
    match j {
        Some(v) => Some(v@),
        None => None,
    }
}

impl View for RpcError {
    type V = RpcErrorView;

    open spec fn view(&self) -> RpcErrorView {
        RpcErrorView {
            code: self.code as int,
            message: self.message@,
            data: opt_json_view(self.data),
        }
    }
}

/// The error with `code` and `message` and no data.
pub open spec fn plain_error(code: int, message: Seq<char>) -> RpcErrorView {
    RpcErrorView { code, message, data: None }
}

impl Clone for RpcError {
    fn clone(&self) -> (r: RpcError)
        ensures
            r@ == self@,
    {
        let data = match &self.data {
            Some(d) => Some(d.clone()),
            None => None,
        };
        RpcError { code: self.code, message: self.message.clone(), data }
    }
}

impl RpcError {
    /// An error with the given code and message, without data.
    pub fn new(code: i32, message: &str) -> (r: RpcError)
        ensures
            r@ == plain_error(code as int, message@),
    {
        RpcError { code, message: String::from_str(message), data: None }
    }

    /// The error for a line that is not JSON.
    pub fn parse_error() -> (r: RpcError)
        ensures
            r@ == plain_error(PARSE_ERROR as int, "Parse error"@),
    {
        RpcError::new(PARSE_ERROR, "Parse error")
    }

    /// The error for JSON that is no JSON-RPC 2.0 message.
    pub fn invalid_request() -> (r: RpcError)
        ensures
            r@ == plain_error(INVALID_REQUEST as int, "Invalid Request"@),
    {
        RpcError::new(INVALID_REQUEST, "Invalid Request")
    }

    /// The error for a request that no handler accepted.
    pub fn method_not_found() -> (r: RpcError)
        ensures
            r@ == plain_error(METHOD_NOT_FOUND as int, "Method not found"@),
    {
        RpcError::new(METHOD_NOT_FOUND, "Method not found")
    }

    /// The error for parameters that do not parse as the method's own.
    pub fn invalid_params() -> (r: RpcError)
        ensures
            r@ == plain_error(INVALID_PARAMS as int, "Invalid params"@),
    {
        RpcError::new(INVALID_PARAMS, "Invalid params")
    }

    /// The generic internal error.
    pub fn internal_error() -> (r: RpcError)
        ensures
            r@ == plain_error(INTERNAL_ERROR as int, "Internal error"@),
    {
        RpcError::new(INTERNAL_ERROR, "Internal error")
    }

    /// The error that fails every request still pending when a connection
    /// closes.
    pub fn connection_closed() -> (r: RpcError)
        ensures
            r@ == plain_error(CONNECTION_CLOSED as int, "Connection closed"@),
    {
        RpcError::new(CONNECTION_CLOSED, "Connection closed")
    }

    /// The error that completes a cancelled request.
    pub fn cancelled() -> (r: RpcError)
        ensures
            r@ == plain_error(REQUEST_CANCELLED as int, "Request cancelled"@),
    {
        RpcError::new(REQUEST_CANCELLED, "Request cancelled")
    }
}

/// An internal error that carries `message`.
pub fn internal_error(message: &str) -> (r: RpcError)
    ensures
        r@ == plain_error(INTERNAL_ERROR as int, message@),
{
    RpcError::new(INTERNAL_ERROR, message)
}

} // verus!
