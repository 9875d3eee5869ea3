//! JSON-RPC 2.0 messages: the four shapes, how a JSON value is read as one
//! of them, and how a message is written as a JSON value.

use crate::conductor::{error_json, error_to_json, outcome_view};
use crate::error::{opt_json_view, plain_error, RpcError, RpcErrorView, INVALID_REQUEST};
use crate::json::{lookup, lookup_with_member, with_member, Json, JsonView};
use crate::numeral::{integer_value, parse_i64, signed_decimal_denotes};
use crate::text::{same_text, signed_decimal, signed_decimal_string};
use vstd::prelude::*;

verus! {

/// The identifier of a request: an integer or a string.
#[derive(Debug)]
pub enum RequestId {
    Number(i64),
    Text(String),
}

/// The mathematical value of a [`RequestId`].
pub enum RequestIdView {
    Number(int),
    Text(Seq<char>),
}

impl View for RequestId {
    type V = RequestIdView;

    open spec fn view(&self) -> RequestIdView {
        match self {
            RequestId::Number(n) => RequestIdView::Number(*n as int),
            RequestId::Text(s) => RequestIdView::Text(s@),
        }
    }
}

impl Clone for RequestId {
    fn clone(&self) -> (r: RequestId)
        ensures
            r == *self,
    {
        match self {
            RequestId::Number(n) => RequestId::Number(*n),
            RequestId::Text(s) => RequestId::Text(s.clone()),
        }
    }
}

impl RequestId {
    /// Whether two identifiers are the same.
    pub fn same(&self, other: &RequestId) -> (r: bool)
        ensures
            r == (self@ == other@),
    {
        match (self, other) {
            (RequestId::Number(a), RequestId::Number(b)) => *a == *b,
            (RequestId::Text(a), RequestId::Text(b)) => same_text(a.as_str(), b.as_str()),
            _ => false,
        }
    }
}

/// A JSON-RPC message.
#[derive(Debug)]
pub enum Message {
    Request { id: RequestId, method: String, params: Option<Json> },
    Notification { method: String, params: Option<Json> },
    Response { id: RequestId, outcome: Result<Json, RpcError> },
}

/// The mathematical value of a [`Message`].
pub enum MessageView {
    Request { id: RequestIdView, method: Seq<char>, params: Option<JsonView> },
    Notification { method: Seq<char>, params: Option<JsonView> },
    Response { id: RequestIdView, outcome: Result<JsonView, RpcErrorView> },
}

impl View for Message {
    type V = MessageView;

    open spec fn view(&self) -> MessageView {
        match self {
            Message::Request { id, method, params } => MessageView::Request {
                id: id@,
                method: method@,
                params: opt_json_view(*params),
            },
            Message::Notification { method, params } => MessageView::Notification {
                method: method@,
                params: opt_json_view(*params),
            },
            Message::Response { id, outcome } => MessageView::Response {
                id: id@,
                outcome: outcome_view(*outcome),
            },
        }
    }
}

/// What a line of input turns out to be.
#[derive(Debug)]
pub enum Decoded {
    /// A message.
    Message(Message),
    /// No message, from a sender whose request can be answered: the error
    /// goes back under `id`.
    Reject { id: RequestId, error: RpcError },
    /// No message, and no identifier to answer under: the line is logged
    /// and dropped.
    Dropped,
}

/// The mathematical value of a [`Decoded`].
pub enum DecodedView {
    Message(MessageView),
    Reject { id: RequestIdView, error: RpcErrorView },
    Dropped,
}

impl View for Decoded {
    type V = DecodedView;

    open spec fn view(&self) -> DecodedView {
        match self {
            Decoded::Message(m) => DecodedView::Message(m@),
            Decoded::Reject { id, error } => DecodedView::Reject { id: id@, error: error@ },
            Decoded::Dropped => DecodedView::Dropped,
        }
    }
}

/// The identifier that a JSON value stands for: a string, or a number that
/// is an integer of 64 bits.
pub open spec fn id_value(j: JsonView) -> Option<RequestIdView> {
    match j {
        JsonView::Text(t) => Some(RequestIdView::Text(t)),
        JsonView::Number(t) => match integer_value(t) {
            Some(v) => if i64::MIN <= v <= i64::MAX {
                Some(RequestIdView::Number(v))
            } else {
                None
            },
            None => None,
        },
        _ => None,
    }
}

/// The identifier of a message, where it has a valid one.
pub open spec fn id_of(j: JsonView) -> Option<RequestIdView> {
    match lookup(j, "id"@) {
        Some(v) => id_value(v),
        None => None,
    }
}

/// Whether the parameters of a message are as they may be: left out, null,
/// an object or an array.
pub open spec fn params_allowed(j: JsonView) -> bool {
    match lookup(j, "params"@) {
        None => true,
        Some(p) => p is Null || p is Object || p is Array,
    }
}

/// The parameters of a message: none where they are left out or null.
pub open spec fn params_of(j: JsonView) -> Option<JsonView> {
    match lookup(j, "params"@) {
        Some(p) => if p is Null {
            None
        } else {
            Some(p)
        },
        None => None,
    }
}

/// The error object that a JSON value stands for: an object with an integer
/// code of 32 bits and a message.
pub open spec fn error_value(j: JsonView) -> Option<RpcErrorView> {
    match (lookup(j, "code"@), lookup(j, "message"@)) {
        (Some(JsonView::Number(c)), Some(JsonView::Text(m))) => match integer_value(c) {
            Some(v) => if i32::MIN <= v <= i32::MAX {
                Some(RpcErrorView { code: v, message: m, data: lookup(j, "data"@) })
            } else {
                None
            },
            None => None,
        },
        _ => None,
    }
}

/// What becomes of a value that is no message: an invalid-request error
/// under its identifier where it has one, else nothing.
pub open spec fn refused(j: JsonView) -> DecodedView {
    match id_of(j) {
        Some(id) => DecodedView::Reject {
            id,
            error: plain_error(INVALID_REQUEST as int, "Invalid Request"@),
        },
        None => DecodedView::Dropped,
    }
}

/// How a line is read. `parsed` is the JSON value of the line, or nothing
/// where the line is no JSON. A value is a message where it is marked as
/// JSON-RPC 2.0 and has one of the four shapes; members that the shape does
/// not name are ignored.
pub open spec fn decoded(parsed: Option<JsonView>) -> DecodedView {
    match parsed {
        None => DecodedView::Dropped,
        Some(j) => if lookup(j, "jsonrpc"@) != Some(JsonView::Text("2.0"@)) {
            refused(j)
        } else {
            match lookup(j, "method"@) {
                Some(JsonView::Text(method)) => if !params_allowed(j) {
                    refused(j)
                } else if lookup(j, "id"@) is None {
                    DecodedView::Message(
                        MessageView::Notification { method, params: params_of(j) },
                    )
                } else {
                    match id_of(j) {
                        Some(id) => DecodedView::Message(
                            MessageView::Request { id, method, params: params_of(j) },
                        ),
                        None => DecodedView::Dropped,
                    }
                },
                Some(_) => refused(j),
                None => match id_of(j) {
                    None => DecodedView::Dropped,
                    Some(id) => match (lookup(j, "result"@), lookup(j, "error"@)) {
                        (Some(v), None) => DecodedView::Message(
                            MessageView::Response { id, outcome: Ok(v) },
                        ),
                        (None, Some(e)) => match error_value(e) {
                            Some(error) => DecodedView::Message(
                                MessageView::Response { id, outcome: Err(error) },
                            ),
                            None => refused(j),
                        },
                        _ => refused(j),
                    },
                },
            }
        },
    }
}

/// An identifier as a JSON value.
pub open spec fn id_json(id: RequestIdView) -> JsonView {
    match id {
        RequestIdView::Number(n) => JsonView::Number(signed_decimal(n)),
        RequestIdView::Text(t) => JsonView::Text(t),
    }
}

/// The object that every message begins as.
pub open spec fn envelope() -> JsonView {
    with_member(JsonView::Null, "jsonrpc"@, JsonView::Text("2.0"@))
}

/// `j` with the parameters added, where there are some.
pub open spec fn with_params(j: JsonView, params: Option<JsonView>) -> JsonView {
    match params {
        Some(p) => with_member(j, "params"@, p),
        None => j,
    }
}

/// A message as a JSON value.
pub open spec fn encoded(m: MessageView) -> JsonView {
    match m {
        MessageView::Request { id, method, params } => with_params(
            with_member(with_member(envelope(), "id"@, id_json(id)), "method"@, JsonView::Text(method)),
            params,
        ),
        MessageView::Notification { method, params } => with_params(
            with_member(envelope(), "method"@, JsonView::Text(method)),
            params,
        ),
        MessageView::Response { id, outcome } => match outcome {
            Ok(v) => with_member(with_member(envelope(), "id"@, id_json(id)), "result"@, v),
            Err(e) => with_member(
                with_member(envelope(), "id"@, id_json(id)),
                "error"@,
                error_json(e),
            ),
        },
    }
}

/// Reads an identifier.
pub fn read_id(j: &Json) -> (r: Option<RequestId>)
    ensures
        match r {
            Some(id) => id_value(j@) == Some(id@),
            None => id_value(j@) is None,
        },
{
    match j {
        Json::Text(t) => Some(RequestId::Text(t.clone())),
        Json::Number(t) => match parse_i64(t.as_str()) {
            Some(v) => Some(RequestId::Number(v)),
            None => None,
        },
        _ => None,
    }
}

/// Reads an error object.
pub fn read_error(j: &Json) -> (r: Option<RpcError>)
    ensures
        match r {
            Some(e) => error_value(j@) == Some(e@),
            None => error_value(j@) is None,
        },
{
    let code = match j.get("code") {
        Some(Json::Number(c)) => match parse_i64(c.as_str()) {
            Some(v) => if v >= -2147483648 && v <= 2147483647 {
                v as i32
            } else {
                return None;
            },
            None => {
                return None;
            },
        },
        _ => {
            return None;
        },
    };
    let message = match j.get("message") {
        Some(Json::Text(m)) => m.clone(),
        _ => {
            return None;
        },
    };
    let data = match j.get("data") {
        Some(d) => Some(d.clone()),
        None => None,
    };
    Some(RpcError { code, message, data })
}

fn refuse(j: &Json) -> (r: Decoded)
    ensures
        r@ == refused(j@),
{
    let id = match j.get("id") {
        Some(v) => read_id(v),
        None => None,
    };
    match id {
        Some(id) => Decoded::Reject { id, error: RpcError::invalid_request() },
        None => Decoded::Dropped,
    }
}

/// Reads a line whose JSON value is `parsed`, or that is no JSON where
/// `parsed` is nothing.
pub fn decode(parsed: Option<Json>) -> (r: Decoded)
    ensures
        r@ == decoded(opt_json_view(parsed)),
{
    let j = match parsed {
        Some(j) => j,
        None => {
            return Decoded::Dropped;
        },
    };
    let versioned = match j.get("jsonrpc") {
        Some(Json::Text(v)) => same_text(v.as_str(), "2.0"),
        _ => false,
    };
    if !versioned {
        return refuse(&j);
    }
    let id_member = j.get("id");
    let id = match id_member {
        Some(v) => read_id(v),
        None => None,
    };
    let params = match j.get("params") {
        Some(p) => if p.is_null() {
            Ok(None)
        } else if p.is_object() || p.is_array() {
            Ok(Some(p.clone()))
        } else {
            Err(())
        },
        None => Ok(None),
    };
    match j.get("method") {
        Some(Json::Text(method)) => {
            let params = match params {
                Ok(p) => p,
                Err(_) => {
                    return refuse(&j);
                },
            };
            if id_member.is_none() {
                Decoded::Message(Message::Notification { method: method.clone(), params })
            } else {
                match id {
                    Some(id) => Decoded::Message(
                        Message::Request { id, method: method.clone(), params },
                    ),
                    None => Decoded::Dropped,
                }
            }
        },
        Some(_) => refuse(&j),
        None => {
            let id = match id {
                Some(id) => id,
                None => {
                    return Decoded::Dropped;
                },
            };
            match (j.get("result"), j.get("error")) {
                (Some(v), None) => Decoded::Message(Message::Response { id, outcome: Ok(v.clone()) }),
                (None, Some(e)) => match read_error(e) {
                    Some(error) => Decoded::Message(Message::Response { id, outcome: Err(error) }),
                    None => refuse(&j),
                },
                _ => refuse(&j),
            }
        },
    }
}

/// An identifier as a JSON value.
pub fn id_to_json(id: RequestId) -> (r: Json)
    ensures
        r@ == id_json(id@),
{
    match id {
        RequestId::Number(n) => Json::Number(signed_decimal_string(n)),
        RequestId::Text(t) => Json::Text(t),
    }
}

/// Writes a message as a JSON value.
pub fn encode(m: Message) -> (r: Json)
    ensures
        r@ == encoded(m@),
{
    let envelope = Json::Null.set("jsonrpc", Json::text("2.0"));
    match m {
        Message::Request { id, method, params } => {
            let j = envelope.set("id", id_to_json(id)).set("method", Json::Text(method));
            match params {
                Some(p) => j.set("params", p),
                None => j,
            }
        },
        Message::Notification { method, params } => {
            let j = envelope.set("method", Json::Text(method));
            match params {
                Some(p) => j.set("params", p),
                None => j,
            }
        },
        Message::Response { id, outcome } => {
            let j = envelope.set("id", id_to_json(id));
            match outcome {
                Ok(v) => j.set("result", v),
                Err(e) => j.set("error", error_to_json(e)),
            }
        },
    }
}

/// Whether a message is one that can be written: its identifier fits in 64
/// bits, its parameters are left out or structured, and the code of its
/// error fits in 32 bits.
pub open spec fn writable(m: MessageView) -> bool {
    match m {
        MessageView::Request { id, method, params } => writable_id(id) && writable_params(params),
        MessageView::Notification { method, params } => writable_params(params),
        MessageView::Response { id, outcome } => writable_id(id) && match outcome {
            Ok(_) => true,
            Err(e) => i32::MIN <= e.code <= i32::MAX,
        },
    }
}

/// Whether an identifier fits in 64 bits.
pub open spec fn writable_id(id: RequestIdView) -> bool {
    match id {
        RequestIdView::Number(n) => i64::MIN <= n <= i64::MAX,
        RequestIdView::Text(_) => true,
    }
}

/// Whether parameters are left out or structured.
pub open spec fn writable_params(params: Option<JsonView>) -> bool {
    match params {
        Some(p) => p is Object || p is Array,
        None => true,
    }
}

/// The names of the members of a message and of an error differ from one
/// another.
pub proof fn member_names_differ()
    ensures
        "jsonrpc"@ != "id"@,
        "jsonrpc"@ != "method"@,
        "jsonrpc"@ != "params"@,
        "jsonrpc"@ != "result"@,
        "jsonrpc"@ != "error"@,
        "id"@ != "method"@,
        "id"@ != "params"@,
        "id"@ != "result"@,
        "id"@ != "error"@,
        "method"@ != "params"@,
        "method"@ != "result"@,
        "method"@ != "error"@,
        "params"@ != "result"@,
        "params"@ != "error"@,
        "result"@ != "error"@,
        "code"@ != "message"@,
        "code"@ != "data"@,
        "message"@ != "data"@,
{
    reveal_strlit("jsonrpc");
    reveal_strlit("id");
    reveal_strlit("method");
    reveal_strlit("params");
    reveal_strlit("result");
    reveal_strlit("error");
    reveal_strlit("code");
    reveal_strlit("message");
    reveal_strlit("data");
    assert("jsonrpc"@.len() == 7);
    assert("id"@.len() == 2);
    assert("method"@.len() == 6);
    assert("params"@.len() == 6);
    assert("result"@.len() == 6);
    assert("error"@.len() == 5);
    assert("code"@.len() == 4);
    assert("message"@.len() == 7);
    assert("data"@.len() == 4);
    assert("method"@[0] == 'm');
    assert("params"@[0] == 'p');
    assert("result"@[0] == 'r');
    assert("code"@[0] == 'c');
    assert("data"@[0] == 'd');
}

/// An identifier that was written is read back as it was.
pub proof fn id_reads_back(id: RequestIdView)
    requires
        writable_id(id),
    ensures
        id_value(id_json(id)) == Some(id),
{
    match id {
        RequestIdView::Number(n) => {
            signed_decimal_denotes(n);
        },
        RequestIdView::Text(_) => {},
    }
}

/// An error that was written is read back as it was.
pub proof fn error_reads_back(e: RpcErrorView)
    requires
        i32::MIN <= e.code <= i32::MAX,
    ensures
        error_value(error_json(e)) == Some(e),
{
    member_names_differ();
    signed_decimal_denotes(e.code);
    let code = JsonView::Number(signed_decimal(e.code));
    let message = JsonView::Text(e.message);
    let j0 = JsonView::Null;
    let j1 = with_member(j0, "code"@, code);
    let j2 = with_member(j1, "message"@, message);
    lookup_with_member(j0, "code"@, code, "code"@);
    lookup_with_member(j0, "code"@, code, "message"@);
    lookup_with_member(j0, "code"@, code, "data"@);
    lookup_with_member(j1, "message"@, message, "code"@);
    lookup_with_member(j1, "message"@, message, "message"@);
    lookup_with_member(j1, "message"@, message, "data"@);
    match e.data {
        Some(d) => {
            lookup_with_member(j2, "data"@, d, "code"@);
            lookup_with_member(j2, "data"@, d, "message"@);
            lookup_with_member(j2, "data"@, d, "data"@);
        },
        None => {},
    }
}

/// What is found in the object that every message begins as.
pub proof fn envelope_members(key: Seq<char>)
    ensures
        lookup(envelope(), key) == if key == "jsonrpc"@ {
            Some(JsonView::Text("2.0"@))
        } else {
            None
        },
{
    lookup_with_member(JsonView::Null, "jsonrpc"@, JsonView::Text("2.0"@), key);
}

/// What is found once the parameters are added.
pub proof fn with_params_members(j: JsonView, params: Option<JsonView>, key: Seq<char>)
    ensures
        lookup(with_params(j, params), key) == if key == "params"@ && params is Some {
            params
        } else {
            lookup(j, key)
        },
{
    match params {
        Some(p) => {
            lookup_with_member(j, "params"@, p, key);
        },
        None => {},
    }
}

/// Writing a message and reading it back gives the message: every writable
/// message is read as itself from the JSON value it was written as.
pub proof fn decode_inverts_encode(m: MessageView)
    requires
        writable(m),
    ensures
        decoded(Some(encoded(m))) == DecodedView::Message(m),
{
    member_names_differ();
    envelope_members("jsonrpc"@);
    envelope_members("id"@);
    envelope_members("method"@);
    envelope_members("params"@);
    envelope_members("result"@);
    envelope_members("error"@);
    let e0 = envelope();
    match m {
        MessageView::Request { id, method, params } => {
            id_reads_back(id);
            let e1 = with_member(e0, "id"@, id_json(id));
            let e2 = with_member(e1, "method"@, JsonView::Text(method));
            lookup_with_member(e0, "id"@, id_json(id), "jsonrpc"@);
            lookup_with_member(e0, "id"@, id_json(id), "id"@);
            lookup_with_member(e0, "id"@, id_json(id), "method"@);
            lookup_with_member(e0, "id"@, id_json(id), "params"@);
            lookup_with_member(e1, "method"@, JsonView::Text(method), "jsonrpc"@);
            lookup_with_member(e1, "method"@, JsonView::Text(method), "id"@);
            lookup_with_member(e1, "method"@, JsonView::Text(method), "method"@);
            lookup_with_member(e1, "method"@, JsonView::Text(method), "params"@);
            with_params_members(e2, params, "jsonrpc"@);
            with_params_members(e2, params, "id"@);
            with_params_members(e2, params, "method"@);
            with_params_members(e2, params, "params"@);
        },
        MessageView::Notification { method, params } => {
            let e1 = with_member(e0, "method"@, JsonView::Text(method));
            lookup_with_member(e0, "method"@, JsonView::Text(method), "jsonrpc"@);
            lookup_with_member(e0, "method"@, JsonView::Text(method), "id"@);
            lookup_with_member(e0, "method"@, JsonView::Text(method), "method"@);
            lookup_with_member(e0, "method"@, JsonView::Text(method), "params"@);
            with_params_members(e1, params, "jsonrpc"@);
            with_params_members(e1, params, "id"@);
            with_params_members(e1, params, "method"@);
            with_params_members(e1, params, "params"@);
        },
        MessageView::Response { id, outcome } => {
            id_reads_back(id);
            let e1 = with_member(e0, "id"@, id_json(id));
            lookup_with_member(e0, "id"@, id_json(id), "jsonrpc"@);
            lookup_with_member(e0, "id"@, id_json(id), "id"@);
            lookup_with_member(e0, "id"@, id_json(id), "method"@);
            lookup_with_member(e0, "id"@, id_json(id), "result"@);
            lookup_with_member(e0, "id"@, id_json(id), "error"@);
            match outcome {
                Ok(v) => {
                    lookup_with_member(e1, "result"@, v, "jsonrpc"@);
                    lookup_with_member(e1, "result"@, v, "id"@);
                    lookup_with_member(e1, "result"@, v, "method"@);
                    lookup_with_member(e1, "result"@, v, "result"@);
                    lookup_with_member(e1, "result"@, v, "error"@);
                },
                Err(e) => {
                    error_reads_back(e);
                    lookup_with_member(e1, "error"@, error_json(e), "jsonrpc"@);
                    lookup_with_member(e1, "error"@, error_json(e), "id"@);
                    lookup_with_member(e1, "error"@, error_json(e), "method"@);
                    lookup_with_member(e1, "error"@, error_json(e), "result"@);
                    lookup_with_member(e1, "error"@, error_json(e), "error"@);
                },
            }
        },
    }
}

} // verus!
