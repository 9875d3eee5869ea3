use symposium::connection::{Delivery, JsonRpcConnection};
use symposium::error::RpcError;
use symposium::framing::{frame, strip, LineFramer};
use symposium::handlers::{
    ChainHandler, Handled, JsonRpcHandler, JsonRpcNotificationCx, JsonRpcRequestCx, NullHandler,
};
use symposium::json::{Json, Member};
use symposium::jsonrpc::{decode, encode, Decoded, Message, RequestId};
use symposium::numeral::{parse_i64, parse_usize};
use symposium::pending::{PendingResponses, SendError};

fn object(members: Vec<(&str, Json)>) -> Json {
    Json::Object(
        members
            .into_iter()
            .map(|(key, value)| Member {
                key: key.to_string(),
                value,
            })
            .collect(),
    )
}

fn text(s: &str) -> Json {
    Json::Text(s.to_string())
}

fn same(a: &Json, b: &Json) -> bool {
    match (a, b) {
        (Json::Null, Json::Null) => true,
        (Json::Bool(x), Json::Bool(y)) => x == y,
        (Json::Number(x), Json::Number(y)) => x == y,
        (Json::Text(x), Json::Text(y)) => x == y,
        (Json::Array(x), Json::Array(y)) => {
            x.len() == y.len() && x.iter().zip(y).all(|(p, q)| same(p, q))
        }
        (Json::Object(x), Json::Object(y)) => {
            x.len() == y.len()
                && x.iter()
                    .zip(y)
                    .all(|(p, q)| p.key == q.key && same(&p.value, &q.value))
        }
        _ => false,
    }
}

fn envelope(mut members: Vec<(&str, Json)>) -> Json {
    members.insert(0, ("jsonrpc", text("2.0")));
    object(members)
}

#[test]
fn request_is_read() {
    let j = envelope(vec![
        ("id", Json::Number("7".to_string())),
        ("method", text("initialize")),
        ("params", object(vec![("protocolVersion", Json::Number("1".to_string()))])),
        ("extra", text("ignored")),
    ]);
    match decode(Some(j)) {
        Decoded::Message(Message::Request { id, method, params }) => {
            assert!(matches!(id, RequestId::Number(7)));
            assert_eq!(method, "initialize");
            assert!(same(
                &params.unwrap(),
                &object(vec![("protocolVersion", Json::Number("1".to_string()))])
            ));
        }
        _ => panic!("a request"),
    }
}

#[test]
fn notification_and_responses_are_read() {
    let n = envelope(vec![("method", text("session/update"))]);
    assert!(matches!(
        decode(Some(n)),
        Decoded::Message(Message::Notification { method, params: None }) if method == "session/update"
    ));
    let ok = envelope(vec![("id", text("a")), ("result", Json::Null)]);
    assert!(matches!(
        decode(Some(ok)),
        Decoded::Message(Message::Response { id: RequestId::Text(id), outcome: Ok(Json::Null) }) if id == "a"
    ));
    let err = envelope(vec![
        ("id", Json::Number("-3".to_string())),
        (
            "error",
            object(vec![
                ("code", Json::Number("-32601".to_string())),
                ("message", text("Method not found")),
            ]),
        ),
    ]);
    match decode(Some(err)) {
        Decoded::Message(Message::Response {
            id: RequestId::Number(-3),
            outcome: Err(e),
        }) => {
            assert_eq!(e.code, -32601);
            assert_eq!(e.message, "Method not found");
            assert!(e.data.is_none());
        }
        _ => panic!("an error response"),
    }
}

#[test]
fn what_is_no_message_is_rejected_or_dropped() {
    assert!(matches!(decode(None), Decoded::Dropped));
    let unversioned = object(vec![("id", Json::Number("1".to_string())), ("method", text("m"))]);
    match decode(Some(unversioned)) {
        Decoded::Reject { id, error } => {
            assert!(matches!(id, RequestId::Number(1)));
            assert_eq!(error.code, -32600);
        }
        _ => panic!("an invalid request with an id is answered"),
    }
    let wrong_version = object(vec![("jsonrpc", text("1.0")), ("method", text("m"))]);
    assert!(matches!(decode(Some(wrong_version)), Decoded::Dropped));
    let bad_id = envelope(vec![("id", Json::Null), ("method", text("m"))]);
    assert!(matches!(decode(Some(bad_id)), Decoded::Dropped));
    let fractional = envelope(vec![("id", Json::Number("1.5".to_string())), ("method", text("m"))]);
    assert!(matches!(decode(Some(fractional)), Decoded::Dropped));
    let scalar_params = envelope(vec![
        ("id", Json::Number("1".to_string())),
        ("method", text("m")),
        ("params", text("no")),
    ]);
    assert!(matches!(
        decode(Some(scalar_params)),
        Decoded::Reject { error, .. } if error.code == -32600
    ));
    let both = envelope(vec![
        ("id", Json::Number("1".to_string())),
        ("result", Json::Null),
        ("error", object(vec![])),
    ]);
    assert!(matches!(decode(Some(both)), Decoded::Reject { .. }));
    let neither = envelope(vec![("id", Json::Number("1".to_string()))]);
    assert!(matches!(decode(Some(neither)), Decoded::Reject { .. }));
    assert!(matches!(decode(Some(Json::Array(vec![]))), Decoded::Dropped));
}

#[test]
fn written_message_is_read_back() {
    let request = Message::Request {
        id: RequestId::Number(-42),
        method: "session/prompt".to_string(),
        params: Some(Json::Array(vec![text("Hello")])),
    };
    let j = encode(request);
    assert!(same(
        &j,
        &object(vec![
            ("jsonrpc", text("2.0")),
            ("id", Json::Number("-42".to_string())),
            ("method", text("session/prompt")),
            ("params", Json::Array(vec![text("Hello")])),
        ])
    ));
    assert!(matches!(
        decode(Some(j)),
        Decoded::Message(Message::Request { id: RequestId::Number(-42), method, params: Some(_) })
            if method == "session/prompt"
    ));
    let response = Message::Response {
        id: RequestId::Text("r1".to_string()),
        outcome: Err(RpcError {
            code: -32603,
            message: "component 0 is not a proxy".to_string(),
            data: Some(text("d")),
        }),
    };
    match decode(Some(encode(response))) {
        Decoded::Message(Message::Response {
            id: RequestId::Text(id),
            outcome: Err(e),
        }) => {
            assert_eq!(id, "r1");
            assert_eq!(e.code, -32603);
            assert_eq!(e.message, "component 0 is not a proxy");
            assert!(same(&e.data.unwrap(), &text("d")));
        }
        _ => panic!("the response"),
    }
    let notification = Message::Notification {
        method: "session/cancel".to_string(),
        params: None,
    };
    let j = encode(notification);
    assert!(j.get("params").is_none() && j.get("id").is_none());
    assert!(matches!(
        decode(Some(j)),
        Decoded::Message(Message::Notification { params: None, .. })
    ));
}

#[test]
fn numerals_are_read() {
    assert_eq!(parse_i64("0"), Some(0));
    assert_eq!(parse_i64("-17"), Some(-17));
    assert_eq!(parse_i64("9223372036854775807"), Some(i64::MAX));
    assert_eq!(parse_i64("-9223372036854775808"), Some(i64::MIN));
    assert_eq!(parse_i64("9223372036854775808"), None);
    assert_eq!(parse_i64("-9223372036854775809"), None);
    assert_eq!(parse_i64(""), None);
    assert_eq!(parse_i64("-"), None);
    assert_eq!(parse_i64("1.0"), None);
    assert_eq!(parse_i64("12a"), None);
    assert_eq!(parse_i64("007"), Some(7));
    assert_eq!(parse_usize("3"), Some(3));
    assert_eq!(parse_usize("+3"), Some(3));
    assert_eq!(parse_usize("-3"), None);
    assert_eq!(parse_usize("+"), None);
    assert_eq!(parse_usize(" 3"), None);
    assert_eq!(parse_usize("18446744073709551616"), None);
    assert_eq!(
        parse_usize("18446744073709551615"),
        "18446744073709551615".parse::<usize>().ok()
    );
}

#[test]
fn lines_are_cut_at_newlines() {
    let mut framer = LineFramer::new();
    assert!(framer.feed(&b"{\"a\":".to_vec()).is_empty());
    let frames = framer.feed(&b"1} \t\r\n\n   \n{\"b\":2}\n{\"c\"".to_vec());
    assert_eq!(frames, vec![b"{\"a\":1}".to_vec(), b"{\"b\":2}".to_vec()]);
    assert_eq!(framer.buffer, b"{\"c\"".to_vec());
    assert_eq!(framer.feed(&b":3}\n".to_vec()), vec![b"{\"c\":3}".to_vec()]);
    assert!(framer.buffer.is_empty());
    assert_eq!(frame(&b"x".to_vec()), b"x\n".to_vec());
    assert_eq!(strip(b"x \r".to_vec()), b"x".to_vec());
    assert_eq!(strip(b" \t".to_vec()), Vec::<u8>::new());
}

#[test]
fn response_completes_the_request_that_waits() {
    let mut pending: PendingResponses<&str> = PendingResponses::new();
    let first = pending.send_request("a".to_string(), None, "first").unwrap();
    let second = pending.send_request("b".to_string(), None, "second").unwrap();
    assert!(matches!(first, Message::Request { id: RequestId::Number(0), .. }));
    assert!(matches!(second, Message::Request { id: RequestId::Number(1), .. }));
    assert_eq!(pending.len(), 2);
    assert_eq!(pending.receive_response(&RequestId::Number(5)), None);
    assert_eq!(pending.receive_response(&RequestId::Text("0".to_string())), None);
    assert_eq!(pending.len(), 2);
    assert_eq!(pending.receive_response(&RequestId::Number(1)), Some("second"));
    assert_eq!(pending.receive_response(&RequestId::Number(1)), None);
    assert_eq!(pending.len(), 1);
    let third = pending.send_request("c".to_string(), None, "third").unwrap();
    assert!(matches!(third, Message::Request { id: RequestId::Number(2), .. }));
    let failed = pending.close();
    assert_eq!(failed.len(), 2);
    assert_eq!((failed[0].id, failed[0].waiter), (0, "first"));
    assert_eq!((failed[1].id, failed[1].waiter), (2, "third"));
    assert_eq!(pending.len(), 0);
    let mut exhausted: PendingResponses<()> = PendingResponses {
        next_id: i64::MAX,
        waiting: vec![],
    };
    assert!(matches!(
        exhausted.send_request("a".to_string(), None, ()),
        Err(SendError::IdentifiersExhausted)
    ));
}

struct Only {
    method: &'static str,
    seen: usize,
}

impl JsonRpcHandler for Only {
    fn handle_request(
        &mut self,
        cx: JsonRpcRequestCx,
        _params: &Option<Json>,
    ) -> Result<Handled<JsonRpcRequestCx>, RpcError> {
        self.seen += 1;
        if cx.method() == "fail" {
            Err(RpcError::new(-32000, "failed"))
        } else if cx.method() == self.method {
            Ok(Handled::Yes)
        } else {
            Ok(Handled::No(cx))
        }
    }

    fn handle_notification(
        &mut self,
        cx: JsonRpcNotificationCx,
        _params: &Option<Json>,
    ) -> Result<Handled<JsonRpcNotificationCx>, RpcError> {
        self.seen += 1;
        if cx.method() == self.method {
            Ok(Handled::Yes)
        } else {
            Ok(Handled::No(cx))
        }
    }

    fn describe_chain(&self) -> String {
        self.method.to_string()
    }
}

fn request_cx(method: &str) -> JsonRpcRequestCx {
    JsonRpcRequestCx {
        id: RequestId::Number(1),
        method: method.to_string(),
    }
}

#[test]
fn chain_tries_the_second_handler_only_after_the_first() {
    let mut chain = ChainHandler::new(
        Only { method: "a", seen: 0 },
        ChainHandler::new(Only { method: "b", seen: 0 }, NullHandler::default()),
    );
    assert_eq!(chain.describe_chain(), "a, b, (null)");
    assert!(matches!(
        chain.handle_request(request_cx("a"), &None),
        Ok(Handled::Yes)
    ));
    assert_eq!((chain.handler1.seen, chain.handler2.handler1.seen), (1, 0));
    assert!(matches!(
        chain.handle_request(request_cx("b"), &None),
        Ok(Handled::Yes)
    ));
    assert_eq!((chain.handler1.seen, chain.handler2.handler1.seen), (2, 1));
    match chain.handle_request(request_cx("c"), &None) {
        Ok(Handled::No(cx)) => {
            assert_eq!(cx.method, "c");
            assert!(matches!(cx.id, RequestId::Number(1)));
        }
        _ => panic!("nobody takes it"),
    }
    assert!(chain.handle_request(request_cx("fail"), &None).is_err());
    assert_eq!((chain.handler1.seen, chain.handler2.handler1.seen), (4, 2));
    let notification = JsonRpcNotificationCx {
        method: "b".to_string(),
    };
    assert!(matches!(
        chain.handle_notification(notification, &None),
        Ok(Handled::Yes)
    ));
}

#[test]
fn inbound_messages_are_dispatched() {
    let mut connection: JsonRpcConnection<Only, &str> =
        JsonRpcConnection::new(Only { method: "known", seen: 0 });
    let sent = connection
        .send_request("initialize".to_string(), None, "editor")
        .unwrap();
    assert!(matches!(sent, Message::Request { id: RequestId::Number(0), .. }));
    assert!(matches!(
        connection.send_notification("session/cancel".to_string(), None),
        Message::Notification { .. }
    ));
    let request = |method: &str| {
        Decoded::Message(Message::Request {
            id: RequestId::Number(9),
            method: method.to_string(),
            params: None,
        })
    };
    assert!(matches!(connection.dispatch(request("known")), Delivery::Handled));
    assert!(matches!(
        connection.dispatch(request("unknown")),
        Delivery::Respond { id: RequestId::Number(9), error } if error.code == -32601
    ));
    assert!(matches!(
        connection.dispatch(request("fail")),
        Delivery::Respond { id: RequestId::Number(9), error } if error.code == -32000
    ));
    let notification = Decoded::Message(Message::Notification {
        method: "unknown".to_string(),
        params: None,
    });
    assert!(matches!(connection.dispatch(notification), Delivery::LogAndDrop));
    let stray = Decoded::Message(Message::Response {
        id: RequestId::Number(4),
        outcome: Ok(Json::Null),
    });
    assert!(matches!(
        connection.dispatch(stray),
        Delivery::UnknownResponse { id: RequestId::Number(4) }
    ));
    assert_eq!(connection.pending.len(), 1);
    let answer = Decoded::Message(Message::Response {
        id: RequestId::Number(0),
        outcome: Ok(text("pong")),
    });
    assert!(matches!(
        connection.dispatch(answer),
        Delivery::CompleteRequest { id: RequestId::Number(0), outcome: Ok(Json::Text(t)), waiter: "editor" }
            if t == "pong"
    ));
    assert_eq!(connection.pending.len(), 0);
    assert!(matches!(
        connection.dispatch(Decoded::Reject {
            id: RequestId::Number(2),
            error: RpcError::invalid_request()
        }),
        Delivery::Respond { error, .. } if error.code == -32600
    ));
    assert!(matches!(connection.dispatch(Decoded::Dropped), Delivery::LogAndDrop));
    connection.send_request("a".to_string(), None, "a").unwrap();
    connection.send_request("b".to_string(), None, "b").unwrap();
    let failed = connection.close();
    assert_eq!(failed.len(), 2);
    assert!(matches!(
        &failed[0],
        Delivery::CompleteRequest { id: RequestId::Number(1), outcome: Err(e), waiter: "a" }
            if e.code == -32000
    ));
    assert!(matches!(
        &failed[1],
        Delivery::CompleteRequest { id: RequestId::Number(2), outcome: Err(e), waiter: "b" }
            if e.code == -32000
    ));
    assert_eq!(connection.pending.len(), 0);
}

#[test]
fn error_codes_are_those_of_the_protocol() {
    assert_eq!(RpcError::parse_error().code, -32700);
    assert_eq!(RpcError::invalid_request().code, -32600);
    assert_eq!(RpcError::method_not_found().code, -32601);
    assert_eq!(RpcError::invalid_params().code, -32602);
    assert_eq!(RpcError::internal_error().code, -32603);
    assert_eq!(RpcError::connection_closed().code, -32000);
    assert_eq!(RpcError::cancelled().code, -32800);
    assert_eq!(symposium::error::internal_error("boom").message, "boom");
}
