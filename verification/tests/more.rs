use symposium::acp::{parse_session_notification, AgentNotification, McpServer};
use symposium::conductor::UntypedMessage;
use symposium::error::RpcError;
use symposium::handlers::{
    AcpConductorMessages, AcpMcpCallbacks, AcpMcpMessages, ConductorCallbacks, Handled,
    JsonRpcHandler, JsonRpcNotificationCx, JsonRpcRequestCx,
};
use symposium::json::{Json, Member};
use symposium::jsonrpc::{Message, RequestId};
use symposium::proxy::{classify_proxy, expand_proxy, ProxySource, ProxyWord};
use symposium::text::{
    decimal_string, ends_with, eq_ignore_ascii_case, join, signed_decimal_string, starts_with,
    trim, trim_start_matches,
};
use symposium::text_map::TextMap;
use symposium::vscodelm::SessionState;

fn object(members: Vec<(&str, Json)>) -> Json {
    Json::Object(
        members
            .into_iter()
            .map(|(key, value)| Member {
                key: key.to_string(),
                value,
            })
            .collect(),
    )
}

fn text(s: &str) -> Json {
    Json::Text(s.to_string())
}

#[test]
fn words_of_the_command_line_ask_for_proxies() {
    assert_eq!(classify_proxy(" {\"name\":\"x\"} "), ProxyWord::Json);
    assert_eq!(classify_proxy("defaults"), ProxyWord::Defaults);
    assert_eq!(classify_proxy(" ferris "), ProxyWord::Builtin);
    assert_eq!(classify_proxy("Ferris"), ProxyWord::Unknown);
    let no_server = || Err::<McpServer, String>("not asked".to_string());
    let all = expand_proxy("defaults", no_server()).unwrap();
    assert!(matches!(
        all.as_slice(),
        [ProxySource::Builtin(a), ProxySource::Builtin(b), ProxySource::Builtin(c)]
            if a == "sparkle" && b == "ferris" && c == "cargo"
    ));
    let one = expand_proxy(" cargo ", no_server()).unwrap();
    assert!(matches!(one.as_slice(), [ProxySource::Builtin(a)] if a == "cargo"));
    assert_eq!(
        expand_proxy(" nope ", no_server()).err().unwrap(),
        "Unknown proxy name: 'nope'. Expected a known proxy (sparkle, ferris, cargo, defaults) or json."
    );
    assert_eq!(
        expand_proxy("{", Err("EOF while parsing".to_string()))
            .err()
            .unwrap(),
        "Failed to parse JSON: EOF while parsing"
    );
    let server = McpServer::Stdio {
        name: "x".to_string(),
        command: "run".to_string(),
        args: vec![],
        env: vec![],
    };
    let json = expand_proxy("{\"name\":\"x\",\"command\":\"run\"}", Ok(server)).unwrap();
    assert!(matches!(
        json.as_slice(),
        [ProxySource::AcpProxy(McpServer::Stdio { name, .. })] if name == "x"
    ));
}

struct Seen {
    methods: Vec<String>,
}

impl AcpMcpCallbacks for Seen {
    fn mcp_request(&mut self, request: UntypedMessage, _cx: JsonRpcRequestCx) -> Result<(), RpcError> {
        self.methods.push(request.method);
        Ok(())
    }

    fn mcp_notification(
        &mut self,
        notification: UntypedMessage,
        _cx: JsonRpcNotificationCx,
    ) -> Result<(), RpcError> {
        if notification.method == "fail" {
            return Err(RpcError::internal_error());
        }
        self.methods.push(notification.method);
        Ok(())
    }
}

impl ConductorCallbacks for Seen {
    fn successor_send_request(
        &mut self,
        args: UntypedMessage,
        _response: JsonRpcRequestCx,
    ) -> Result<(), RpcError> {
        self.methods.push(args.method);
        Ok(())
    }

    fn successor_send_notification(
        &mut self,
        args: UntypedMessage,
        _cx: JsonRpcNotificationCx,
    ) -> Result<(), RpcError> {
        self.methods.push(args.method);
        Ok(())
    }
}

fn cx(method: &str) -> JsonRpcRequestCx {
    JsonRpcRequestCx {
        id: RequestId::Text("r".to_string()),
        method: method.to_string(),
    }
}

fn ncx(method: &str) -> JsonRpcNotificationCx {
    JsonRpcNotificationCx {
        method: method.to_string(),
    }
}

fn wrapped(method: &str) -> Option<Json> {
    Some(object(vec![
        ("method", text(method)),
        ("params", object(vec![])),
    ]))
}

#[test]
fn mcp_messages_are_handed_to_the_callbacks() {
    let mut handler = AcpMcpMessages::callback(Seen { methods: vec![] });
    assert!(matches!(
        handler.handle_request(cx("_mcp/request"), &wrapped("tools/list")),
        Ok(Handled::Yes)
    ));
    assert!(matches!(
        handler.handle_request(cx("_mcp/connect"), &wrapped("tools/list")),
        Ok(Handled::No(c)) if c.method == "_mcp/connect"
    ));
    assert!(matches!(
        handler.handle_request(cx("_mcp/request"), &None),
        Err(e) if e.code == -32602
    ));
    assert!(matches!(
        handler.handle_notification(ncx("_mcp/notification"), &wrapped("progress")),
        Ok(Handled::Yes)
    ));
    assert!(matches!(
        handler.handle_notification(ncx("_mcp/notification"), &wrapped("fail")),
        Err(e) if e.code == -32603
    ));
    assert!(matches!(
        handler.handle_notification(ncx("session/update"), &wrapped("progress")),
        Ok(Handled::No(_))
    ));
    assert_eq!(handler.callbacks.methods, vec!["tools/list", "progress"]);
    assert_eq!(handler.describe_chain(), "mcp over acp");
}

#[test]
fn messages_for_the_successor_are_handed_to_the_conductor() {
    let mut handler = AcpConductorMessages::new(Seen { methods: vec![] });
    assert!(matches!(
        handler.handle_request(cx("_proxy/successor/send/request"), &wrapped("initialize")),
        Ok(Handled::Yes)
    ));
    assert!(matches!(
        handler.handle_notification(
            ncx("_proxy/successor/send/notification"),
            &wrapped("session/cancel")
        ),
        Ok(Handled::Yes)
    ));
    assert!(matches!(
        handler.handle_request(cx("initialize"), &wrapped("initialize")),
        Ok(Handled::No(_))
    ));
    assert!(matches!(
        handler.handle_notification(ncx("_proxy/successor/send/request"), &wrapped("x")),
        Ok(Handled::No(_))
    ));
    assert_eq!(handler.callbacks.methods, vec!["initialize", "session/cancel"]);
}

#[test]
fn a_session_is_cancelled_into_idleness() {
    let mut streaming = SessionState::Streaming {
        request_id: RequestId::Number(4),
    };
    assert!(streaming.is_streaming_request(&RequestId::Number(4)));
    assert!(!streaming.is_streaming_request(&RequestId::Number(5)));
    assert!(!streaming.is_streaming_request(&RequestId::Text("4".to_string())));
    assert_eq!(streaming.awaiting_permission_for(), None);
    assert!(streaming.cancel());
    assert!(matches!(streaming, SessionState::Idle));
    assert!(!streaming.cancel());
    let mut waiting = SessionState::AwaitingPermission {
        tool_call_id: "c1".to_string(),
    };
    assert_eq!(waiting.awaiting_permission_for(), Some("c1"));
    assert!(!waiting.cancel());
    assert!(matches!(waiting, SessionState::Idle));
}

#[test]
fn session_notifications_are_read_by_their_method() {
    assert!(matches!(
        parse_session_notification("session/update", &Some(text("p"))),
        Some(AgentNotification::SessionNotification(Json::Text(p))) if p == "p"
    ));
    assert!(parse_session_notification("session/update", &None).is_none());
    assert!(parse_session_notification("session/cancel", &Some(Json::Null)).is_none());
}

#[test]
fn texts_are_joined_trimmed_and_compared() {
    assert_eq!(join(&vec![], ", "), "");
    assert_eq!(join(&vec!["a".to_string()], ", "), "a");
    assert_eq!(
        join(&vec!["a".to_string(), "".to_string(), "c".to_string()], ", "),
        "a, , c"
    );
    assert_eq!(decimal_string(0), "0");
    assert_eq!(decimal_string(10), "10");
    assert_eq!(decimal_string(u64::MAX), "18446744073709551615");
    assert_eq!(signed_decimal_string(-32603), "-32603");
    assert_eq!(signed_decimal_string(i64::MIN), "-9223372036854775808");
    assert_eq!(
        trim_start_matches("because because x because", "because "),
        "x because"
    );
    assert_eq!(trim_start_matches("abc", ""), "abc");
    assert_eq!(trim_start_matches("ééa", "é"), "a");
    assert_eq!(trim("  \t héllo \r\n"), "héllo");
    assert_eq!(trim(" \n "), "");
    assert!(starts_with("acp:x", "acp:"));
    assert!(!starts_with("ac", "acp:"));
    assert!(starts_with("x", ""));
    assert!(ends_with("cli-battery-pack", "-battery-pack"));
    assert!(!ends_with("pack", "-battery-pack"));
    assert!(eq_ignore_ascii_case("CanCel", "cancel"));
    assert!(!eq_ignore_ascii_case("cancel!", "cancel"));
    assert!(!eq_ignore_ascii_case("É", "é"));
}

#[test]
fn text_map_binds_each_key_once() {
    let mut map: TextMap<u32> = TextMap::new();
    map.insert("a", 1);
    map.insert("b", 2);
    map.insert("a", 3);
    assert_eq!(map.len(), 2);
    assert_eq!(map.get("a"), Some(&3));
    assert_eq!(map.find("b"), Some(1));
    assert!(map.contains("b"));
    assert!(map.remove("a"));
    assert!(!map.remove("a"));
    assert_eq!(map.get("a"), None);
    assert_eq!(map.find("b"), Some(0));
}

#[test]
fn a_request_is_answered_once_under_its_identifier() {
    assert!(matches!(
        cx("m").respond(text("ok")),
        Message::Response { id: RequestId::Text(id), outcome: Ok(Json::Text(t)) } if id == "r" && t == "ok"
    ));
    assert!(matches!(
        cx("m").respond_with_error(RpcError::invalid_params()),
        Message::Response { outcome: Err(e), .. } if e.code == -32602
    ));
    assert!(matches!(
        cx("m").respond_with_result(Ok(Json::Null)),
        Message::Response { outcome: Ok(Json::Null), .. }
    ));
    assert!(matches!(
        cx("m").abandon(),
        Message::Response { id: RequestId::Text(id), outcome: Err(e) } if id == "r" && e.code == -32603
    ));
}

#[test]
fn a_crate_query_becomes_a_research_request() {
    let params = symposium::crate_sources::RustCrateQueryParams {
        crate_name: "serde".to_string(),
        crate_version: Some("^1".to_string()),
        prompt: "How are field names customised?".to_string(),
    };
    let request = params.into_request();
    assert_eq!(request.crate_name, "serde");
    assert_eq!(request.crate_version, Some("^1".to_string()));
    assert_eq!(request.prompt, "How are field names customised?");
    assert_eq!(symposium::crate_sources::TOOL_NAME, "rust_crate_query");
    assert_eq!(symposium::crate_sources::SERVER_NAME, "rust-crate-query");
    let from = symposium::conductor::ReceiveFromSuccessorRequest {
        method: "fs/read_text_file".to_string(),
        params: None,
    };
    assert_eq!(from.method(), "_proxy/successor/receive/request");
    assert!(matches!(
        symposium::conductor::FromSuccessorResponse::from_outcome(Ok(Json::Null)),
        symposium::conductor::FromSuccessorResponse::Result(Json::Null)
    ));
}
