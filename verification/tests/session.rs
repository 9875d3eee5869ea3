use symposium::acp::{read_mcp_servers, write_mcp_servers, McpServer, NameValue};
use symposium::acp::{AgentNotification, AgentRequest, ClientNotification, ClientRequest};
use symposium::acp_client::AcpClient;
use symposium::capability::add_capability;
use symposium::conductor::{ToSuccessorNotification, ToSuccessorRequest, ToSuccessorResponse};
use symposium::error::RpcError;
use symposium::handlers::{
    GenericHandler, Handled, JsonRpcHandler, JsonRpcMessage, JsonRpcNotificationCx,
    JsonRpcRequestCx, MessageCallback, NotificationCallback, NotificationHandler, RequestCallback,
    RequestFromSuccessorHandler, RequestHandler,
};
use symposium::json::{Json, Member};
use symposium::jsonrpc::{Message, RequestId};
use symposium::mcp_bridge::{speaks_mcp_over_acp, McpBridger, McpPort};
use symposium::mcp_server::McpServiceRegistry;
use symposium::pending::PendingResponses;

fn object(members: Vec<(&str, Json)>) -> Json {
    Json::Object(
        members
            .into_iter()
            .map(|(key, value)| Member {
                key: key.to_string(),
                value,
            })
            .collect(),
    )
}

fn text(s: &str) -> Json {
    Json::Text(s.to_string())
}

fn same(a: &Json, b: &Json) -> bool {
    match (a, b) {
        (Json::Null, Json::Null) => true,
        (Json::Bool(x), Json::Bool(y)) => x == y,
        (Json::Number(x), Json::Number(y)) => x == y,
        (Json::Text(x), Json::Text(y)) => x == y,
        (Json::Array(x), Json::Array(y)) => {
            x.len() == y.len() && x.iter().zip(y).all(|(p, q)| same(p, q))
        }
        (Json::Object(x), Json::Object(y)) => {
            x.len() == y.len()
                && x.iter()
                    .zip(y)
                    .all(|(p, q)| p.key == q.key && same(&p.value, &q.value))
        }
        _ => false,
    }
}

fn session_params() -> Json {
    object(vec![
        ("cwd", text("/tmp")),
        (
            "mcpServers",
            Json::Array(vec![
                object(vec![
                    ("name", text("tools")),
                    ("type", text("http")),
                    ("url", text("acp:1234")),
                    ("headers", Json::Array(vec![])),
                ]),
                object(vec![
                    ("name", text("local")),
                    ("command", text("run")),
                    ("args", Json::Array(vec![text("--fast")])),
                    (
                        "env",
                        Json::Array(vec![object(vec![
                            ("name", text("KEY")),
                            ("value", text("v")),
                        ])]),
                    ),
                ]),
            ]),
        ),
        ("extra", Json::Bool(true)),
    ])
}

#[test]
fn servers_are_read_from_session_parameters() {
    let servers = read_mcp_servers(&Some(session_params())).unwrap();
    assert_eq!(servers.len(), 2);
    assert!(matches!(
        &servers[0],
        McpServer::Http { name, url, headers } if name == "tools" && url == "acp:1234" && headers.is_empty()
    ));
    match &servers[1] {
        McpServer::Stdio {
            name,
            command,
            args,
            env,
        } => {
            assert_eq!(name, "local");
            assert_eq!(command, "run");
            assert_eq!(args, &vec!["--fast".to_string()]);
            assert_eq!(env.len(), 1);
            assert_eq!((env[0].name.as_str(), env[0].value.as_str()), ("KEY", "v"));
        }
        _ => panic!("a server on standard streams"),
    }
    assert!(read_mcp_servers(&None).unwrap().is_empty());
    assert!(read_mcp_servers(&Some(object(vec![]))).unwrap().is_empty());
    let malformed = object(vec![("mcpServers", text("none"))]);
    assert_eq!(read_mcp_servers(&Some(malformed)).err().unwrap().code, -32602);
    let unnamed = object(vec![(
        "mcpServers",
        Json::Array(vec![object(vec![("command", text("run"))])]),
    )]);
    assert!(read_mcp_servers(&Some(unnamed)).is_err());
    let unknown_kind = object(vec![("name", text("x")), ("type", text("ws"))]);
    assert!(McpServer::from_json(&unknown_kind).is_none());
}

#[test]
fn written_servers_are_read_back() {
    let servers = vec![
        McpServer::Http {
            name: "a".to_string(),
            url: "https://x".to_string(),
            headers: vec![NameValue {
                name: "Authorization".to_string(),
                value: "t".to_string(),
            }],
        },
        McpServer::Sse {
            name: "b".to_string(),
            url: "https://y".to_string(),
            headers: vec![],
        },
        McpServer::Stdio {
            name: "c".to_string(),
            command: "conductor".to_string(),
            args: vec!["mcp".to_string(), "4000".to_string()],
            env: vec![],
        },
    ];
    let written = write_mcp_servers(Some(session_params()), &servers);
    assert!(same(written.get("cwd").unwrap(), &text("/tmp")));
    assert!(same(written.get("extra").unwrap(), &Json::Bool(true)));
    let read = read_mcp_servers(&Some(written)).unwrap();
    assert_eq!(read.len(), 3);
    assert!(matches!(
        &read[0],
        McpServer::Http { name, url, headers } if name == "a" && url == "https://x" && headers[0].value == "t"
    ));
    assert!(matches!(&read[1], McpServer::Sse { name, .. } if name == "b"));
    assert!(matches!(&read[2], McpServer::Stdio { args, .. } if args[1] == "4000"));
    assert!(same(
        &servers[2].to_json(),
        &object(vec![
            ("name", text("c")),
            ("command", text("conductor")),
            ("args", Json::Array(vec![text("mcp"), text("4000")])),
            ("env", Json::Array(vec![])),
        ])
    ));
}

#[test]
fn new_session_is_rewritten_for_an_agent_without_native_transport() {
    let mut bridger = McpBridger::new();
    let ports = vec![McpPort::new(51000)];
    let native = bridger
        .bridge_new_session(Some(session_params()), &ports, true)
        .unwrap();
    assert!(same(&native.unwrap(), &session_params()));
    let bridged = bridger
        .bridge_new_session(Some(session_params()), &ports, false)
        .unwrap()
        .unwrap();
    assert!(same(bridged.get("cwd").unwrap(), &text("/tmp")));
    assert!(same(bridged.get("extra").unwrap(), &Json::Bool(true)));
    let servers = read_mcp_servers(&Some(bridged)).unwrap();
    assert!(matches!(
        &servers[0],
        McpServer::Stdio { name, command, args, .. }
            if name == "tools" && command == "conductor" && args == &vec!["mcp".to_string(), "51000".to_string()]
    ));
    assert!(matches!(&servers[1], McpServer::Stdio { command, .. } if command == "run"));
    assert_eq!(bridger.lookup("acp:1234"), Some(McpPort::new(51000)));
    let no_ports = bridger.bridge_new_session(Some(session_params()), &vec![], false);
    assert_eq!(no_ports.err().unwrap().code, -32603);
    let result = object(vec![("agentCapabilities", object(vec![]))]);
    assert!(!speaks_mcp_over_acp(&result));
    let meta = add_capability(None, "mcp_acp_transport").unwrap();
    assert!(speaks_mcp_over_acp(&result.set("_meta", meta)));
}

#[test]
fn new_session_is_enriched_with_registered_servers() {
    let mut registry = McpServiceRegistry::new();
    registry.register("tools", "u-1").unwrap();
    let enriched = registry.enrich_new_session(Some(session_params())).unwrap();
    assert!(same(enriched.get("cwd").unwrap(), &text("/tmp")));
    let servers = read_mcp_servers(&Some(enriched)).unwrap();
    assert_eq!(servers.len(), 3);
    assert!(matches!(
        &servers[2],
        McpServer::Http { name, url, headers } if name == "tools" && url == "acp:u-1" && headers.is_empty()
    ));
    let fresh = registry.enrich_new_session(None).unwrap();
    assert_eq!(read_mcp_servers(&Some(fresh)).unwrap().len(), 1);
    assert_eq!(registry.advertise().len(), 1);
    let malformed = object(vec![("mcpServers", Json::Null)]);
    assert!(registry.enrich_new_session(Some(malformed)).is_err());
}

#[test]
fn messages_travel_under_their_methods() {
    assert_eq!(ClientRequest::InitializeRequest(Json::Null).method(), "initialize");
    assert_eq!(ClientRequest::AuthenticateRequest(Json::Null).method(), "authenticate");
    assert_eq!(ClientRequest::NewSessionRequest(Json::Null).method(), "session/new");
    assert_eq!(ClientRequest::LoadSessionRequest(Json::Null).method(), "session/load");
    assert_eq!(ClientRequest::SetSessionModeRequest(Json::Null).method(), "session/set_mode");
    assert_eq!(ClientRequest::PromptRequest(Json::Null).method(), "session/prompt");
    assert!(matches!(
        ClientRequest::from_method("session/prompt", Json::Null),
        ClientRequest::PromptRequest(_)
    ));
    assert!(matches!(
        ClientRequest::from_method("_custom", Json::Null),
        ClientRequest::ExtMethodRequest { method, .. } if method == "_custom"
    ));
    assert_eq!(ClientNotification::CancelNotification(Json::Null).method(), "session/cancel");
    assert_eq!(AgentNotification::SessionNotification(Json::Null).method(), "session/update");
    assert_eq!(AgentRequest::WriteTextFileRequest(Json::Null).method(), "fs/write_text_file");
    assert_eq!(AgentRequest::ReadTextFileRequest(Json::Null).method(), "fs/read_text_file");
    assert_eq!(
        AgentRequest::RequestPermissionRequest(Json::Null).method(),
        "session/request_permission"
    );
    assert_eq!(AgentRequest::CreateTerminalRequest(Json::Null).method(), "terminal/create");
    assert_eq!(AgentRequest::TerminalOutputRequest(Json::Null).method(), "terminal/output");
    assert_eq!(AgentRequest::ReleaseTerminalRequest(Json::Null).method(), "terminal/release");
    assert_eq!(
        AgentRequest::WaitForTerminalExitRequest(Json::Null).method(),
        "terminal/wait_for_exit"
    );
    assert_eq!(AgentRequest::KillTerminalCommandRequest(Json::Null).method(), "terminal/kill");
    let ext = AgentRequest::ExtMethodRequest {
        method: "_x".to_string(),
        params: Json::Null,
    };
    assert_eq!(ext.method(), "_x");
    let to_successor = ToSuccessorRequest {
        method: "initialize".to_string(),
        params: Json::Null,
    };
    assert_eq!(to_successor.method(), "_proxy/successor/send/request");
    let notification = ToSuccessorNotification {
        method: "session/cancel".to_string(),
        params: Json::Null,
    };
    assert_eq!(notification.method(), "_proxy/successor/send/notification");
    assert!(matches!(
        ToSuccessorResponse::from_outcome(Ok::<i32, RpcError>(3)),
        ToSuccessorResponse::Result(3)
    ));
    assert!(matches!(
        ToSuccessorResponse::<i32>::from_outcome(Err(RpcError::internal_error())),
        ToSuccessorResponse::Error(e) if e.code == -32603
    ));
}

#[test]
fn client_requests_go_out_under_fresh_identifiers() {
    let mut client: AcpClient<u8> = AcpClient::new(PendingResponses::new());
    let first = client.request_permission(text("p"), 0).unwrap();
    assert!(matches!(
        first,
        Message::Request { id: RequestId::Number(0), method, params: Some(Json::Text(p)) }
            if method == "session/request_permission" && p == "p"
    ));
    let methods = [
        client.write_text_file(Json::Null, 1).unwrap(),
        client.read_text_file(Json::Null, 1).unwrap(),
        client.create_terminal(Json::Null, 1).unwrap(),
        client.terminal_output(Json::Null, 1).unwrap(),
        client.release_terminal(Json::Null, 1).unwrap(),
        client.wait_for_terminal_exit(Json::Null, 1).unwrap(),
        client.kill_terminal_command(Json::Null, 1).unwrap(),
    ];
    let expected = [
        "fs/write_text_file",
        "fs/read_text_file",
        "terminal/create",
        "terminal/output",
        "terminal/release",
        "terminal/wait_for_exit",
        "terminal/kill",
    ];
    for (i, (message, name)) in methods.iter().zip(expected).enumerate() {
        match message {
            Message::Request { id, method, .. } => {
                assert!(matches!(id, RequestId::Number(n) if *n == i as i64 + 1));
                assert_eq!(method, name);
            }
            _ => panic!("a request"),
        }
    }
    assert_eq!(client.cx.len(), 8);
    assert_eq!(client.cx.receive_response(&RequestId::Number(0)), Some(0));
    assert_eq!(client.cx.receive_response(&RequestId::Number(3)), Some(1));
    assert_eq!(client.cx.len(), 6);
    assert!(matches!(
        client.session_notification(Json::Null),
        Message::Notification { method, .. } if method == "session/update"
    ));
    assert_eq!(client.cx.len(), 6);
}

struct Ping {
    payload: String,
}

impl JsonRpcMessage for Ping {
    fn parse(method: &str, params: &Option<Json>) -> Option<Result<Self, RpcError>> {
        if method != "ping" {
            return None;
        }
        match params.as_ref().and_then(|p| p.get("payload")) {
            Some(Json::Text(t)) => Some(Ok(Ping { payload: t.clone() })),
            _ => Some(Err(RpcError::invalid_params())),
        }
    }
}

struct Collect {
    seen: Vec<String>,
}

impl RequestCallback<Ping> for Collect {
    fn call(&mut self, request: Ping, _cx: JsonRpcRequestCx) -> Result<(), RpcError> {
        if request.payload == "boom" {
            return Err(RpcError::internal_error());
        }
        self.seen.push(request.payload);
        Ok(())
    }
}

impl NotificationCallback<Ping> for Collect {
    fn call(&mut self, notification: Ping, _cx: JsonRpcNotificationCx) -> Result<(), RpcError> {
        self.seen.push(notification.payload);
        Ok(())
    }
}

impl MessageCallback for Collect {
    fn on_request(
        &mut self,
        message: symposium::conductor::UntypedMessage,
        _cx: JsonRpcRequestCx,
    ) -> Result<(), RpcError> {
        self.seen.push(message.method);
        Ok(())
    }

    fn on_notification(
        &mut self,
        message: symposium::conductor::UntypedMessage,
        _cx: JsonRpcNotificationCx,
    ) -> Result<(), RpcError> {
        self.seen.push(message.method);
        Ok(())
    }
}

fn cx(method: &str) -> JsonRpcRequestCx {
    JsonRpcRequestCx {
        id: RequestId::Number(1),
        method: method.to_string(),
    }
}

#[test]
fn typed_handler_takes_the_requests_of_its_type() {
    let mut handler: RequestHandler<Ping, Collect> = RequestHandler::new(Collect { seen: vec![] });
    let params = Some(object(vec![("payload", text("hello"))]));
    assert!(matches!(
        handler.handle_request(cx("ping"), &params),
        Ok(Handled::Yes)
    ));
    assert!(matches!(
        handler.handle_request(cx("pong"), &params),
        Ok(Handled::No(c)) if c.method == "pong"
    ));
    assert!(matches!(
        handler.handle_request(cx("ping"), &None),
        Err(e) if e.code == -32602
    ));
    let failing = Some(object(vec![("payload", text("boom"))]));
    assert!(matches!(
        handler.handle_request(cx("ping"), &failing),
        Err(e) if e.code == -32603
    ));
    let notification = JsonRpcNotificationCx {
        method: "ping".to_string(),
    };
    assert!(matches!(
        handler.handle_notification(notification, &params),
        Ok(Handled::No(_))
    ));
    assert_eq!(handler.handler.seen, vec!["hello"]);
    let mut notifications: NotificationHandler<Ping, Collect> =
        NotificationHandler::new(Collect { seen: vec![] });
    let notification = JsonRpcNotificationCx {
        method: "ping".to_string(),
    };
    assert!(matches!(
        notifications.handle_notification(notification, &params),
        Ok(Handled::Yes)
    ));
    assert!(matches!(
        notifications.handle_request(cx("ping"), &params),
        Ok(Handled::No(_))
    ));
    assert_eq!(notifications.handler.seen, vec!["hello"]);
}

#[test]
fn messages_from_the_successor_are_unwrapped_for_typed_handlers() {
    let mut handler: RequestFromSuccessorHandler<Ping, Collect> =
        RequestFromSuccessorHandler::new(Collect { seen: vec![] });
    let wrapped = Some(object(vec![
        ("method", text("ping")),
        ("params", object(vec![("payload", text("inner"))])),
    ]));
    assert!(matches!(
        handler.handle_request(cx("_proxy/successor/receive/request"), &wrapped),
        Ok(Handled::Yes)
    ));
    assert!(matches!(
        handler.handle_request(cx("ping"), &wrapped),
        Ok(Handled::No(_))
    ));
    let other = Some(object(vec![
        ("method", text("pong")),
        ("params", object(vec![])),
    ]));
    assert!(matches!(
        handler.handle_request(cx("_proxy/successor/receive/request"), &other),
        Ok(Handled::No(_))
    ));
    assert!(matches!(
        handler.handle_request(cx("_proxy/successor/receive/request"), &None),
        Err(e) if e.code == -32602
    ));
    assert_eq!(handler.handler.seen, vec!["inner"]);
}

#[test]
fn all_messages_handler_takes_everything() {
    let mut handler = GenericHandler::send_to(Collect { seen: vec![] });
    assert!(matches!(
        handler.handle_request(cx("anything"), &None),
        Ok(Handled::Yes)
    ));
    let notification = JsonRpcNotificationCx {
        method: "session/update".to_string(),
    };
    assert!(matches!(
        handler.handle_notification(notification, &None),
        Ok(Handled::Yes)
    ));
    assert_eq!(handler.callback.seen, vec!["anything", "session/update"]);
    assert_eq!(handler.describe_chain(), "(all messages)");
}
