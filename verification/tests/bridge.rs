use symposium::acp::{McpServer, NameValue};
use symposium::error::RpcError;
use symposium::json::{Json, Member};
use symposium::mcp_bridge::{
    connect_failure_message, loopback_address, run_mcp_bridge, BridgeNeed, BridgeSide, McpBridger,
    McpPort, RelayStep, RetryState, RetryStep,
};
use symposium::mcp_over_acp::{McpNotification, McpRequest};
use symposium::mcp_server::{
    McpConnectRequest, McpDisconnectNotification, McpOverAcpMessage, McpServiceRegistry,
    NewSessionRequest, RegistryAction,
};

fn object(members: Vec<(&str, Json)>) -> Json {
    Json::Object(
        members
            .into_iter()
            .map(|(key, value)| Member {
                key: key.to_string(),
                value,
            })
            .collect(),
    )
}

fn text(s: &str) -> Json {
    Json::Text(s.to_string())
}

fn http(name: &str, url: &str) -> McpServer {
    McpServer::Http {
        name: name.to_string(),
        url: url.to_string(),
        headers: vec![],
    }
}

#[test]
fn retry_pauses_double_up_to_a_second() {
    let mut state = RetryState::new();
    let mut pauses = vec![];
    loop {
        match state.connect_with_retry(false) {
            RetryStep::RetryAfter { delay_ms } => pauses.push(delay_ms),
            RetryStep::GiveUp { attempts } => {
                assert_eq!(attempts, 10);
                break;
            }
            RetryStep::Connected { .. } => panic!("no attempt connected"),
        }
    }
    assert_eq!(pauses, vec![50, 100, 200, 400, 800, 1000, 1000, 1000, 1000]);
    assert!(pauses.iter().take(4).sum::<u64>() >= 500);
    let mut state = RetryState::new();
    assert_eq!(
        state.connect_with_retry(false),
        RetryStep::RetryAfter { delay_ms: 50 }
    );
    assert_eq!(
        state.connect_with_retry(true),
        RetryStep::Connected { attempt: 2 }
    );
    assert_eq!(loopback_address(4711), "127.0.0.1:4711");
    assert_eq!(
        connect_failure_message(80),
        "Failed to connect to localhost:80 after 10 attempts"
    );
}

#[test]
fn helper_forwards_json_lines_unchanged() {
    let line = "  {\"jsonrpc\":\"2.0\",\"id\":\"test-1\",\"method\":\"tools/call\"} \n".to_string();
    match run_mcp_bridge(BridgeSide::Stdio, line.len(), line.clone()) {
        RelayStep::Forward { to, line: out } => {
            assert_eq!(to, BridgeSide::Tcp);
            assert_eq!(out, line);
        }
        _ => panic!("the line is forwarded"),
    }
    assert!(matches!(
        run_mcp_bridge(BridgeSide::Tcp, 3, "[]\n".to_string()),
        RelayStep::Forward { to: BridgeSide::Stdio, .. }
    ));
    assert!(matches!(
        run_mcp_bridge(BridgeSide::Tcp, 9, "not json\n".to_string()),
        RelayStep::InvalidJson { from: BridgeSide::Tcp }
    ));
    assert!(matches!(
        run_mcp_bridge(BridgeSide::Stdio, 1, "\n".to_string()),
        RelayStep::InvalidJson { from: BridgeSide::Stdio }
    ));
    assert!(matches!(
        run_mcp_bridge(BridgeSide::Stdio, 0, String::new()),
        RelayStep::Shutdown { closed: BridgeSide::Stdio }
    ));
}

#[test]
fn acp_servers_go_behind_a_port() {
    let mut bridger = McpBridger::new();
    let mut servers = vec![
        http("tools", "acp:1234"),
        http("web", "https://example.com/mcp"),
        McpServer::Stdio {
            name: "local".to_string(),
            command: "run".to_string(),
            args: vec![],
            env: vec![],
        },
        http("more", "acp:5678"),
    ];
    let ports = vec![McpPort::new(40001), McpPort::new(40002)];
    assert!(bridger
        .bridge_session_servers(&mut servers, &ports, false)
        .is_ok());
    match &servers[0] {
        McpServer::Stdio {
            name,
            command,
            args,
            env,
        } => {
            assert_eq!(name, "tools");
            assert_eq!(command, "conductor");
            assert_eq!(args, &vec!["mcp".to_string(), "40001".to_string()]);
            assert!(env.is_empty());
        }
        _ => panic!("the server is bridged"),
    }
    assert!(matches!(&servers[1], McpServer::Http { url, .. } if url == "https://example.com/mcp"));
    assert!(matches!(&servers[2], McpServer::Stdio { command, .. } if command == "run"));
    assert!(matches!(&servers[3], McpServer::Stdio { args, .. } if args[1] == "40002"));
    assert_eq!(bridger.lookup("acp:1234"), Some(McpPort::new(40001)));
    assert_eq!(bridger.lookup("acp:5678"), Some(McpPort::new(40002)));
    assert_eq!(bridger.lookup("acp:0000"), None);
}

#[test]
fn native_agent_sees_servers_unchanged() {
    let mut bridger = McpBridger::new();
    let mut servers = vec![http("tools", "acp:1234")];
    assert!(bridger
        .bridge_session_servers(&mut servers, &vec![], true)
        .is_ok());
    assert!(matches!(&servers[0], McpServer::Http { url, .. } if url == "acp:1234"));
    assert!(bridger.mcp_bridges.is_empty());
}

#[test]
fn bridged_server_with_headers_is_refused() {
    let mut bridger = McpBridger::new();
    let with_headers = || McpServer::Http {
        name: "tools".to_string(),
        url: "acp:1234".to_string(),
        headers: vec![NameValue {
            name: "Authorization".to_string(),
            value: "x".to_string(),
        }],
    };
    assert_eq!(McpBridger::needs_bridge(&with_headers()), BridgeNeed::Refused);
    assert_eq!(
        McpBridger::needs_bridge(&http("t", "acp:1")),
        BridgeNeed::Bridge
    );
    assert_eq!(
        McpBridger::needs_bridge(&http("t", "ACP:1")),
        BridgeNeed::Untouched
    );
    let mut one = with_headers();
    let refused = bridger.transform_mcp_servers(&mut one, McpPort::new(1));
    assert_eq!(refused.err().unwrap().code, -32603);
    assert!(matches!(&one, McpServer::Http { headers, .. } if headers.len() == 1));
    let mut servers = vec![http("a", "acp:1"), with_headers()];
    let ports = vec![McpPort::new(1), McpPort::new(2)];
    assert!(bridger
        .bridge_session_servers(&mut servers, &ports, false)
        .is_err());
    assert!(matches!(&servers[0], McpServer::Http { .. }));
    let mut short = vec![http("a", "acp:1"), http("b", "acp:2")];
    assert!(bridger
        .bridge_session_servers(&mut short, &vec![McpPort::new(1)], false)
        .is_err());
    assert!(bridger.mcp_bridges.is_empty());
    let mut ok = http("a", "acp:1");
    assert!(bridger
        .transform_mcp_servers(&mut ok, McpPort::new(9))
        .is_ok());
    assert!(matches!(&ok, McpServer::Stdio { args, .. } if args[1] == "9"));
    bridger.spawn_tcp_listener("acp:1", McpPort::new(10));
    assert_eq!(bridger.lookup("acp:1"), Some(McpPort::new(10)));
    assert_eq!(bridger.mcp_bridges.len(), 1);
}

#[test]
fn registry_offers_its_servers_to_a_new_session() {
    let mut registry = McpServiceRegistry::new();
    assert!(registry.add_rmcp_server("tools").is_ok());
    let again = registry.add_rmcp_server("tools");
    assert_eq!(
        again.err().unwrap().message,
        "Server with name 'tools' already exists"
    );
    assert!(registry.register("math", "u-2").is_ok());
    let tools = registry
        .get_registered_server_by_name("tools")
        .unwrap()
        .clone();
    assert!(tools.url.starts_with("acp:"));
    assert_eq!(tools.url.len(), "acp:".len() + 36);
    assert_eq!(
        registry.get_registered_server_by_url(&tools.url).unwrap().name,
        "tools"
    );
    assert_eq!(
        registry.get_registered_server_by_url("acp:u-2").unwrap().name,
        "math"
    );
    assert!(registry.get_registered_server_by_name("other").is_none());
    let request = NewSessionRequest {
        cwd: "/tmp".to_string(),
        mcp_servers: vec![http("web", "https://example.com")],
        meta: None,
    };
    match registry.handle_request("session/new", &None, Some(Ok(request))) {
        RegistryAction::ForwardNewSession { session } => {
            assert_eq!(session.cwd, "/tmp");
            assert_eq!(session.mcp_servers.len(), 3);
            assert!(matches!(&session.mcp_servers[0], McpServer::Http { name, .. } if name == "web"));
            assert!(matches!(
                &session.mcp_servers[1],
                McpServer::Http { name, url, headers } if name == "tools" && *url == tools.url && headers.is_empty()
            ));
            assert!(matches!(
                &session.mcp_servers[2],
                McpServer::Http { name, url, .. } if name == "math" && url == "acp:u-2"
            ));
        }
        _ => panic!("the session is forwarded"),
    }
    assert!(matches!(
        registry.handle_request("session/new", &None, Some(Err(RpcError::invalid_params()))),
        RegistryAction::SendErrorNotification { error } if error.code == -32602
    ));
    assert!(matches!(
        registry.handle_request("session/new", &None, None),
        RegistryAction::NotHandled
    ));
    assert!(matches!(
        registry.handle_request("session/prompt", &None, None),
        RegistryAction::NotHandled
    ));
}

#[test]
fn bridge_session_lives_from_connect_to_disconnect() {
    let mut registry = McpServiceRegistry::new();
    registry.register("tools", "u-1").unwrap();
    let unknown = Some(object(vec![("acp_url", text("acp:nobody"))]));
    assert!(matches!(
        registry.handle_request("_mcp/connect", &unknown, None),
        RegistryAction::NotHandled
    ));
    assert!(matches!(
        registry.handle_request("_mcp/connect", &Some(object(vec![])), None),
        RegistryAction::RespondWithError { error } if error.code == -32602
    ));
    let known = Some(object(vec![("acp_url", text("acp:u-1"))]));
    let id = match registry.handle_request("_mcp/connect", &known, None) {
        RegistryAction::Connect {
            connection_id,
            server,
        } => {
            assert_eq!(server.name, "tools");
            assert!(connection_id.starts_with("mcp-over-acp-connection:"));
            connection_id
        }
        _ => panic!("a session is opened"),
    };
    assert!(registry.get_connection(&id));
    let fixed = registry.open_connection(
        Ok(McpConnectRequest {
            acp_url: "acp:u-1".to_string(),
        }),
        "c1",
    );
    assert!(matches!(
        fixed,
        RegistryAction::Connect { connection_id, .. } if connection_id == "mcp-over-acp-connection:c1"
    ));
    let request = Some(object(vec![
        ("connection_id", text(&id)),
        ("request", object(vec![("method", text("tools/list"))])),
    ]));
    match registry.handle_request("_mcp/request", &request, None) {
        RegistryAction::DeliverRequest {
            connection_id,
            request,
        } => {
            assert_eq!(connection_id, id);
            assert!(matches!(request.get("method"), Some(Json::Text(m)) if m == "tools/list"));
        }
        _ => panic!("the request is delivered"),
    }
    let elsewhere = Some(object(vec![
        ("connection_id", text("other")),
        ("request", Json::Null),
    ]));
    assert!(matches!(
        registry.handle_request("_mcp/request", &elsewhere, None),
        RegistryAction::NotHandled
    ));
    let notification = Some(object(vec![
        ("connection_id", text(&id)),
        ("notification", object(vec![])),
    ]));
    assert!(matches!(
        registry.handle_notification("_mcp/notification", &notification),
        RegistryAction::DeliverNotification { .. }
    ));
    assert!(matches!(
        registry.handle_notification("_mcp/notification", &Some(object(vec![]))),
        RegistryAction::SendErrorNotification { error } if error.code == -32602
    ));
    let disconnect = Some(object(vec![("connection_id", text(&id))]));
    assert!(matches!(
        registry.handle_notification("_mcp/disconnect", &disconnect),
        RegistryAction::Disconnected { connection_id } if connection_id == id
    ));
    assert!(!registry.get_connection(&id));
    let live = registry.connections.len();
    assert!(matches!(
        registry.handle_notification("_mcp/disconnect", &disconnect),
        RegistryAction::NotHandled
    ));
    assert_eq!(registry.connections.len(), live);
    assert!(matches!(
        registry.handle_notification("session/update", &None),
        RegistryAction::NotHandled
    ));
    assert!(matches!(
        registry.handle_mcp_over_acp_request(Ok(McpOverAcpMessage {
            connection_id: id.clone(),
            message: Json::Null
        })),
        RegistryAction::NotHandled
    ));
    assert!(matches!(
        registry.handle_mcp_disconnect_notification(Ok(McpDisconnectNotification {
            connection_id: "mcp-over-acp-connection:c1".to_string()
        })),
        RegistryAction::Disconnected { .. }
    ));
    assert!(!registry.remove_connection("mcp-over-acp-connection:c1"));
    assert_eq!(McpRequest { message: 1 }.method(), "_mcp/request");
    assert_eq!(McpNotification { message: 1 }.method(), "_mcp/notification");
}
