use symposium::capability::{add_capability, has_capability, remove_capability};
use symposium::conductor::{
    from_component, from_editor, not_a_proxy_error, prepare_initialize_params, AcpMessage,
    Conductor, ConductorAction, ConductorArgs, ConductorError, ConductorMessage, LaunchStep, Peer,
    ReplyRoute, UntypedMessage,
};
use symposium::error::RpcError;
use symposium::json::{Json, Member};

fn object(members: Vec<(&str, Json)>) -> Json {
    Json::Object(
        members
            .into_iter()
            .map(|(key, value)| Member {
                key: key.to_string(),
                value,
            })
            .collect(),
    )
}

fn text(s: &str) -> Json {
    Json::Text(s.to_string())
}

fn number(n: i64) -> Json {
    Json::Number(n.to_string())
}

fn same(a: &Json, b: &Json) -> bool {
    match (a, b) {
        (Json::Null, Json::Null) => true,
        (Json::Bool(x), Json::Bool(y)) => x == y,
        (Json::Number(x), Json::Number(y)) => x == y,
        (Json::Text(x), Json::Text(y)) => x == y,
        (Json::Array(x), Json::Array(y)) => {
            x.len() == y.len() && x.iter().zip(y).all(|(p, q)| same(p, q))
        }
        (Json::Object(x), Json::Object(y)) => {
            x.len() == y.len()
                && x.iter()
                    .zip(y)
                    .all(|(p, q)| p.key == q.key && same(&p.value, &q.value))
        }
        _ => false,
    }
}

fn running(commands: &[&str]) -> Conductor {
    let mut conductor =
        Conductor::new(commands.iter().map(|c| c.to_string()).collect()).expect("a chain");
    loop {
        match conductor.launch_proxy() {
            LaunchStep::Spawn { .. } => {}
            LaunchStep::Serve => break,
        }
    }
    conductor
}

fn initialize() -> UntypedMessage {
    UntypedMessage {
        method: "initialize".to_string(),
        params: Some(object(vec![
            ("protocolVersion", number(1)),
            ("clientCapabilities", object(vec![])),
        ])),
    }
}

fn offers_proxy(params: &Option<Json>) -> bool {
    let meta = params
        .as_ref()
        .and_then(|p| p.get("_meta"))
        .map(|m| m.clone());
    has_capability(&meta, "proxy")
}

#[test]
fn chain_without_components_is_refused() {
    assert!(matches!(
        Conductor::new(vec![]),
        Err(ConductorError::NoComponents)
    ));
    assert!(matches!(
        ConductorArgs { proxies: vec![] }.conductor(),
        Err(ConductorError::NoComponents)
    ));
}

#[test]
fn components_are_launched_in_chain_order() {
    let mut conductor = ConductorArgs {
        proxies: vec!["a".to_string(), "b".to_string(), "c".to_string()],
    }
    .conductor()
    .expect("a chain");
    let mut spawned = vec![];
    loop {
        match conductor.launch_proxy() {
            LaunchStep::Spawn {
                component_index,
                command,
            } => spawned.push((component_index, command)),
            LaunchStep::Serve => break,
        }
    }
    assert_eq!(
        spawned,
        vec![
            (0, "a".to_string()),
            (1, "b".to_string()),
            (2, "c".to_string())
        ]
    );
    assert_eq!(conductor.components.len(), 3);
    assert_eq!(conductor.components[1].command, "b");
    assert!(matches!(conductor.launch_proxy(), LaunchStep::Serve));
}

#[test]
fn single_component_gets_no_proxy_offer() {
    let conductor = running(&["agent"]);
    let action = conductor.serve(from_editor(AcpMessage::Request(initialize())));
    match action {
        ConductorAction::ForwardRequest {
            to,
            reply_to,
            reply,
            confirm_proxy,
            message,
        } => {
            assert_eq!(to, Peer::Component(0));
            assert_eq!(reply_to, Peer::Editor);
            assert_eq!(reply, ReplyRoute::Direct);
            assert_eq!(confirm_proxy, None);
            assert_eq!(message.method, "initialize");
            assert!(!offers_proxy(&message.params));
            assert!(same(
                message.params.as_ref().unwrap(),
                initialize().params.as_ref().unwrap()
            ));
        }
        _ => panic!("the request is forwarded"),
    }
}

#[test]
fn every_component_but_the_last_is_offered_the_proxy_role() {
    let conductor = running(&["p0", "p1", "agent"]);
    match conductor.serve(from_editor(AcpMessage::Request(initialize()))) {
        ConductorAction::ForwardRequest {
            to,
            confirm_proxy,
            message,
            ..
        } => {
            assert_eq!(to, Peer::Component(0));
            assert_eq!(confirm_proxy, Some(0));
            assert!(offers_proxy(&message.params));
            let params = message.params.unwrap();
            assert!(same(params.get("protocolVersion").unwrap(), &number(1)));
        }
        _ => panic!("the request is forwarded"),
    }
    let mut offered = initialize();
    offered.params = prepare_initialize_params(offered.params, true);
    for (from, expects) in [(0usize, Some(1usize)), (1, None)] {
        let args = UntypedMessage {
            method: "initialize".to_string(),
            params: offered.params.clone(),
        };
        let told = ConductorMessage::ComponentToItsSuccessorSendRequest {
            component_index: from,
            args,
        };
        match conductor.serve(told) {
            ConductorAction::ForwardRequest {
                to,
                reply_to,
                reply,
                confirm_proxy,
                message,
            } => {
                assert_eq!(to, Peer::Component(from + 1));
                assert_eq!(reply_to, Peer::Component(from));
                assert_eq!(reply, ReplyRoute::SuccessorResponse);
                assert_eq!(confirm_proxy, expects);
                assert_eq!(offers_proxy(&message.params), expects.is_some());
            }
            _ => panic!("the request is forwarded"),
        }
    }
}

#[test]
fn refusal_of_the_proxy_role_fails_initialize() {
    let mut conductor = running(&["forwarder", "agent"]);
    let refusal = object(vec![("protocolVersion", number(1))]);
    let settlement = conductor.settle(ReplyRoute::Direct, Some(0), Ok(refusal));
    let error = settlement.editor_failure.expect("the handshake failed");
    assert_eq!(error.code, -32603);
    assert!(error.message.contains("component 0"));
    assert!(error.message.contains("not a proxy"));
    assert_eq!(error.message, "component 0 is not a proxy");
    assert!(matches!(settlement.response, Err(e) if e.message == "component 0 is not a proxy"));
    assert_eq!(conductor.failed, Some(0));
    let after = conductor.serve(from_editor(AcpMessage::Notification(UntypedMessage {
        method: "session/cancel".to_string(),
        params: None,
    })));
    assert!(matches!(after, ConductorAction::Halted));
    assert_eq!(not_a_proxy_error(17).message, "component 17 is not a proxy");
}

#[test]
fn confirmation_of_the_proxy_role_passes() {
    let mut conductor = running(&["forwarder", "agent"]);
    let meta = add_capability(None, "proxy");
    let accepted = object(vec![("protocolVersion", number(1))]).set("_meta", meta.unwrap());
    let settlement = conductor.settle(ReplyRoute::Direct, Some(0), Ok(accepted.clone()));
    assert!(settlement.editor_failure.is_none());
    assert!(same(&settlement.response.ok().unwrap(), &accepted));
    assert_eq!(conductor.failed, None);
    let failed = conductor.settle(
        ReplyRoute::Direct,
        Some(0),
        Err(RpcError::new(-32000, "closed")),
    );
    assert!(failed.editor_failure.is_none());
    assert_eq!(failed.response.err().unwrap().code, -32000);
}

#[test]
fn successor_outcome_travels_inside_a_result() {
    let mut conductor = running(&["forwarder", "agent"]);
    let ok = conductor.settle(ReplyRoute::SuccessorResponse, None, Ok(text("done")));
    assert!(same(
        &ok.response.ok().unwrap(),
        &object(vec![("result", text("done"))])
    ));
    let err = conductor.settle(
        ReplyRoute::SuccessorResponse,
        None,
        Err(RpcError {
            code: -32601,
            message: "Method not found".to_string(),
            data: Some(text("x")),
        }),
    );
    assert!(same(
        &err.response.ok().unwrap(),
        &object(vec![(
            "error",
            object(vec![
                ("code", Json::Number("-32601".to_string())),
                ("message", text("Method not found")),
                ("data", text("x")),
            ])
        )])
    ));
}

#[test]
fn messages_travel_hop_by_hop() {
    let conductor = running(&["p0", "p1", "agent"]);
    let prompt = || UntypedMessage {
        method: "session/prompt".to_string(),
        params: Some(object(vec![("sessionId", text("s1"))])),
    };
    match conductor.serve(from_editor(AcpMessage::Notification(prompt()))) {
        ConductorAction::ForwardNotification { to, message } => {
            assert_eq!(to, Peer::Component(0));
            assert_eq!(message.method, "session/prompt");
        }
        _ => panic!("the notification is forwarded"),
    }
    for (index, client) in [(0usize, Peer::Editor), (2, Peer::Component(1))] {
        let told = from_component(index, AcpMessage::Request(prompt())).unwrap();
        match conductor.serve(told) {
            ConductorAction::ForwardRequest {
                to,
                reply_to,
                reply,
                confirm_proxy,
                message,
            } => {
                assert_eq!(to, client);
                assert_eq!(reply_to, Peer::Component(index));
                assert_eq!(reply, ReplyRoute::Direct);
                assert_eq!(confirm_proxy, None);
                assert!(same(
                    message.params.as_ref().unwrap(),
                    prompt().params.as_ref().unwrap()
                ));
            }
            _ => panic!("the request is forwarded"),
        }
        let told = from_component(index, AcpMessage::Notification(prompt())).unwrap();
        assert!(matches!(
            conductor.serve(told),
            ConductorAction::ForwardNotification { to, .. } if to == client
        ));
    }
}

#[test]
fn successor_messages_are_unwrapped() {
    let conductor = running(&["p0", "agent"]);
    let wrapped = |method: &str| UntypedMessage {
        method: method.to_string(),
        params: Some(object(vec![
            ("method", text("session/new")),
            ("params", object(vec![("cwd", text("/tmp"))])),
        ])),
    };
    let told = from_component(
        0,
        AcpMessage::Request(wrapped("_proxy/successor/send/request")),
    )
    .unwrap();
    match conductor.serve(told) {
        ConductorAction::ForwardRequest {
            to,
            reply,
            message,
            ..
        } => {
            assert_eq!(to, Peer::Component(1));
            assert_eq!(reply, ReplyRoute::SuccessorResponse);
            assert_eq!(message.method, "session/new");
            assert!(same(
                &message.params.unwrap(),
                &object(vec![("cwd", text("/tmp"))])
            ));
        }
        _ => panic!("the request is forwarded"),
    }
    let told = from_component(
        0,
        AcpMessage::Notification(wrapped("_proxy/successor/send/notification")),
    )
    .unwrap();
    assert!(matches!(
        conductor.serve(told),
        ConductorAction::ForwardNotification { to: Peer::Component(1), message }
            if message.method == "session/new"
    ));
    let malformed = from_component(
        0,
        AcpMessage::Request(UntypedMessage {
            method: "_proxy/successor/send/request".to_string(),
            params: Some(object(vec![("method", number(1))])),
        }),
    );
    assert_eq!(malformed.err().unwrap().code, -32602);
}

#[test]
fn the_last_component_has_no_successor() {
    let conductor = running(&["p0", "agent"]);
    let args = || UntypedMessage {
        method: "session/new".to_string(),
        params: None,
    };
    let request = ConductorMessage::ComponentToItsSuccessorSendRequest {
        component_index: 1,
        args: args(),
    };
    match conductor.serve(request) {
        ConductorAction::RespondWithError { to, error } => {
            assert_eq!(to, Peer::Component(1));
            assert_eq!(error.code, -32603);
        }
        _ => panic!("the request is answered with an error"),
    }
    let notification = ConductorMessage::ComponentToItsSuccessorSendNotification {
        component_index: 1,
        args: args(),
    };
    assert!(matches!(
        conductor.serve(notification),
        ConductorAction::SendErrorNotification { to: Peer::Component(1), error }
            if error.code == -32603
    ));
    let error = ConductorMessage::Error {
        error: RpcError::new(-32000, "closed"),
    };
    assert!(matches!(
        conductor.serve(error),
        ConductorAction::LogError { error } if error.code == -32000
    ));
}

#[test]
fn capabilities_are_additive() {
    let meta = Some(object(vec![
        ("trace", text("abc")),
        (
            "symposium",
            object(vec![("mcp_acp_transport", Json::Bool(true))]),
        ),
    ]));
    assert!(!has_capability(&meta, "proxy"));
    assert!(has_capability(&meta, "mcp_acp_transport"));
    let granted = add_capability(meta, "proxy");
    assert!(has_capability(&granted, "proxy"));
    assert!(has_capability(&granted, "mcp_acp_transport"));
    assert!(same(
        granted.as_ref().unwrap().get("trace").unwrap(),
        &text("abc")
    ));
    let revoked = remove_capability(granted, "proxy");
    assert!(!has_capability(&revoked, "proxy"));
    assert!(has_capability(&revoked, "mcp_acp_transport"));
    assert!(same(
        revoked.as_ref().unwrap().get("trace").unwrap(),
        &text("abc")
    ));
    assert!(remove_capability(None, "proxy").is_none());
    let off = Some(object(vec![(
        "symposium",
        object(vec![("proxy", Json::Bool(false))]),
    )]));
    assert!(!has_capability(&off, "proxy"));
    assert!(has_capability(&add_capability(off, "proxy"), "proxy"));
}

#[test]
fn the_agent_receives_initialize_without_the_offer() {
    let offered = prepare_initialize_params(initialize().params, true);
    assert!(offers_proxy(&offered));
    let withheld = prepare_initialize_params(offered, false);
    assert!(!offers_proxy(&withheld));
    assert!(same(
        withheld.as_ref().unwrap().get("protocolVersion").unwrap(),
        &number(1)
    ));
    assert!(prepare_initialize_params(None, false).is_none());
    assert!(offers_proxy(&prepare_initialize_params(None, true)));
}

#[test]
fn a_closed_stream_ends_the_chain() {
    let editor = symposium::conductor::stream_closed(Peer::Editor);
    assert!(editor.abort_components && editor.fail_pending_with.is_none());
    let component = symposium::conductor::stream_closed(Peer::Component(1));
    assert!(component.abort_components);
    assert_eq!(component.fail_pending_with.unwrap().code, -32603);
}
