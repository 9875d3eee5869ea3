use symposium::json::Json;
use symposium::vscodelm::{
    check_permission_in_messages, count_tokens, prompt_text, provide_info, stream_response,
    token_count, ContentBlock, ContentPart, EmbeddedResource, Message, ProvideInfoRequest,
    ProvideTokenCountRequest, StreamEndReason, StreamEvent, StreamStep, ToolCall, ToolCallContent,
    ToolCallStatus, ToolCallTracker, ToolCallUpdate,
};

fn text_content(text: &str) -> ToolCallContent {
    ToolCallContent::Content(ContentBlock::Text {
        text: text.to_string(),
    })
}

#[test]
fn test_tool_call_tracker_initial_call() {
    let mut tracker = ToolCallTracker::new();

    let tool_call = ToolCall {
        tool_call_id: "test-123".to_string(),
        title: "Read src/main.rs".to_string(),
        status: ToolCallStatus::InProgress,
        content: vec![],
    };

    let markdown = tracker.handle_tool_call(tool_call);

    assert_eq!(markdown, "⚙️ **Read src/main.rs**\n");
}

#[test]
fn test_tool_call_tracker_with_content() {
    let mut tracker = ToolCallTracker::new();

    let tool_call = ToolCall {
        tool_call_id: "test-456".to_string(),
        title: "grep -n pattern file.rs".to_string(),
        status: ToolCallStatus::Completed,
        content: vec![text_content(
            "10: let pattern = \"hello\";\n20: println!(\"{}\", pattern);",
        )],
    };

    let markdown = tracker.handle_tool_call(tool_call);

    assert_eq!(
        markdown,
        "✅ **grep -n pattern file.rs**\n``````````\n10: let pattern = \"hello\";\n20: println!(\"{}\", pattern);\n``````````\n"
    );
}

#[test]
fn test_tool_call_tracker_update() {
    let mut tracker = ToolCallTracker::new();

    let tool_call = ToolCall {
        tool_call_id: "test-789".to_string(),
        title: "Running cargo build".to_string(),
        status: ToolCallStatus::InProgress,
        content: vec![],
    };
    tracker.handle_tool_call(tool_call);

    let update = ToolCallUpdate {
        tool_call_id: "test-789".to_string(),
        title: None,
        status: Some(ToolCallStatus::Completed),
        content: Some(vec![text_content("Build succeeded!")]),
    };

    let markdown = tracker.handle_tool_call_update(update).unwrap();

    assert_eq!(
        markdown,
        "✅ **Running cargo build**\n``````````\nBuild succeeded!\n``````````\n"
    );
}

#[test]
fn test_tool_call_tracker_unknown_id_returns_none() {
    let mut tracker = ToolCallTracker::new();

    let update = ToolCallUpdate {
        tool_call_id: "unknown-id".to_string(),
        title: None,
        status: Some(ToolCallStatus::Completed),
        content: None,
    };

    assert!(tracker.handle_tool_call_update(update).is_none());
}

#[test]
fn tool_call_content_is_shown_by_its_kind() {
    let mut tracker = ToolCallTracker::new();
    let call = ToolCall {
        tool_call_id: "a".to_string(),
        title: "t".to_string(),
        status: ToolCallStatus::Failed,
        content: vec![
            ToolCallContent::Diff {
                path: "src/a.rs".to_string(),
                new_text: "x\n".to_string(),
            },
            ToolCallContent::Terminal {
                terminal_id: "term-1".to_string(),
            },
            ToolCallContent::Content(ContentBlock::Image {
                mime_type: "image/png".to_string(),
            }),
            ToolCallContent::Content(ContentBlock::Resource(EmbeddedResource::Blob {
                uri: "file:///b".to_string(),
            })),
            ToolCallContent::Content(ContentBlock::Resource(EmbeddedResource::Other)),
            ToolCallContent::Content(ContentBlock::Other),
            ToolCallContent::Other,
        ],
    };
    assert_eq!(
        tracker.handle_tool_call(call),
        "❌ **t**\n``````````\n--- src/a.rs\n+++ src/a.rs\nx\n[Terminal: term-1][Image: image/png]file:///b[Unknown resource type][Unknown content type][Unknown content]\n``````````\n"
    );
    let renamed = tracker
        .handle_tool_call_update(ToolCallUpdate {
            tool_call_id: "a".to_string(),
            title: Some("u".to_string()),
            status: Some(ToolCallStatus::Pending),
            content: Some(vec![]),
        })
        .unwrap();
    assert_eq!(renamed, "⏳ **u**\n");
    let again = tracker
        .handle_tool_call_update(ToolCallUpdate {
            tool_call_id: "a".to_string(),
            title: None,
            status: Some(ToolCallStatus::Other),
            content: None,
        })
        .unwrap();
    assert_eq!(again, "• **u**\n");
    tracker.clear();
    assert!(tracker.tool_calls.entries.is_empty());
}

fn message(role: &str, content: Vec<ContentPart>) -> Message {
    Message {
        role: role.to_string(),
        content,
    }
}

fn text(value: &str) -> ContentPart {
    ContentPart::Text {
        value: value.to_string(),
    }
}

#[test]
fn message_text_and_tool_parts() {
    let m = message(
        "user",
        vec![
            text("Hello, "),
            ContentPart::ToolCall {
                tool_call_id: "c1".to_string(),
                tool_name: "symposium-agent-action".to_string(),
                parameters: Json::Null,
            },
            text("world"),
            ContentPart::ToolResult {
                tool_call_id: "c2".to_string(),
                result: Json::Null,
            },
        ],
    );
    assert_eq!(m.text(), "Hello, world");
    assert!(m.has_tool_call("c1"));
    assert!(!m.has_tool_call("c2"));
    assert!(m.has_tool_result("c2"));
    assert!(!m.has_tool_result("c1"));
    let messages = vec![
        message("user", vec![text("a")]),
        message("assistant", vec![text("skipped")]),
        m,
    ];
    assert_eq!(prompt_text(&messages), "a\nHello, world");
    assert_eq!(check_permission_in_messages(None, &messages), None);
    assert_eq!(
        check_permission_in_messages(Some("c1"), &messages),
        Some(false)
    );
    let approved = vec![message(
        "user",
        vec![
            ContentPart::ToolCall {
                tool_call_id: "c1".to_string(),
                tool_name: "t".to_string(),
                parameters: Json::Null,
            },
            ContentPart::ToolResult {
                tool_call_id: "c1".to_string(),
                result: Json::Null,
            },
        ],
    )];
    assert_eq!(
        check_permission_in_messages(Some("c1"), &approved),
        Some(true)
    );
}

#[test]
fn tokens_are_counted_by_four_bytes() {
    assert_eq!(token_count("Hello, world!"), 3);
    assert_eq!(token_count(""), 1);
    assert_eq!(token_count("abc"), 1);
    assert_eq!(token_count("abcdefgh"), 2);
    let response = count_tokens(&ProvideTokenCountRequest {
        model_id: "symposium-eliza".to_string(),
        text: "Hello, world!".to_string(),
    });
    assert_eq!(response.count, 3);
    let info = provide_info(&ProvideInfoRequest { silent: false });
    assert_eq!(info.models.len(), 1);
    assert_eq!(info.models[0].id, "symposium-eliza");
    assert_eq!(info.models[0].name, "Symposium (Eliza)");
    assert_eq!(info.models[0].max_input_tokens, 100000);
    assert!(info.models[0].capabilities.tool_calling);
}

#[test]
fn stream_ends_by_its_events() {
    assert!(matches!(
        stream_response(StreamEvent::Part(text("x"))),
        StreamStep::SendPart(ContentPart::Text { value }) if value == "x"
    ));
    assert!(matches!(
        stream_response(StreamEvent::StreamEnded),
        StreamStep::Finish { reason: StreamEndReason::Complete }
    ));
    assert!(matches!(
        stream_response(StreamEvent::PermissionRequest { tool_call_id: "c".to_string() }),
        StreamStep::Finish { reason: StreamEndReason::AwaitingPermission { tool_call_id } } if tool_call_id == "c"
    ));
    assert!(matches!(
        stream_response(StreamEvent::Cancelled),
        StreamStep::Fail { error } if error.code == -32800 && error.message == "Request cancelled"
    ));
}
