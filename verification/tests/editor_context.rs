use symposium::editor_context::{format_context, is_stale, read_editor_context};
use symposium::editor_context::{EditorState, Selection};

#[test]
fn test_format_context_with_selection() {
    let state = EditorState {
        active_file: Some("/project/src/main.rs".to_string()),
        language_id: Some("rust".to_string()),
        selection: Some(Selection {
            text: "fn main() {\n    println!(\"Hello\");\n}".to_string(),
            start_line: 10,
            end_line: 12,
        }),
        workspace_folders: vec!["/project".to_string()],
    };

    let context = format_context(&state).unwrap();
    assert!(context.contains("Active file: /project/src/main.rs (rust)"));
    assert!(context.contains("Selected text (lines 10-12):"));
    assert!(context.contains("```rust"));
    assert!(context.contains("fn main()"));
    assert!(context.starts_with("<editor-context>"));
    assert!(context.ends_with("</editor-context>"));
}

#[test]
fn test_format_context_without_selection() {
    let state = EditorState {
        active_file: Some("/project/README.md".to_string()),
        language_id: Some("markdown".to_string()),
        selection: None,
        workspace_folders: vec![],
    };

    let context = format_context(&state).unwrap();
    assert!(context.contains("Active file: /project/README.md (markdown)"));
    assert!(!context.contains("Selected text"));
}

#[test]
fn test_format_context_no_active_file() {
    let state = EditorState {
        active_file: None,
        language_id: None,
        selection: None,
        workspace_folders: vec![],
    };

    assert!(format_context(&state).is_none());
}

#[test]
fn test_format_context_empty_selection() {
    let state = EditorState {
        active_file: Some("/project/lib.rs".to_string()),
        language_id: Some("rust".to_string()),
        selection: Some(Selection {
            text: String::new(),
            start_line: 5,
            end_line: 5,
        }),
        workspace_folders: vec![],
    };

    let context = format_context(&state).unwrap();
    assert!(context.contains("Active file:"));
    assert!(!context.contains("Selected text"));
}

fn state(language: Option<&str>) -> EditorState {
    EditorState {
        active_file: Some("/p/a.rs".to_string()),
        language_id: language.map(|l| l.to_string()),
        selection: Some(Selection {
            text: "let x = 1;".to_string(),
            start_line: 3,
            end_line: 4,
        }),
        workspace_folders: vec![],
    }
}

#[test]
fn context_is_exactly_the_tagged_text() {
    assert_eq!(
        format_context(&state(Some("rust"))).unwrap(),
        "<editor-context>\nActive file: /p/a.rs (rust)\nSelected text (lines 3-4):\n```rust\nlet x = 1;\n```\n</editor-context>"
    );
    assert_eq!(
        format_context(&state(None)).unwrap(),
        "<editor-context>\nActive file: /p/a.rs\nSelected text (lines 3-4):\n```\nlet x = 1;\n```\n</editor-context>"
    );
}

#[test]
fn state_older_than_thirty_seconds_is_stale() {
    assert!(!is_stale(0, 0));
    assert!(!is_stale(29, 999_999_999));
    assert!(!is_stale(30, 0));
    assert!(is_stale(30, 1));
    assert!(is_stale(31, 0));
    assert!(read_editor_context(Some((30, 0)), Some(state(None))).is_some());
    assert!(read_editor_context(Some((30, 1)), Some(state(None))).is_none());
    assert!(read_editor_context(None, Some(state(None))).is_none());
    assert!(read_editor_context(Some((1, 0)), None).is_none());
}
