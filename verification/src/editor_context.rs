//! The editor context that a proxy puts before a prompt: the active file
//! and the selection, as the editor last wrote them down.

use crate::json::{Json, JsonView, with_member};
use crate::text::{decimal, decimal_string, opt_text};
use vstd::prelude::*;

verus! {

/// The variable of the environment that names the editor's state file.
pub const STATE_FILE_ENV: &'static str = "SYMPOSIUM_EDITOR_STATE_FILE";

/// The age in seconds beyond which the state file is stale.
pub const MAX_STALENESS_SECS: u64 = 30;

/// A selection of text in the editor.
#[derive(Debug)]
pub struct Selection {
    /// The selected text.
    pub text: String,
    /// The line on which the selection starts, counted from 1.
    pub start_line: u32,
    /// The line on which the selection ends, counted from 1.
    pub end_line: u32,
}

/// The state of the editor.
#[derive(Debug)]
pub struct EditorState {
    /// The path of the active file.
    pub active_file: Option<String>,
    /// The language of the active file.
    pub language_id: Option<String>,
    /// The selection, if there is one.
    pub selection: Option<Selection>,
    /// The folders of the workspace.
    pub workspace_folders: Vec<String>,
}

/// The proxy that puts the editor context before each prompt.
pub struct EditorContextComponent;

/// The line that names the active file, with its language where that is
/// known.
pub open spec fn active_file_line(file: Seq<char>, language: Option<Seq<char>>) -> Seq<char> {
    match language {
        Some(lang) => "Active file: "@ + file + " ("@ + lang + ")\n"@,
        None => "Active file: "@ + file + "\n"@,
    }
}

/// The lines that show a selection: the range of its lines, and its text
/// in a fenced block that is marked with the language where that is known.
pub open spec fn selection_lines(
    text: Seq<char>,
    start_line: nat,
    end_line: nat,
    language: Option<Seq<char>>,
) -> Seq<char> {
    "Selected text (lines "@ + decimal(start_line) + "-"@ + decimal(end_line) + "):\n```"@ + (
    match language {
        Some(lang) => lang,
        None => Seq::empty(),
    }) + "\n"@ + text + "\n```\n"@
}

/// The selection of a state as it is shown: nothing where there is none or
/// where its text is empty.
pub open spec fn shown_selection(state: EditorState) -> Seq<char> {
    match state.selection {
        Some(sel) => if sel.text@.len() == 0 {
            Seq::empty()
        } else {
            selection_lines(
                sel.text@,
                sel.start_line as nat,
                sel.end_line as nat,
                opt_text(state.language_id),
            )
        },
        None => Seq::empty(),
    }
}

/// The context of a state: nothing where no file is active, else the
/// active file and the selection between the two tags.
pub open spec fn context_of(state: EditorState) -> Option<Seq<char>> {
    match state.active_file {
        Some(file) => Some(
            "<editor-context>\n"@ + active_file_line(file@, opt_text(state.language_id))
                + shown_selection(state) + "</editor-context>"@,
        ),
        None => None,
    }
}

/// The context of the editor's state, as text for the agent.
pub fn format_context(state: &EditorState) -> (r: Option<String>)
    ensures
        opt_text(r) == context_of(*state),
{
    let active_file = match &state.active_file {
        Some(file) => file,
        None => {
            return None;
        },
    };
    let mut ctx = String::from_str("<editor-context>\n");
    ctx.append("Active file: ");
    ctx.append(active_file.as_str());
    match &state.language_id {
        Some(lang) => {
            ctx.append(" (");
            ctx.append(lang.as_str());
            ctx.append(")\n");
        },
        None => {
            ctx.append("\n");
        },
    }
    proof {
        assert(ctx@ =~= "<editor-context>\n"@ + active_file_line(
            active_file@,
            opt_text(state.language_id),
        ));
    }
    let ghost head = ctx@;
    match &state.selection {
        Some(sel) => {
            if sel.text.as_str().unicode_len() > 0 {
                ctx.append("Selected text (lines ");
                let start = decimal_string(sel.start_line as u64);
                ctx.append(start.as_str());
                ctx.append("-");
                let end = decimal_string(sel.end_line as u64);
                ctx.append(end.as_str());
                ctx.append("):\n```");
                match &state.language_id {
                    Some(lang) => {
                        ctx.append(lang.as_str());
                    },
                    None => {},
                }
                ctx.append("\n");
                ctx.append(sel.text.as_str());
                ctx.append("\n```\n");
                proof {
                    assert(ctx@ =~= head + shown_selection(*state));
                }
            } else {
                proof {
                    assert(ctx@ =~= head + shown_selection(*state));
                }
            }
        },
        None => {
            proof {
                assert(ctx@ =~= head + shown_selection(*state));
            }
        },
    }
    ctx.append("</editor-context>");
    Some(ctx)
}

/// Whether a state file of the given age is stale: it is older than thirty
/// seconds.
pub fn is_stale(age_secs: u64, age_subsec_nanos: u32) -> (r: bool)
    ensures
        r == (age_secs > MAX_STALENESS_SECS || (age_secs == MAX_STALENESS_SECS && age_subsec_nanos
            > 0)),
{
    age_secs > MAX_STALENESS_SECS || (age_secs == MAX_STALENESS_SECS && age_subsec_nanos > 0)
}

/// The context to put before a prompt. `age` is the age of the state file,
/// in seconds and nanoseconds, where it could be told; `state` is what the
/// file holds, where it could be read. There is no context where the age is
/// unknown, the file is stale or unreadable, or no file is active.
pub fn read_editor_context(age: Option<(u64, u32)>, state: Option<EditorState>) -> (r: Option<
    String,
>)
    ensures
        opt_text(r) == match (age, state) {
            (Some(age), Some(state)) => if age.0 > MAX_STALENESS_SECS || (age.0
                == MAX_STALENESS_SECS && age.1 > 0) {
                None
            } else {
                context_of(state)
            },
            _ => None,
        },
{
    match age {
        Some(age) => {
            if is_stale(age.0, age.1) {
                return None;
            }
        },
        None => {
            return None;
        },
    }
    match state {
        Some(state) => format_context(&state),
        None => None,
    }
}

/// A block of text as a prompt holds it.
pub open spec fn text_block(text: Seq<char>) -> JsonView {
    with_member(
        with_member(JsonView::Null, "type"@, JsonView::Text("text"@)),
        "text"@,
        JsonView::Text(text),
    )
}

/// The prompt with the context before it, where there is a context.
pub fn inject_context(prompt: Vec<Json>, context: Option<String>) -> (r: Vec<Json>)
    ensures
        crate::json::items_view(r@) == match context {
            Some(text) => seq![text_block(text@)] + crate::json::items_view(prompt@),
            None => crate::json::items_view(prompt@),
        },
{
    match context {
        Some(text) => {
            let block = Json::Null.set("type", Json::text("text")).set("text", Json::Text(text));
            let mut prompt = prompt;
            let ghost before = crate::json::items_view(prompt@);
            prompt.insert(0, block);
            proof {
                assert(crate::json::items_view(prompt@) =~= seq![text_block(text@)] + before);
            }
            prompt
        },
        None => prompt,
    }
}

} // verus!
