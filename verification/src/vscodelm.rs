//! The backend of an editor's language-model provider: the messages of a
//! chat, the count of tokens, the end of a streamed response, and tool
//! calls as they are shown.

use crate::error::{plain_error, RpcError, REQUEST_CANCELLED};
use crate::json::Json;
use crate::jsonrpc::RequestId;
use crate::text::{ends_with, has_suffix, same_text, texts};
use crate::text_map::TextMap;
use vstd::prelude::*;

verus! {

/// The tool by which the backend asks the editor for permission.
pub const SYMPOSIUM_AGENT_ACTION: &'static str = "symposium-agent-action";

/// The role of the messages that the user wrote.
pub const ROLE_USER: &'static str = "user";

/// The code of the error that answers a cancelled request.
pub const ERROR_CODE_CANCELLED: i32 = -32800;

/// The editor's side of the connection.
#[derive(Debug, Default, Copy, Clone, PartialEq, Eq, PartialOrd, Ord, Hash)]
pub struct VsCodePeer;

/// The backend's side of the connection.
#[derive(Debug, Default, Copy, Clone, PartialEq, Eq, PartialOrd, Ord, Hash)]
pub struct LmBackendPeer;

/// The connection as the backend sees it.
#[derive(Debug, Default, Copy, Clone, PartialEq, Eq, PartialOrd, Ord, Hash)]
pub struct LmBackendToVsCode;

/// The connection as the editor sees it.
#[derive(Debug, Default, Copy, Clone, PartialEq, Eq, PartialOrd, Ord, Hash)]
pub struct VsCodeToLmBackend;

/// One part of a message.
#[derive(Debug)]
pub enum ContentPart {
    Text { value: String },
    ToolCall { tool_call_id: String, tool_name: String, parameters: Json },
    ToolResult { tool_call_id: String, result: Json },
}

/// A message of a chat.
#[derive(Debug)]
pub struct Message {
    pub role: String,
    pub content: Vec<ContentPart>,
}

/// What a model can do.
#[derive(Debug, Clone, Copy, PartialEq, Eq, Structural)]
pub struct ModelCapabilities {
    pub tool_calling: bool,
}

/// A model that the backend offers.
#[derive(Debug)]
pub struct ModelInfo {
    pub id: String,
    pub name: String,
    pub family: String,
    pub version: String,
    pub max_input_tokens: u32,
    pub max_output_tokens: u32,
    pub capabilities: ModelCapabilities,
}

/// The request for the models that the backend offers.
#[derive(Debug)]
pub struct ProvideInfoRequest {
    pub silent: bool,
}

/// The models that the backend offers.
#[derive(Debug)]
pub struct ProvideInfoResponse {
    pub models: Vec<ModelInfo>,
}

/// The answer to a chat request, once the response was streamed.
#[derive(Debug)]
pub struct ProvideResponseResponse {}

/// The request for the number of tokens of a text.
#[derive(Debug)]
pub struct ProvideTokenCountRequest {
    pub model_id: String,
    pub text: String,
}

/// The number of tokens of a text.
#[derive(Debug, Clone, Copy, PartialEq, Eq, Structural)]
pub struct ProvideTokenCountResponse {
    pub count: u32,
}

/// How a streamed response ended.
#[derive(Debug)]
pub enum StreamEndReason {
    /// The agent finished its turn.
    Complete,
    /// The editor cancelled the request.
    Cancelled,
    /// The stream pauses until the editor decides on a permission.
    AwaitingPermission { tool_call_id: String },
}

/// The texts of the first `n` parts of a message, one after another; parts
/// that are no text count for nothing.
pub open spec fn text_upto(parts: Seq<ContentPart>, n: int) -> Seq<char>
    decreases n,
{
    if n <= 0 || n > parts.len() {
        Seq::empty()
    } else {
        match parts[n - 1] {
            ContentPart::Text { value } => text_upto(parts, n - 1) + value@,
            _ => text_upto(parts, n - 1),
        }
    }
}

/// Whether a part is the result of the tool call `id`.
pub open spec fn is_result_of(part: ContentPart, id: Seq<char>) -> bool {
    part matches ContentPart::ToolResult { tool_call_id, .. } && tool_call_id@ == id
}

/// Whether a part is the tool call `id`.
pub open spec fn is_call_of(part: ContentPart, id: Seq<char>) -> bool {
    part matches ContentPart::ToolCall { tool_call_id, .. } && tool_call_id@ == id
}

impl Message {
    /// The text of the message: its text parts, one after another.
    pub fn text(&self) -> (r: String)
        ensures
            r@ == text_upto(self.content@, self.content@.len() as int),
    {
        let mut out = String::new();
        let mut i: usize = 0;
        while i < self.content.len()
            invariant
                i <= self.content.len(),
                out@ == text_upto(self.content@, i as int),
            decreases self.content.len() - i,
        {
            match &self.content[i] {
                ContentPart::Text { value } => {
                    out.append(value.as_str());
                },
                _ => {},
            }
            i += 1;
        }
        out
    }

    /// Whether the message holds the result of the tool call `tool_call_id`.
    pub fn has_tool_result(&self, tool_call_id: &str) -> (r: bool)
        ensures
            r == exists|i: int|
                0 <= i < self.content@.len() && is_result_of(
                    #[trigger] self.content@[i],
                    tool_call_id@,
                ),
    {
        let mut i: usize = 0;
        while i < self.content.len()
            invariant
                i <= self.content.len(),
                forall|k: int| 0 <= k < i ==> !is_result_of(#[trigger] self.content@[k], tool_call_id@),
            decreases self.content.len() - i,
        {
            match &self.content[i] {
                ContentPart::ToolResult { tool_call_id: id, .. } => {
                    if same_text(id.as_str(), tool_call_id) {
                        assert(is_result_of(self.content@[i as int], tool_call_id@));
                        return true;
                    }
                },
                _ => {},
            }
            i += 1;
        }
        false
    }

    /// Whether the message holds the tool call `tool_call_id`.
    pub fn has_tool_call(&self, tool_call_id: &str) -> (r: bool)
        ensures
            r == exists|i: int|
                0 <= i < self.content@.len() && is_call_of(
                    #[trigger] self.content@[i],
                    tool_call_id@,
                ),
    {
        let mut i: usize = 0;
        while i < self.content.len()
            invariant
                i <= self.content.len(),
                forall|k: int| 0 <= k < i ==> !is_call_of(#[trigger] self.content@[k], tool_call_id@),
            decreases self.content.len() - i,
        {
            match &self.content[i] {
                ContentPart::ToolCall { tool_call_id: id, .. } => {
                    if same_text(id.as_str(), tool_call_id) {
                        assert(is_call_of(self.content@[i as int], tool_call_id@));
                        return true;
                    }
                },
                _ => {},
            }
            i += 1;
        }
        false
    }
}

/// Whether one of the messages holds the tool call `id`.
pub open spec fn call_among(messages: Seq<Message>, id: Seq<char>) -> bool {
    exists|m: int, i: int|
        0 <= m < messages.len() && 0 <= i < messages[m].content@.len() && is_call_of(
            #[trigger] messages[m].content@[i],
            id,
        )
}

/// Whether one of the messages holds the result of the tool call `id`.
pub open spec fn result_among(messages: Seq<Message>, id: Seq<char>) -> bool {
    exists|m: int, i: int|
        0 <= m < messages.len() && 0 <= i < messages[m].content@.len() && is_result_of(
            #[trigger] messages[m].content@[i],
            id,
        )
}

/// Whether one of the messages holds the tool call `tool_call_id`.
pub fn any_has_tool_call(messages: &Vec<Message>, tool_call_id: &str) -> (r: bool)
    ensures
        r == call_among(messages@, tool_call_id@),
{
    let mut m: usize = 0;
    while m < messages.len()
        invariant
            m <= messages.len(),
            forall|k: int, i: int|
                0 <= k < m && 0 <= i < messages@[k].content@.len() ==> !is_call_of(
                    #[trigger] messages@[k].content@[i],
                    tool_call_id@,
                ),
        decreases messages.len() - m,
    {
        if messages[m].has_tool_call(tool_call_id) {
            return true;
        }
        m += 1;
    }
    false
}

/// Whether one of the messages holds the result of the tool call
/// `tool_call_id`.
pub fn any_has_tool_result(messages: &Vec<Message>, tool_call_id: &str) -> (r: bool)
    ensures
        r == result_among(messages@, tool_call_id@),
{
    let mut m: usize = 0;
    while m < messages.len()
        invariant
            m <= messages.len(),
            forall|k: int, i: int|
                0 <= k < m && 0 <= i < messages@[k].content@.len() ==> !is_result_of(
                    #[trigger] messages@[k].content@[i],
                    tool_call_id@,
                ),
        decreases messages.len() - m,
    {
        if messages[m].has_tool_result(tool_call_id) {
            return true;
        }
        m += 1;
    }
    false
}

/// Whether the editor granted the permission that a session waits for.
/// `awaiting` is the tool call that the session asked permission with, if
/// it waits for one. The permission is granted where the messages hold both
/// that tool call and its result.
pub fn check_permission_in_messages(awaiting: Option<&str>, messages: &Vec<Message>) -> (r: Option<
    bool,
>)
    ensures
        r == match awaiting {
            Some(id) => Some(call_among(messages@, id@) && result_among(messages@, id@)),
            None => None,
        },
{
    match awaiting {
        Some(id) => {
            let has_tool_call = any_has_tool_call(messages, id);
            let has_tool_result = any_has_tool_result(messages, id);
            Some(has_tool_call && has_tool_result)
        },
        None => None,
    }
}

/// The number of tokens that a text of `bytes` bytes counts for: one for
/// every four bytes, and at least one.
pub open spec fn tokens_of(bytes: nat) -> nat {
    if bytes / 4 < 1 {
        1
    } else {
        bytes / 4
    }
}

/// The number of tokens of a text, by the rule of thumb that four bytes
/// make a token. Of a count beyond 32 bits the low 32 bits are kept.
pub fn token_count(text: &str) -> (count: u32)
    ensures
        count == tokens_of(text.len() as nat) % 4294967296,
{
    let quarters = text.len() / 4;
    let count = if quarters < 1 {
        1
    } else {
        quarters
    };
    ((count as u64) % 4294967296u64) as u32
}

/// The answer to a request for the number of tokens of a text.
pub fn count_tokens(request: &ProvideTokenCountRequest) -> (r: ProvideTokenCountResponse)
    ensures
        exists|text: &str|
            text@ == request.text@ && r.count == tokens_of(#[trigger] text.len() as nat)
                % 4294967296,
{
    let text = request.text.as_str();
    ProvideTokenCountResponse { count: token_count(text) }
}

/// The models that the backend offers.
pub fn provide_info(request: &ProvideInfoRequest) -> (r: ProvideInfoResponse)
    ensures
        r.models@.len() == 1,
        r.models@[0].id@ == "symposium-eliza"@,
        r.models@[0].name@ == "Symposium (Eliza)"@,
        r.models@[0].family@ == "symposium"@,
        r.models@[0].version@ == "1.0.0"@,
        r.models@[0].max_input_tokens == 100000,
        r.models@[0].max_output_tokens == 100000,
        r.models@[0].capabilities.tool_calling,
{
    let mut models: Vec<ModelInfo> = Vec::new();
    models.push(
        ModelInfo {
            id: String::from_str("symposium-eliza"),
            name: String::from_str("Symposium (Eliza)"),
            family: String::from_str("symposium"),
            version: String::from_str("1.0.0"),
            max_input_tokens: 100000,
            max_output_tokens: 100000,
            capabilities: ModelCapabilities { tool_calling: true },
        },
    );
    ProvideInfoResponse { models }
}

/// What happens while a response is streamed.
#[derive(Debug)]
pub enum StreamEvent {
    /// The session sent a part of the response.
    Part(ContentPart),
    /// The session asks for permission with this tool call.
    PermissionRequest { tool_call_id: String },
    /// The session has no more to send.
    StreamEnded,
    /// The editor cancelled the request.
    Cancelled,
}

/// What the backend does with an event of a stream.
#[derive(Debug)]
pub enum StreamStep {
    /// Send the part to the editor; the stream goes on.
    SendPart(ContentPart),
    /// Tell the editor that the response is complete, answer the request,
    /// and end the stream for this reason.
    Finish { reason: StreamEndReason },
    /// Answer the request with this error, and end the stream as cancelled.
    Fail { error: RpcError },
}

/// The rule of a stream: a part is sent on; a request for permission and
/// the end of the stream complete the response; a cancellation fails the
/// request with the error for that.
pub fn stream_response(event: StreamEvent) -> (r: StreamStep)
    ensures
        match event {
            StreamEvent::Part(part) => r == StreamStep::SendPart(part),
            StreamEvent::PermissionRequest { tool_call_id } => r == (StreamStep::Finish {
                reason: StreamEndReason::AwaitingPermission { tool_call_id },
            }),
            StreamEvent::StreamEnded => r == (StreamStep::Finish {
                reason: StreamEndReason::Complete,
            }),
            StreamEvent::Cancelled => r matches StreamStep::Fail { error } && error@ == plain_error(
                REQUEST_CANCELLED as int,
                "Request cancelled"@,
            ),
        },
{
    match event {
        StreamEvent::Part(part) => StreamStep::SendPart(part),
        StreamEvent::PermissionRequest { tool_call_id } => StreamStep::Finish {
            reason: StreamEndReason::AwaitingPermission { tool_call_id },
        },
        StreamEvent::StreamEnded => StreamStep::Finish { reason: StreamEndReason::Complete },
        StreamEvent::Cancelled => StreamStep::Fail { error: RpcError::cancelled() },
    }
}

/// The texts of the user's among the first `n` messages.
pub open spec fn user_texts(messages: Seq<Message>, n: int) -> Seq<Seq<char>>
    decreases n,
{
    if n <= 0 || n > messages.len() {
        Seq::empty()
    } else if messages[n - 1].role@ == ROLE_USER@ {
        user_texts(messages, n - 1).push(
            text_upto(messages[n - 1].content@, messages[n - 1].content@.len() as int),
        )
    } else {
        user_texts(messages, n - 1)
    }
}

/// The prompt that messages make: the texts of the user's messages, one on
/// each line.
pub fn prompt_text(messages: &Vec<Message>) -> (r: String)
    ensures
        r@ == crate::text::joined(user_texts(messages@, messages@.len() as int), "\n"@),
{
    let mut lines: Vec<String> = Vec::new();
    let mut i: usize = 0;
    proof {
        assert(texts(lines@) =~= Seq::<Seq<char>>::empty());
    }
    while i < messages.len()
        invariant
            i <= messages.len(),
            texts(lines@) == user_texts(messages@, i as int),
        decreases messages.len() - i,
    {
        if same_text(messages[i].role.as_str(), ROLE_USER) {
            let ghost before = texts(lines@);
            let text = messages[i].text();
            lines.push(text);
            proof {
                assert(texts(lines@) =~= before.push(text@));
            }
        }
        i += 1;
    }
    crate::text::join(&lines, "\n")
}

/// How far a tool call has come.
#[derive(Clone, Copy, Debug, PartialEq, Eq, Structural)]
pub enum ToolCallStatus {
    Pending,
    InProgress,
    Completed,
    Failed,
    Other,
}

/// A resource that is embedded in a block of content.
#[derive(Debug)]
pub enum EmbeddedResource {
    Text { uri: String },
    Blob { uri: String },
    Other,
}

/// A block of content.
#[derive(Debug)]
pub enum ContentBlock {
    Text { text: String },
    Image { mime_type: String },
    Audio { mime_type: String },
    ResourceLink { uri: String },
    Resource(EmbeddedResource),
    Other,
}

/// What a tool call shows.
#[derive(Debug)]
pub enum ToolCallContent {
    Content(ContentBlock),
    Diff { path: String, new_text: String },
    Terminal { terminal_id: String },
    Other,
}

/// A tool call as it stands.
#[derive(Debug)]
pub struct ToolCallState {
    pub title: String,
    pub status: ToolCallStatus,
    pub content: Vec<ToolCallContent>,
}

/// The first notice of a tool call.
#[derive(Debug)]
pub struct ToolCall {
    pub tool_call_id: String,
    pub title: String,
    pub status: ToolCallStatus,
    pub content: Vec<ToolCallContent>,
}

/// A later notice of a tool call: the fields that changed.
#[derive(Debug)]
pub struct ToolCallUpdate {
    pub tool_call_id: String,
    pub title: Option<String>,
    pub status: Option<ToolCallStatus>,
    pub content: Option<Vec<ToolCallContent>>,
}

/// The tool calls of a turn, by their identifiers.
#[derive(Debug)]
pub struct ToolCallTracker {
    pub tool_calls: TextMap<ToolCallState>,
}

/// A block of content as text.
pub open spec fn block_text(block: ContentBlock) -> Seq<char> {
    match block {
        ContentBlock::Text { text } => text@,
        ContentBlock::Image { mime_type } => "[Image: "@ + mime_type@ + "]"@,
        ContentBlock::Audio { mime_type } => "[Audio: "@ + mime_type@ + "]"@,
        ContentBlock::ResourceLink { uri } => uri@,
        ContentBlock::Resource(resource) => match resource {
            EmbeddedResource::Text { uri } => uri@,
            EmbeddedResource::Blob { uri } => uri@,
            EmbeddedResource::Other => "[Unknown resource type]"@,
        },
        ContentBlock::Other => "[Unknown content type]"@,
    }
}

/// What a tool call shows, as text.
pub open spec fn content_text(content: ToolCallContent) -> Seq<char> {
    match content {
        ToolCallContent::Content(block) => block_text(block),
        ToolCallContent::Diff { path, new_text } => "--- "@ + path@ + "\n+++ "@ + path@ + "\n"@
            + new_text@,
        ToolCallContent::Terminal { terminal_id } => "[Terminal: "@ + terminal_id@ + "]"@,
        ToolCallContent::Other => "[Unknown content]"@,
    }
}

/// The sign of a status.
pub open spec fn status_icon(status: ToolCallStatus) -> Seq<char> {
    match status {
        ToolCallStatus::Pending => "\u{23f3}"@,
        ToolCallStatus::InProgress => "\u{2699}\u{fe0f}"@,
        ToolCallStatus::Completed => "\u{2705}"@,
        ToolCallStatus::Failed => "\u{274c}"@,
        ToolCallStatus::Other => "\u{2022}"@,
    }
}

/// The first line of a tool call: the sign of its status and its title.
pub open spec fn header_text(title: Seq<char>, status: ToolCallStatus) -> Seq<char> {
    status_icon(status) + " **"@ + title + "**\n"@
}

/// The text of the first `n` of the contents, one after another.
pub open spec fn contents_text(content: Seq<ToolCallContent>, n: int) -> Seq<char>
    decreases n,
{
    if n <= 0 || n > content.len() {
        Seq::empty()
    } else {
        contents_text(content, n - 1) + content_text(content[n - 1])
    }
}

/// A tool call as markdown: the header and, where the call shows
/// anything, what it shows between two long fences, with a newline before
/// the closing fence where the text does not end in one.
pub open spec fn rendered(state: ToolCallState) -> Seq<char> {
    let header = header_text(state.title@, state.status);
    if state.content@.len() == 0 {
        header
    } else {
        let body = header + "``````````\n"@ + contents_text(
            state.content@,
            state.content@.len() as int,
        );
        if has_suffix(body, "\n"@) {
            body + "``````````\n"@
        } else {
            body + "\n"@ + "``````````\n"@
        }
    }
}

/// A block of content as text.
pub fn content_block_to_string(block: &ContentBlock) -> (r: String)
    ensures
        r@ == block_text(*block),
{
    match block {
        ContentBlock::Text { text } => text.clone(),
        ContentBlock::Image { mime_type } => {
            let mut s = String::from_str("[Image: ");
            s.append(mime_type.as_str());
            s.append("]");
            s
        },
        ContentBlock::Audio { mime_type } => {
            let mut s = String::from_str("[Audio: ");
            s.append(mime_type.as_str());
            s.append("]");
            s
        },
        ContentBlock::ResourceLink { uri } => uri.clone(),
        ContentBlock::Resource(resource) => match resource {
            EmbeddedResource::Text { uri } => uri.clone(),
            EmbeddedResource::Blob { uri } => uri.clone(),
            EmbeddedResource::Other => String::from_str("[Unknown resource type]"),
        },
        ContentBlock::Other => String::from_str("[Unknown content type]"),
    }
}

/// What a tool call shows, as text.
pub fn tool_call_content_to_string(content: &ToolCallContent) -> (r: String)
    ensures
        r@ == content_text(*content),
{
    match content {
        ToolCallContent::Content(block) => content_block_to_string(block),
        ToolCallContent::Diff { path, new_text } => {
            let mut s = String::from_str("--- ");
            s.append(path.as_str());
            s.append("\n+++ ");
            s.append(path.as_str());
            s.append("\n");
            s.append(new_text.as_str());
            s
        },
        ToolCallContent::Terminal { terminal_id } => {
            let mut s = String::from_str("[Terminal: ");
            s.append(terminal_id.as_str());
            s.append("]");
            s
        },
        ToolCallContent::Other => String::from_str("[Unknown content]"),
    }
}

impl ToolCallTracker {
    /// A tracker without tool calls.
    pub fn new() -> (r: Self)
        ensures
            r.tool_calls.wf(),
            r.tool_calls.entries@.len() == 0,
    {
        ToolCallTracker { tool_calls: TextMap::new() }
    }

    /// A tool call as markdown.
    pub fn render_tool_call(state: &ToolCallState) -> (r: String)
        ensures
            r@ == rendered(*state),
    {
        let mut output = match state.status {
            ToolCallStatus::Pending => String::from_str("\u{23f3}"),
            ToolCallStatus::InProgress => String::from_str("\u{2699}\u{fe0f}"),
            ToolCallStatus::Completed => String::from_str("\u{2705}"),
            ToolCallStatus::Failed => String::from_str("\u{274c}"),
            ToolCallStatus::Other => String::from_str("\u{2022}"),
        };
        output.append(" **");
        output.append(state.title.as_str());
        output.append("**\n");
        if state.content.len() > 0 {
            output.append("``````````\n");
            let ghost head = output@;
            let mut i: usize = 0;
            proof {
                assert(head + contents_text(state.content@, 0) =~= head);
            }
            while i < state.content.len()
                invariant
                    i <= state.content.len(),
                    output@ == head + contents_text(state.content@, i as int),
                decreases state.content.len() - i,
            {
                let text = tool_call_content_to_string(&state.content[i]);
                output.append(text.as_str());
                proof {
                    assert(output@ =~= head + contents_text(state.content@, i + 1));
                }
                i += 1;
            }
            if !ends_with(output.as_str(), "\n") {
                output.append("\n");
            }
            output.append("``````````\n");
        }
        output
    }

    /// Takes in the first notice of a tool call, and shows the call.
    pub fn handle_tool_call(&mut self, tool_call: ToolCall) -> (r: String)
        requires
            old(self).tool_calls.wf(),
        ensures
            final(self).tool_calls.wf(),
            r@ == rendered(
                ToolCallState {
                    title: tool_call.title,
                    status: tool_call.status,
                    content: tool_call.content,
                },
            ),
            final(self).tool_calls.value_of(tool_call.tool_call_id@) == Some(
                ToolCallState {
                    title: tool_call.title,
                    status: tool_call.status,
                    content: tool_call.content,
                },
            ),
            forall|other: Seq<char>|
                other != tool_call.tool_call_id@ ==> final(self).tool_calls.value_of(other) == old(self).tool_calls.value_of(other),
    {
        let state = ToolCallState {
            title: tool_call.title,
            status: tool_call.status,
            content: tool_call.content,
        };
        let markdown = Self::render_tool_call(&state);
        self.tool_calls.insert(tool_call.tool_call_id.as_str(), state);
        markdown
    }

    /// Takes in a later notice of a tool call: the fields it names replace
    /// those of the call, and the call is shown anew. A notice of a call
    /// that is not tracked changes nothing and shows nothing.
    pub fn handle_tool_call_update(&mut self, update: ToolCallUpdate) -> (r: Option<String>)
        requires
            old(self).tool_calls.wf(),
        ensures
            final(self).tool_calls.wf(),
            r is Some <==> old(self).tool_calls.has(update.tool_call_id@),
            r matches Some(markdown) ==> {
                &&& final(self).tool_calls.value_of(update.tool_call_id@) matches Some(state)
                &&& markdown@ == rendered(state)
                &&& old(self).tool_calls.value_of(update.tool_call_id@) matches Some(before)
                &&& state.title == match update.title {
                    Some(t) => t,
                    None => before.title,
                }
                &&& state.status == match update.status {
                    Some(s) => s,
                    None => before.status,
                }
                &&& state.content == match update.content {
                    Some(c) => c,
                    None => before.content,
                }
            },
            r is None ==> final(self).tool_calls.entries@ == old(self).tool_calls.entries@,
            forall|other: Seq<char>|
                other != update.tool_call_id@ ==> final(self).tool_calls.value_of(other) == old(self).tool_calls.value_of(other),
    {
        let at = match self.tool_calls.find(update.tool_call_id.as_str()) {
            Some(at) => at,
            None => {
                return None;
            },
        };
        let ToolCallUpdate { tool_call_id, title, status, content } = update;
        let taken = self.tool_calls.entries.remove(at);
        let ghost without = self.tool_calls;
        let ToolCallState { title: old_title, status: old_status, content: old_content } =
            taken.value;
        let state = ToolCallState {
            title: match title {
                Some(t) => t,
                None => old_title,
            },
            status: match status {
                Some(s) => s,
                None => old_status,
            },
            content: match content {
                Some(c) => c,
                None => old_content,
            },
        };
        let markdown = Self::render_tool_call(&state);
        self.tool_calls.entries.insert(at, crate::text_map::TextEntry { key: taken.key, value: state });
        proof {
            let before = old(self).tool_calls;
            let after = self.tool_calls;
            assert(after.keys() =~= before.keys());
            assert(after.entries@[at as int].value == state);
            assert forall|other: Seq<char>| other != tool_call_id@ implies after.value_of(other)
                == before.value_of(other) by {
                crate::text_map::find_key_is_first(before.keys(), other, 0);
                let j = crate::text_map::find_key_from(before.keys(), other, 0);
                if j < before.keys().len() {
                    assert(after.entries@[j] == before.entries@[j]);
                }
            }
        }
        Some(markdown)
    }

    /// Forgets all tool calls, at the end of a turn.
    pub fn clear(&mut self)
        ensures
            final(self).tool_calls.wf(),
            final(self).tool_calls.entries@.len() == 0,
    {
        self.tool_calls = TextMap::new();
    }
}

/// Where a session stands, as the backend sees it.
#[derive(Debug)]
pub enum SessionState {
    /// The session waits for a prompt.
    Idle,
    /// The session streams the response to the request `request_id`.
    Streaming { request_id: RequestId },
    /// The session waits for the editor to decide on a permission.
    AwaitingPermission { tool_call_id: String },
}

impl SessionState {
    /// Whether the session streams the response to `request_id`.
    pub fn is_streaming_request(&self, request_id: &RequestId) -> (r: bool)
        ensures
            r == (self matches SessionState::Streaming { request_id: id } && id@ == request_id@),
    {
        match self {
            SessionState::Streaming { request_id: id } => id.same(request_id),
            _ => false,
        }
    }

    /// The tool call that the session asked permission with, where it
    /// waits for one.
    pub fn awaiting_permission_for(&self) -> (r: Option<&str>)
        ensures
            match r {
                Some(id) => self matches SessionState::AwaitingPermission { tool_call_id } && id@
                    == tool_call_id@,
                None => !(self is AwaitingPermission),
            },
    {
        match self {
            SessionState::AwaitingPermission { tool_call_id } => Some(tool_call_id.as_str()),
            _ => None,
        }
    }

    /// Ends whatever the session does. The session is idle afterwards; the
    /// answer is whether a stream was under way, which is then to be told
    /// of its end.
    pub fn cancel(&mut self) -> (r: bool)
        ensures
            *final(self) == SessionState::Idle,
            r == (*old(self) is Streaming),
    {
        let was_streaming = match self {
            SessionState::Streaming { .. } => true,
            _ => false,
        };
        *self = SessionState::Idle;
        was_streaming
    }
}

} // verus!
