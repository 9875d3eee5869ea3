//! The ACP message layer as far as the middleware reads it: which method a
//! message travels under, and the MCP servers that a new session names.

use crate::error::{opt_json_view, plain_error, RpcError, INVALID_PARAMS};
use crate::json::{items_view, lookup, lookup_with_member, with_member, Json, JsonView};
use crate::text::{same_text, texts};
use vstd::prelude::*;

verus! {

/// A request that a client sends to an agent. The payload stays untyped.
#[derive(Debug)]
pub enum ClientRequest {
    InitializeRequest(Json),
    AuthenticateRequest(Json),
    NewSessionRequest(Json),
    LoadSessionRequest(Json),
    SetSessionModeRequest(Json),
    PromptRequest(Json),
    ExtMethodRequest { method: String, params: Json },
}

/// A notification that a client sends to an agent.
#[derive(Debug)]
pub enum ClientNotification {
    CancelNotification(Json),
    ExtNotification { method: String, params: Json },
}

/// A request that an agent sends to a client.
#[derive(Debug)]
pub enum AgentRequest {
    WriteTextFileRequest(Json),
    ReadTextFileRequest(Json),
    RequestPermissionRequest(Json),
    CreateTerminalRequest(Json),
    TerminalOutputRequest(Json),
    ReleaseTerminalRequest(Json),
    WaitForTerminalExitRequest(Json),
    KillTerminalCommandRequest(Json),
    ExtMethodRequest { method: String, params: Json },
}

/// A notification that an agent sends to a client.
#[derive(Debug)]
pub enum AgentNotification {
    SessionNotification(Json),
    ExtNotification { method: String, params: Json },
}

impl ClientRequest {
    /// The method name of the request.
    pub open spec fn method_name(self) -> Seq<char> {
        match self {
            ClientRequest::InitializeRequest(_) => "initialize"@,
            ClientRequest::AuthenticateRequest(_) => "authenticate"@,
            ClientRequest::NewSessionRequest(_) => "session/new"@,
            ClientRequest::LoadSessionRequest(_) => "session/load"@,
            ClientRequest::SetSessionModeRequest(_) => "session/set_mode"@,
            ClientRequest::PromptRequest(_) => "session/prompt"@,
            ClientRequest::ExtMethodRequest { method, .. } => method@,
        }
    }

    /// The method under which the request travels.
    pub fn method(&self) -> (r: &str)
        ensures
            r@ == self.method_name(),
    {
        match self {
            ClientRequest::InitializeRequest(_) => "initialize",
            ClientRequest::AuthenticateRequest(_) => "authenticate",
            ClientRequest::NewSessionRequest(_) => "session/new",
            ClientRequest::LoadSessionRequest(_) => "session/load",
            ClientRequest::SetSessionModeRequest(_) => "session/set_mode",
            ClientRequest::PromptRequest(_) => "session/prompt",
            ClientRequest::ExtMethodRequest { method, .. } => method.as_str(),
        }
    }

    /// The payload of the request.
    pub open spec fn payload(self) -> JsonView {
        match self {
            ClientRequest::InitializeRequest(p) => p@,
            ClientRequest::AuthenticateRequest(p) => p@,
            ClientRequest::NewSessionRequest(p) => p@,
            ClientRequest::LoadSessionRequest(p) => p@,
            ClientRequest::SetSessionModeRequest(p) => p@,
            ClientRequest::PromptRequest(p) => p@,
            ClientRequest::ExtMethodRequest { params, .. } => params@,
        }
    }

    /// The request that travels under `method` with `params`: one of the six
    /// that the protocol names, an extension request under any other name.
    pub fn from_method(method: &str, params: Json) -> (r: ClientRequest)
        ensures
            r.method_name() == method@,
            r.payload() == params@,
            r is InitializeRequest <==> method@ == "initialize"@,
            r is AuthenticateRequest <==> method@ == "authenticate"@,
            r is NewSessionRequest <==> method@ == "session/new"@,
            r is LoadSessionRequest <==> method@ == "session/load"@,
            r is SetSessionModeRequest <==> method@ == "session/set_mode"@,
            r is PromptRequest <==> method@ == "session/prompt"@,
    {
        proof {
            distinct_client_methods();
        }
        if same_text(method, "initialize") {
            ClientRequest::InitializeRequest(params)
        } else if same_text(method, "authenticate") {
            ClientRequest::AuthenticateRequest(params)
        } else if same_text(method, "session/new") {
            ClientRequest::NewSessionRequest(params)
        } else if same_text(method, "session/load") {
            ClientRequest::LoadSessionRequest(params)
        } else if same_text(method, "session/set_mode") {
            ClientRequest::SetSessionModeRequest(params)
        } else if same_text(method, "session/prompt") {
            ClientRequest::PromptRequest(params)
        } else {
            ClientRequest::ExtMethodRequest { method: String::from_str(method), params }
        }
    }
}

/// The six method names of client requests differ from one another.
pub proof fn distinct_client_methods()
    ensures
        "initialize"@ != "authenticate"@,
        "initialize"@ != "session/new"@,
        "initialize"@ != "session/load"@,
        "initialize"@ != "session/set_mode"@,
        "initialize"@ != "session/prompt"@,
        "authenticate"@ != "session/new"@,
        "authenticate"@ != "session/load"@,
        "authenticate"@ != "session/set_mode"@,
        "authenticate"@ != "session/prompt"@,
        "session/new"@ != "session/load"@,
        "session/new"@ != "session/set_mode"@,
        "session/new"@ != "session/prompt"@,
        "session/load"@ != "session/set_mode"@,
        "session/load"@ != "session/prompt"@,
        "session/set_mode"@ != "session/prompt"@,
{
    reveal_strlit("initialize");
    reveal_strlit("authenticate");
    reveal_strlit("session/new");
    reveal_strlit("session/load");
    reveal_strlit("session/set_mode");
    reveal_strlit("session/prompt");
    assert("initialize"@.len() == 10);
    assert("authenticate"@.len() == 12);
    assert("session/new"@.len() == 11);
    assert("session/load"@.len() == 12);
    assert("session/set_mode"@.len() == 16);
    assert("session/prompt"@.len() == 14);
    assert("authenticate"@[0] == 'a');
    assert("session/load"@[0] == 's');
}

impl ClientNotification {
    /// The method name of the notification.
    pub open spec fn method_name(self) -> Seq<char> {
        match self {
            ClientNotification::CancelNotification(_) => "session/cancel"@,
            ClientNotification::ExtNotification { method, .. } => method@,
        }
    }

    /// The method under which the notification travels.
    pub fn method(&self) -> (r: &str)
        ensures
            r@ == self.method_name(),
    {
        match self {
            ClientNotification::CancelNotification(_) => "session/cancel",
            ClientNotification::ExtNotification { method, .. } => method.as_str(),
        }
    }
}

impl AgentRequest {
    /// The method name of the request.
    pub open spec fn method_name(self) -> Seq<char> {
        match self {
            AgentRequest::WriteTextFileRequest(_) => "fs/write_text_file"@,
            AgentRequest::ReadTextFileRequest(_) => "fs/read_text_file"@,
            AgentRequest::RequestPermissionRequest(_) => "session/request_permission"@,
            AgentRequest::CreateTerminalRequest(_) => "terminal/create"@,
            AgentRequest::TerminalOutputRequest(_) => "terminal/output"@,
            AgentRequest::ReleaseTerminalRequest(_) => "terminal/release"@,
            AgentRequest::WaitForTerminalExitRequest(_) => "terminal/wait_for_exit"@,
            AgentRequest::KillTerminalCommandRequest(_) => "terminal/kill"@,
            AgentRequest::ExtMethodRequest { method, .. } => method@,
        }
    }

    /// The method under which the request travels.
    pub fn method(&self) -> (r: &str)
        ensures
            r@ == self.method_name(),
    {
        match self {
            AgentRequest::WriteTextFileRequest(_) => "fs/write_text_file",
            AgentRequest::ReadTextFileRequest(_) => "fs/read_text_file",
            AgentRequest::RequestPermissionRequest(_) => "session/request_permission",
            AgentRequest::CreateTerminalRequest(_) => "terminal/create",
            AgentRequest::TerminalOutputRequest(_) => "terminal/output",
            AgentRequest::ReleaseTerminalRequest(_) => "terminal/release",
            AgentRequest::WaitForTerminalExitRequest(_) => "terminal/wait_for_exit",
            AgentRequest::KillTerminalCommandRequest(_) => "terminal/kill",
            AgentRequest::ExtMethodRequest { method, .. } => method.as_str(),
        }
    }
}

impl AgentNotification {
    /// The method name of the notification.
    pub open spec fn method_name(self) -> Seq<char> {
        match self {
            AgentNotification::SessionNotification(_) => "session/update"@,
            AgentNotification::ExtNotification { method, .. } => method@,
        }
    }

    /// The method under which the notification travels.
    pub fn method(&self) -> (r: &str)
        ensures
            r@ == self.method_name(),
    {
        match self {
            AgentNotification::SessionNotification(_) => "session/update",
            AgentNotification::ExtNotification { method, .. } => method.as_str(),
        }
    }
}

/// What a message reads as where it is the notification of a session's
/// progress: its parameters, where it travels under `session/update` and
/// bears some.
pub fn parse_session_notification(method: &str, params: &Option<Json>) -> (r: Option<
    AgentNotification,
>)
    ensures
        match r {
            Some(n) => {
                &&& method@ == "session/update"@
                &&& n matches AgentNotification::SessionNotification(p)
                &&& Some(p@) == opt_json_view(*params)
            },
            None => method@ != "session/update"@ || *params is None,
        },
{
    if !same_text(method, "session/update") {
        return None;
    }
    match params {
        Some(p) => Some(AgentNotification::SessionNotification(p.clone())),
        None => None,
    }
}

/// A name with its value: an HTTP header, or a variable of the environment.
#[derive(Debug)]
pub struct NameValue {
    pub name: String,
    pub value: String,
}

/// The mathematical value of a [`NameValue`].
pub struct NameValueView {
    pub name: Seq<char>,
    pub value: Seq<char>,
}

impl View for NameValue {
    type V = NameValueView;

    open spec fn view(&self) -> NameValueView {
        NameValueView { name: self.name@, value: self.value@ }
    }
}

/// The values of a sequence of name-value pairs.
pub open spec fn pairs_view(v: Seq<NameValue>) -> Seq<NameValueView> {
    Seq::new(v.len(), |i: int| v[i]@)
}

/// An MCP server as a session names it, by its transport.
#[derive(Debug)]
pub enum McpServer {
    Http { name: String, url: String, headers: Vec<NameValue> },
    Sse { name: String, url: String, headers: Vec<NameValue> },
    Stdio { name: String, command: String, args: Vec<String>, env: Vec<NameValue> },
}

/// The mathematical value of an [`McpServer`].
pub enum McpServerView {
    Http { name: Seq<char>, url: Seq<char>, headers: Seq<NameValueView> },
    Sse { name: Seq<char>, url: Seq<char>, headers: Seq<NameValueView> },
    Stdio { name: Seq<char>, command: Seq<char>, args: Seq<Seq<char>>, env: Seq<NameValueView> },
}

impl View for McpServer {
    type V = McpServerView;

    open spec fn view(&self) -> McpServerView {
        match self {
            McpServer::Http { name, url, headers } => McpServerView::Http {
                name: name@,
                url: url@,
                headers: pairs_view(headers@),
            },
            McpServer::Sse { name, url, headers } => McpServerView::Sse {
                name: name@,
                url: url@,
                headers: pairs_view(headers@),
            },
            McpServer::Stdio { name, command, args, env } => McpServerView::Stdio {
                name: name@,
                command: command@,
                args: texts(args@),
                env: pairs_view(env@),
            },
        }
    }
}

/// The values of a sequence of servers.
pub open spec fn servers_view(v: Seq<McpServer>) -> Seq<McpServerView> {
    Seq::new(v.len(), |i: int| v[i]@)
}

/// A name with its value as a JSON object.
pub open spec fn pair_json(p: NameValueView) -> JsonView {
    with_member(
        with_member(JsonView::Null, "name"@, JsonView::Text(p.name)),
        "value"@,
        JsonView::Text(p.value),
    )
}

/// Names with their values as JSON objects.
pub open spec fn pairs_json(pairs: Seq<NameValueView>) -> Seq<JsonView> {
    Seq::new(pairs.len(), |i: int| pair_json(pairs[i]))
}

/// Texts as JSON strings.
pub open spec fn texts_json(v: Seq<Seq<char>>) -> Seq<JsonView> {
    Seq::new(v.len(), |i: int| JsonView::Text(v[i]))
}

/// A server as a JSON object: a server over HTTP or SSE is marked with its
/// type, a server on standard streams by its command.
pub open spec fn server_json(server: McpServerView) -> JsonView {
    match server {
        McpServerView::Http { name, url, headers } => with_member(
            with_member(
                with_member(
                    with_member(JsonView::Null, "type"@, JsonView::Text("http"@)),
                    "name"@,
                    JsonView::Text(name),
                ),
                "url"@,
                JsonView::Text(url),
            ),
            "headers"@,
            JsonView::Array(pairs_json(headers)),
        ),
        McpServerView::Sse { name, url, headers } => with_member(
            with_member(
                with_member(
                    with_member(JsonView::Null, "type"@, JsonView::Text("sse"@)),
                    "name"@,
                    JsonView::Text(name),
                ),
                "url"@,
                JsonView::Text(url),
            ),
            "headers"@,
            JsonView::Array(pairs_json(headers)),
        ),
        McpServerView::Stdio { name, command, args, env } => with_member(
            with_member(
                with_member(
                    with_member(JsonView::Null, "name"@, JsonView::Text(name)),
                    "command"@,
                    JsonView::Text(command),
                ),
                "args"@,
                JsonView::Array(texts_json(args)),
            ),
            "env"@,
            JsonView::Array(pairs_json(env)),
        ),
    }
}

/// Servers as JSON objects.
pub open spec fn servers_json(servers: Seq<McpServerView>) -> Seq<JsonView> {
    Seq::new(servers.len(), |i: int| server_json(servers[i]))
}

/// The member of the parameters of a new session that lists its servers.
pub open spec fn servers_key() -> Seq<char> {
    "mcpServers"@
}

/// The parameters of a new session with `servers` as its servers. All else
/// in the parameters stays.
pub open spec fn with_servers(params: Option<JsonView>, servers: Seq<McpServerView>) -> JsonView {
    with_member(
        match params {
            Some(p) => p,
            None => JsonView::Null,
        },
        servers_key(),
        JsonView::Array(servers_json(servers)),
    )
}

fn pairs_to_json(pairs: &Vec<NameValue>) -> (r: Json)
    ensures
        r@ == JsonView::Array(pairs_json(pairs_view(pairs@))),
{
    let mut items: Vec<Json> = Vec::new();
    let mut i: usize = 0;
    while i < pairs.len()
        invariant
            i <= pairs.len(),
            items@.len() == i,
            forall|k: int| 0 <= k < i ==> (#[trigger] items@[k])@ == pair_json(pairs@[k]@),
        decreases pairs.len() - i,
    {
        let p = &pairs[i];
        items.push(
            Json::Null.set("name", Json::Text(p.name.clone())).set(
                "value",
                Json::Text(p.value.clone()),
            ),
        );
        i += 1;
    }
    proof {
        crate::json::array_view(items);
        assert(items_view(items@) =~= pairs_json(pairs_view(pairs@)));
    }
    Json::Array(items)
}

fn texts_to_json(v: &Vec<String>) -> (r: Json)
    ensures
        r@ == JsonView::Array(texts_json(texts(v@))),
{
    let mut items: Vec<Json> = Vec::new();
    let mut i: usize = 0;
    while i < v.len()
        invariant
            i <= v.len(),
            items@.len() == i,
            forall|k: int| 0 <= k < i ==> (#[trigger] items@[k])@ == JsonView::Text(v@[k]@),
        decreases v.len() - i,
    {
        items.push(Json::Text(v[i].clone()));
        i += 1;
    }
    proof {
        crate::json::array_view(items);
        assert(items_view(items@) =~= texts_json(texts(v@)));
    }
    Json::Array(items)
}

impl McpServer {
    /// The server as a JSON object.
    pub fn to_json(&self) -> (r: Json)
        ensures
            r@ == server_json(self@),
    {
        match self {
            McpServer::Http { name, url, headers } => Json::Null.set("type", Json::text("http")).set(
                "name",
                Json::Text(name.clone()),
            ).set("url", Json::Text(url.clone())).set("headers", pairs_to_json(headers)),
            McpServer::Sse { name, url, headers } => Json::Null.set("type", Json::text("sse")).set(
                "name",
                Json::Text(name.clone()),
            ).set("url", Json::Text(url.clone())).set("headers", pairs_to_json(headers)),
            McpServer::Stdio { name, command, args, env } => Json::Null.set(
                "name",
                Json::Text(name.clone()),
            ).set("command", Json::Text(command.clone())).set("args", texts_to_json(args)).set(
                "env",
                pairs_to_json(env),
            ),
        }
    }
}

/// The parameters of a new session with `servers` as its servers.
pub fn write_mcp_servers(params: Option<Json>, servers: &Vec<McpServer>) -> (r: Json)
    ensures
        r@ == with_servers(opt_json_view(params), servers_view(servers@)),
{
    let mut items: Vec<Json> = Vec::new();
    let mut i: usize = 0;
    while i < servers.len()
        invariant
            i <= servers.len(),
            items@.len() == i,
            forall|k: int| 0 <= k < i ==> (#[trigger] items@[k])@ == server_json(servers@[k]@),
        decreases servers.len() - i,
    {
        items.push(servers[i].to_json());
        i += 1;
    }
    proof {
        crate::json::array_view(items);
        assert(items_view(items@) =~= servers_json(servers_view(servers@)));
    }
    let base = match params {
        Some(p) => p,
        None => Json::Null,
    };
    base.set("mcpServers", Json::Array(items))
}

/// The name and the value that a JSON object gives; nothing where it lacks
/// either as a string.
pub open spec fn pair_of(j: JsonView) -> Option<NameValueView> {
    match (lookup(j, "name"@), lookup(j, "value"@)) {
        (Some(JsonView::Text(name)), Some(JsonView::Text(value))) => Some(
            NameValueView { name, value },
        ),
        _ => None,
    }
}

/// The names and values that the first `n` items give; nothing where one
/// of them gives none.
pub open spec fn pairs_of(items: Seq<JsonView>, n: int) -> Option<Seq<NameValueView>>
    decreases n,
{
    if n <= 0 || n > items.len() {
        Some(Seq::empty())
    } else {
        match (pairs_of(items, n - 1), pair_of(items[n - 1])) {
            (Some(before), Some(p)) => Some(before.push(p)),
            _ => None,
        }
    }
}

/// The texts of the first `n` items; nothing where one of them is no
/// string.
pub open spec fn texts_of(items: Seq<JsonView>, n: int) -> Option<Seq<Seq<char>>>
    decreases n,
{
    if n <= 0 || n > items.len() {
        Some(Seq::empty())
    } else {
        match (texts_of(items, n - 1), items[n - 1]) {
            (Some(before), JsonView::Text(t)) => Some(before.push(t)),
            _ => None,
        }
    }
}

/// The list under `key`: the items of the array there, none where the
/// member is left out, and nothing where it is no array.
pub open spec fn list_under(j: JsonView, key: Seq<char>) -> Option<Seq<JsonView>> {
    match lookup(j, key) {
        Some(JsonView::Array(items)) => Some(items),
        Some(_) => None,
        None => Some(Seq::empty()),
    }
}

/// The text under `key`, where a string stands there.
pub open spec fn text_under(j: JsonView, key: Seq<char>) -> Option<Seq<char>> {
    match lookup(j, key) {
        Some(JsonView::Text(t)) => Some(t),
        _ => None,
    }
}

/// The names and values listed under `key`.
pub open spec fn pairs_under(j: JsonView, key: Seq<char>) -> Option<Seq<NameValueView>> {
    match list_under(j, key) {
        Some(items) => pairs_of(items, items.len() as int),
        None => None,
    }
}

/// The server that a JSON object describes: one over HTTP or SSE where it
/// is marked so, one on standard streams where it bears no mark; nothing
/// where it lacks what its kind needs.
pub open spec fn server_of(j: JsonView) -> Option<McpServerView> {
    match (lookup(j, "type"@), text_under(j, "name"@)) {
        (Some(JsonView::Text(kind)), Some(name)) => if kind == "http"@ || kind == "sse"@ {
            match (text_under(j, "url"@), pairs_under(j, "headers"@)) {
                (Some(url), Some(headers)) => if kind == "http"@ {
                    Some(McpServerView::Http { name, url, headers })
                } else {
                    Some(McpServerView::Sse { name, url, headers })
                },
                _ => None,
            }
        } else {
            None
        },
        (None, Some(name)) => match (
            text_under(j, "command"@),
            list_under(j, "args"@),
            pairs_under(j, "env"@),
        ) {
            (Some(command), Some(args), Some(env)) => match texts_of(args, args.len() as int) {
                Some(args) => Some(McpServerView::Stdio { name, command, args, env }),
                None => None,
            },
            _ => None,
        },
        _ => None,
    }
}

/// The servers that the first `n` items describe; nothing where one of
/// them describes none.
pub open spec fn servers_of(items: Seq<JsonView>, n: int) -> Option<Seq<McpServerView>>
    decreases n,
{
    if n <= 0 || n > items.len() {
        Some(Seq::empty())
    } else {
        match (servers_of(items, n - 1), server_of(items[n - 1])) {
            (Some(before), Some(s)) => Some(before.push(s)),
            _ => None,
        }
    }
}

/// The servers that the parameters of a new session list; nothing where
/// the list is malformed.
pub open spec fn listed_servers(params: Option<JsonView>) -> Option<Seq<McpServerView>> {
    match params {
        Some(p) => match list_under(p, servers_key()) {
            Some(items) => servers_of(items, items.len() as int),
            None => None,
        },
        None => Some(Seq::empty()),
    }
}

fn read_text(j: &Json, key: &str) -> (r: Option<String>)
    ensures
        crate::text::opt_text(r) == text_under(j@, key@),
{
    match j.get(key) {
        Some(v) => match v.as_text() {
            Some(t) => Some(t.clone()),
            None => None,
        },
        None => None,
    }
}

fn read_pair(j: &Json) -> (r: Option<NameValue>)
    ensures
        match r {
            Some(p) => pair_of(j@) == Some(p@),
            None => pair_of(j@) is None,
        },
{
    match (read_text(j, "name"), read_text(j, "value")) {
        (Some(name), Some(value)) => Some(NameValue { name, value }),
        _ => None,
    }
}

fn read_pairs(j: &Json, key: &str) -> (r: Option<Vec<NameValue>>)
    ensures
        match r {
            Some(v) => pairs_under(j@, key@) == Some(pairs_view(v@)),
            None => pairs_under(j@, key@) is None,
        },
{
    let items = match j.get(key) {
        Some(Json::Array(items)) => {
            proof {
                crate::json::array_view(*items);
            }
            items
        },
        Some(_) => {
            return None;
        },
        None => {
            let out: Vec<NameValue> = Vec::new();
            proof {
                assert(pairs_view(out@) =~= Seq::<NameValueView>::empty());
            }
            return Some(out);
        },
    };
    let ghost views = items_view(items@);
    let mut out: Vec<NameValue> = Vec::new();
    let mut i: usize = 0;
    proof {
        assert(pairs_view(out@) =~= Seq::<NameValueView>::empty());
    }
    while i < items.len()
        invariant
            i <= items.len(),
            views == items_view(items@),
            list_under(j@, key@) == Some(views),
            pairs_of(views, i as int) == Some(pairs_view(out@)),
        decreases items.len() - i,
    {
        let ghost before = pairs_view(out@);
        match read_pair(&items[i]) {
            Some(p) => {
                out.push(p);
                proof {
                    assert(pairs_view(out@) =~= before.push(p@));
                }
            },
            None => {
                proof {
                    assert(views[i as int] == items@[i as int]@);
                    pairs_none_stays(views, i + 1, views.len() as int);
                }
                return None;
            },
        }
        i += 1;
    }
    Some(out)
}

fn read_texts(j: &Json, key: &str) -> (r: Option<Vec<String>>)
    ensures
        match r {
            Some(v) => list_under(j@, key@) matches Some(items) && texts_of(
                items,
                items.len() as int,
            ) == Some(texts(v@)),
            None => list_under(j@, key@) matches Some(items) ==> texts_of(
                items,
                items.len() as int,
            ) is None,
        },
{
    let items = match j.get(key) {
        Some(Json::Array(items)) => {
            proof {
                crate::json::array_view(*items);
            }
            items
        },
        Some(_) => {
            return None;
        },
        None => {
            let out: Vec<String> = Vec::new();
            proof {
                assert(texts(out@) =~= Seq::<Seq<char>>::empty());
            }
            return Some(out);
        },
    };
    let ghost views = items_view(items@);
    let mut out: Vec<String> = Vec::new();
    let mut i: usize = 0;
    proof {
        assert(texts(out@) =~= Seq::<Seq<char>>::empty());
    }
    while i < items.len()
        invariant
            i <= items.len(),
            views == items_view(items@),
            list_under(j@, key@) == Some(views),
            texts_of(views, i as int) == Some(texts(out@)),
        decreases items.len() - i,
    {
        let ghost before = texts(out@);
        match items[i].as_text() {
            Some(t) => {
                out.push(t.clone());
                proof {
                    assert(texts(out@) =~= before.push(t@));
                }
            },
            None => {
                proof {
                    assert(views[i as int] == items@[i as int]@);
                    texts_none_stays(views, i + 1, views.len() as int);
                }
                return None;
            },
        }
        i += 1;
    }
    Some(out)
}

/// Once an item gives no pair, more items give no list of pairs.
pub proof fn pairs_none_stays(items: Seq<JsonView>, n: int, m: int)
    requires
        0 <= n <= m <= items.len(),
        pairs_of(items, n) is None,
    ensures
        pairs_of(items, m) is None,
    decreases m - n,
{
    if n < m {
        pairs_none_stays(items, n, m - 1);
    }
}

/// Once an item is no string, more items give no list of texts.
pub proof fn texts_none_stays(items: Seq<JsonView>, n: int, m: int)
    requires
        0 <= n <= m <= items.len(),
        texts_of(items, n) is None,
    ensures
        texts_of(items, m) is None,
    decreases m - n,
{
    if n < m {
        texts_none_stays(items, n, m - 1);
    }
}

/// Once an item describes no server, more items give no list of servers.
pub proof fn servers_none_stays(items: Seq<JsonView>, n: int, m: int)
    requires
        0 <= n <= m <= items.len(),
        servers_of(items, n) is None,
    ensures
        servers_of(items, m) is None,
    decreases m - n,
{
    if n < m {
        servers_none_stays(items, n, m - 1);
    }
}

impl McpServer {
    /// The server that a JSON object describes.
    pub fn from_json(j: &Json) -> (r: Option<McpServer>)
        ensures
            match r {
                Some(s) => server_of(j@) == Some(s@),
                None => server_of(j@) is None,
            },
    {
        let name = match read_text(j, "name") {
            Some(name) => name,
            None => {
                return None;
            },
        };
        match j.get("type") {
            Some(kind) => {
                let kind = match kind.as_text() {
                    Some(k) => k,
                    None => {
                        return None;
                    },
                };
                let http = same_text(kind.as_str(), "http");
                let sse = same_text(kind.as_str(), "sse");
                if !http && !sse {
                    return None;
                }
                match (read_text(j, "url"), read_pairs(j, "headers")) {
                    (Some(url), Some(headers)) => if http {
                        Some(McpServer::Http { name, url, headers })
                    } else {
                        Some(McpServer::Sse { name, url, headers })
                    },
                    _ => None,
                }
            },
            None => {
                let command = match read_text(j, "command") {
                    Some(c) => c,
                    None => {
                        return None;
                    },
                };
                let args = read_texts(j, "args");
                let env = read_pairs(j, "env");
                match (args, env) {
                    (Some(args), Some(env)) => Some(McpServer::Stdio { name, command, args, env }),
                    _ => None,
                }
            },
        }
    }
}

/// The servers that the parameters of a new session list. A list that is
/// malformed is refused as invalid parameters.
pub fn read_mcp_servers(params: &Option<Json>) -> (r: Result<Vec<McpServer>, RpcError>)
    ensures
        match r {
            Ok(servers) => listed_servers(opt_json_view(*params)) == Some(servers_view(servers@)),
            Err(e) => listed_servers(opt_json_view(*params)) is None && e@ == plain_error(
                INVALID_PARAMS as int,
                "Invalid params"@,
            ),
        },
{
    let mut out: Vec<McpServer> = Vec::new();
    proof {
        assert(servers_view(out@) =~= Seq::<McpServerView>::empty());
    }
    let p = match params {
        Some(p) => p,
        None => {
            return Ok(out);
        },
    };
    let items = match p.get("mcpServers") {
        Some(Json::Array(items)) => {
            proof {
                crate::json::array_view(*items);
            }
            items
        },
        Some(_) => {
            return Err(RpcError::invalid_params());
        },
        None => {
            return Ok(out);
        },
    };
    let ghost views = items_view(items@);
    let mut i: usize = 0;
    while i < items.len()
        invariant
            i <= items.len(),
            views == items_view(items@),
            opt_json_view(*params) == Some(p@),
            list_under(p@, servers_key()) == Some(views),
            servers_of(views, i as int) == Some(servers_view(out@)),
        decreases items.len() - i,
    {
        let ghost before = servers_view(out@);
        match McpServer::from_json(&items[i]) {
            Some(s) => {
                out.push(s);
                proof {
                    assert(servers_view(out@) =~= before.push(s@));
                }
            },
            None => {
                proof {
                    assert(views[i as int] == items@[i as int]@);
                    servers_none_stays(views, i + 1, views.len() as int);
                }
                return Err(RpcError::invalid_params());
            },
        }
        i += 1;
    }
    Ok(out)
}

/// The names of the members of a server and of a pair differ from one
/// another.
pub proof fn server_member_names_differ()
    ensures
        "type"@ != "name"@,
        "type"@ != "url"@,
        "type"@ != "headers"@,
        "type"@ != "command"@,
        "type"@ != "args"@,
        "type"@ != "env"@,
        "name"@ != "url"@,
        "name"@ != "headers"@,
        "name"@ != "command"@,
        "name"@ != "args"@,
        "name"@ != "env"@,
        "name"@ != "value"@,
        "url"@ != "headers"@,
        "command"@ != "args"@,
        "command"@ != "env"@,
        "args"@ != "env"@,
        "http"@ != "sse"@,
{
    reveal_strlit("type");
    reveal_strlit("name");
    reveal_strlit("url");
    reveal_strlit("headers");
    reveal_strlit("command");
    reveal_strlit("args");
    reveal_strlit("env");
    reveal_strlit("value");
    reveal_strlit("http");
    reveal_strlit("sse");
    assert("type"@.len() == 4);
    assert("name"@.len() == 4);
    assert("url"@.len() == 3);
    assert("headers"@.len() == 7);
    assert("command"@.len() == 7);
    assert("args"@.len() == 4);
    assert("env"@.len() == 3);
    assert("value"@.len() == 5);
    assert("http"@.len() == 4);
    assert("sse"@.len() == 3);
    assert("type"@[0] == 't');
    assert("name"@[0] == 'n');
    assert("args"@[0] == 'a');
    assert("url"@[0] == 'u');
    assert("env"@[0] == 'e');
    assert("headers"@[0] == 'h');
    assert("command"@[0] == 'c');
}

/// A pair that was written is read back as it was.
pub proof fn pair_reads_back(p: NameValueView)
    ensures
        pair_of(pair_json(p)) == Some(p),
{
    server_member_names_differ();
    let j1 = with_member(JsonView::Null, "name"@, JsonView::Text(p.name));
    lookup_with_member(JsonView::Null, "name"@, JsonView::Text(p.name), "name"@);
    lookup_with_member(j1, "value"@, JsonView::Text(p.value), "name"@);
    lookup_with_member(j1, "value"@, JsonView::Text(p.value), "value"@);
}

/// Pairs that were written are read back as they were.
pub proof fn pairs_read_back(pairs: Seq<NameValueView>, n: int)
    requires
        0 <= n <= pairs.len(),
    ensures
        pairs_of(pairs_json(pairs), n) == Some(pairs.take(n)),
    decreases n,
{
    if n > 0 {
        pairs_read_back(pairs, n - 1);
        pair_reads_back(pairs[n - 1]);
        assert(pairs.take(n) =~= pairs.take(n - 1).push(pairs[n - 1]));
    } else {
        assert(pairs.take(0) =~= Seq::<NameValueView>::empty());
    }
}

/// Texts that were written are read back as they were.
pub proof fn texts_read_back(v: Seq<Seq<char>>, n: int)
    requires
        0 <= n <= v.len(),
    ensures
        texts_of(texts_json(v), n) == Some(v.take(n)),
    decreases n,
{
    if n > 0 {
        texts_read_back(v, n - 1);
        assert(v.take(n) =~= v.take(n - 1).push(v[n - 1]));
    } else {
        assert(v.take(0) =~= Seq::<Seq<char>>::empty());
    }
}

/// A server that was written is read back as it was.
pub proof fn server_reads_back(server: McpServerView)
    ensures
        server_of(server_json(server)) == Some(server),
{
    server_member_names_differ();
    match server {
        McpServerView::Http { name, url, headers } => {
            let j0 = JsonView::Null;
            let j1 = with_member(j0, "type"@, JsonView::Text("http"@));
            let j2 = with_member(j1, "name"@, JsonView::Text(name));
            let j3 = with_member(j2, "url"@, JsonView::Text(url));
            let h = JsonView::Array(pairs_json(headers));
            lookup_with_member(j0, "type"@, JsonView::Text("http"@), "type"@);
            lookup_with_member(j1, "name"@, JsonView::Text(name), "type"@);
            lookup_with_member(j1, "name"@, JsonView::Text(name), "name"@);
            lookup_with_member(j2, "url"@, JsonView::Text(url), "type"@);
            lookup_with_member(j2, "url"@, JsonView::Text(url), "name"@);
            lookup_with_member(j2, "url"@, JsonView::Text(url), "url"@);
            lookup_with_member(j3, "headers"@, h, "type"@);
            lookup_with_member(j3, "headers"@, h, "name"@);
            lookup_with_member(j3, "headers"@, h, "url"@);
            lookup_with_member(j3, "headers"@, h, "headers"@);
            pairs_read_back(headers, headers.len() as int);
            assert(headers.take(headers.len() as int) =~= headers);
        },
        McpServerView::Sse { name, url, headers } => {
            let j0 = JsonView::Null;
            let j1 = with_member(j0, "type"@, JsonView::Text("sse"@));
            let j2 = with_member(j1, "name"@, JsonView::Text(name));
            let j3 = with_member(j2, "url"@, JsonView::Text(url));
            let h = JsonView::Array(pairs_json(headers));
            lookup_with_member(j0, "type"@, JsonView::Text("sse"@), "type"@);
            lookup_with_member(j1, "name"@, JsonView::Text(name), "type"@);
            lookup_with_member(j1, "name"@, JsonView::Text(name), "name"@);
            lookup_with_member(j2, "url"@, JsonView::Text(url), "type"@);
            lookup_with_member(j2, "url"@, JsonView::Text(url), "name"@);
            lookup_with_member(j2, "url"@, JsonView::Text(url), "url"@);
            lookup_with_member(j3, "headers"@, h, "type"@);
            lookup_with_member(j3, "headers"@, h, "name"@);
            lookup_with_member(j3, "headers"@, h, "url"@);
            lookup_with_member(j3, "headers"@, h, "headers"@);
            pairs_read_back(headers, headers.len() as int);
            assert(headers.take(headers.len() as int) =~= headers);
        },
        McpServerView::Stdio { name, command, args, env } => {
            let j0 = JsonView::Null;
            let j1 = with_member(j0, "name"@, JsonView::Text(name));
            let j2 = with_member(j1, "command"@, JsonView::Text(command));
            let a = JsonView::Array(texts_json(args));
            let j3 = with_member(j2, "args"@, a);
            let e = JsonView::Array(pairs_json(env));
            lookup_with_member(j0, "name"@, JsonView::Text(name), "type"@);
            lookup_with_member(j0, "name"@, JsonView::Text(name), "name"@);
            lookup_with_member(j1, "command"@, JsonView::Text(command), "type"@);
            lookup_with_member(j1, "command"@, JsonView::Text(command), "name"@);
            lookup_with_member(j1, "command"@, JsonView::Text(command), "command"@);
            lookup_with_member(j2, "args"@, a, "type"@);
            lookup_with_member(j2, "args"@, a, "name"@);
            lookup_with_member(j2, "args"@, a, "command"@);
            lookup_with_member(j2, "args"@, a, "args"@);
            lookup_with_member(j3, "env"@, e, "type"@);
            lookup_with_member(j3, "env"@, e, "name"@);
            lookup_with_member(j3, "env"@, e, "command"@);
            lookup_with_member(j3, "env"@, e, "args"@);
            lookup_with_member(j3, "env"@, e, "env"@);
            pairs_read_back(env, env.len() as int);
            texts_read_back(args, args.len() as int);
            assert(env.take(env.len() as int) =~= env);
            assert(args.take(args.len() as int) =~= args);
        },
    }
}

/// Servers that were written are read back as they were.
pub proof fn servers_read_back(servers: Seq<McpServerView>, n: int)
    requires
        0 <= n <= servers.len(),
    ensures
        servers_of(servers_json(servers), n) == Some(servers.take(n)),
    decreases n,
{
    if n > 0 {
        servers_read_back(servers, n - 1);
        server_reads_back(servers[n - 1]);
        assert(servers.take(n) =~= servers.take(n - 1).push(servers[n - 1]));
    } else {
        assert(servers.take(0) =~= Seq::<McpServerView>::empty());
    }
}

/// The servers written into the parameters of a new session are the
/// servers read from them, and every other member of the parameters stays
/// as it was.
pub proof fn written_servers_are_listed(
    params: Option<JsonView>,
    servers: Seq<McpServerView>,
    other: Seq<char>,
)
    requires
        other != servers_key(),
    ensures
        listed_servers(Some(with_servers(params, servers))) == Some(servers),
        lookup(with_servers(params, servers), other) == match params {
            Some(p) => lookup(p, other),
            None => None,
        },
{
    let base = match params {
        Some(p) => p,
        None => JsonView::Null,
    };
    let list = JsonView::Array(servers_json(servers));
    lookup_with_member(base, servers_key(), list, servers_key());
    lookup_with_member(base, servers_key(), list, other);
    servers_read_back(servers, servers.len() as int);
    assert(servers.take(servers.len() as int) =~= servers);
}

} // verus!
