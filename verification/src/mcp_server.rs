//! The registry of MCP servers that a proxy offers to the agent behind it:
//! which servers are registered, which bridge sessions are live, and what
//! the proxy does with each message of the bridge.

use crate::acp::{listed_servers, read_mcp_servers, servers_view, with_servers, write_mcp_servers};
use crate::acp::{McpServer, McpServerView, NameValue};
use crate::error::opt_json_view;
use crate::error::{internal_error, plain_error, RpcError, RpcErrorView, INTERNAL_ERROR};
use crate::json::{Json, JsonView};
use crate::text_map::{distinct, without_key, without_key_twice, TextMap};
use vstd::prelude::*;

verus! {

/// An MCP server that a proxy has registered.
#[derive(Debug)]
pub struct RegisteredMcpServer {
    /// The name under which the agent sees the server.
    pub name: String,
    /// The synthetic identity of the server: `acp:` and a UUID.
    pub url: String,
}

/// The mathematical value of a [`RegisteredMcpServer`].
pub struct RegisteredView {
    pub name: Seq<char>,
    pub url: Seq<char>,
}

impl View for RegisteredMcpServer {
    type V = RegisteredView;

    open spec fn view(&self) -> RegisteredView {
        RegisteredView { name: self.name@, url: self.url@ }
    }
}

impl Clone for RegisteredMcpServer {
    fn clone(&self) -> (r: RegisteredMcpServer)
        ensures
            r@ == self@,
    {
        RegisteredMcpServer { name: self.name.clone(), url: self.url.clone() }
    }
}

impl RegisteredMcpServer {
    /// The server as a new session names it: reached over HTTP at its
    /// synthetic url, without headers.
    pub fn acp_mcp_server(&self) -> (r: McpServer)
        ensures
            r@ == advertised(self@),
    {
        let headers: Vec<NameValue> = Vec::new();
        proof {
            assert(crate::acp::pairs_view(headers@) =~= Seq::empty());
        }
        McpServer::Http { name: self.name.clone(), url: self.url.clone(), headers }
    }
}

/// A registered server as a new session names it.
pub open spec fn advertised(server: RegisteredView) -> McpServerView {
    McpServerView::Http { name: server.name, url: server.url, headers: Seq::empty() }
}

/// The url of the server registered with the identifier `uuid`.
pub open spec fn acp_url(uuid: Seq<char>) -> Seq<char> {
    "acp:"@ + uuid
}

/// The identifier of the bridge session opened with `uuid`.
pub open spec fn connection_id(uuid: Seq<char>) -> Seq<char> {
    "mcp-over-acp-connection:"@ + uuid
}

/// The message of the error that refuses a second server of one name.
pub open spec fn already_exists_message(name: Seq<char>) -> Seq<char> {
    "Server with name '"@ + name + "' already exists"@
}

/// The registry of a proxy.
#[derive(Debug)]
pub struct McpServiceRegistry {
    /// The registered servers by their names.
    pub registered_by_name: TextMap<RegisteredMcpServer>,
    /// The registered servers by their urls.
    pub registered_by_url: TextMap<RegisteredMcpServer>,
    /// The identifiers of the live bridge sessions.
    pub connections: TextMap<()>,
}

/// A request to open a bridge session to the server at `acp_url`.
#[derive(Debug)]
pub struct McpConnectRequest {
    pub acp_url: String,
}

/// An MCP request or notification on its way through a bridge session.
#[derive(Debug)]
pub struct McpOverAcpMessage {
    pub connection_id: String,
    pub message: Json,
}

/// The end of a bridge session.
#[derive(Debug)]
pub struct McpDisconnectNotification {
    pub connection_id: String,
}

/// The request that opens an ACP session, as far as the registry reads it.
#[derive(Debug)]
pub struct NewSessionRequest {
    pub cwd: String,
    pub mcp_servers: Vec<McpServer>,
    pub meta: Option<Json>,
}

/// What the registry does with a message.
#[derive(Debug)]
pub enum RegistryAction {
    /// The message is not the registry's: the next handler gets it.
    NotHandled,
    /// Answer the request with this error.
    RespondWithError { error: RpcError },
    /// Tell the sender of this error.
    SendErrorNotification { error: RpcError },
    /// Open a bridge session to `server`, and answer with `connection_id`.
    Connect { connection_id: String, server: RegisteredMcpServer },
    /// Hand the MCP request to the session's server.
    DeliverRequest { connection_id: String, request: Json },
    /// Hand the MCP notification to the session's server.
    DeliverNotification { connection_id: String, notification: Json },
    /// The session is over: close its streams.
    Disconnected { connection_id: String },
    /// Send the enriched request on to the successor.
    ForwardNewSession { session: NewSessionRequest },
}

impl RegistryAction {
    /// Whether the registry took the message: the chain stops here.
    pub open spec fn handled(&self) -> bool {
        !(self is NotHandled)
    }
}

/// The registered servers as a new session names them, for the first `n`
/// urls of the registry.
pub open spec fn advertised_upto(registry: McpServiceRegistry, n: int) -> Seq<McpServerView>
    decreases n,
{
    if n <= 0 || n > registry.registered_by_url.entries@.len() {
        Seq::empty()
    } else {
        advertised_upto(registry, n - 1).push(
            advertised(registry.registered_by_url.entries@[n - 1].value@),
        )
    }
}

/// A connect request by what the registry reads of it: the url, or the
/// error with which it failed to parse.
pub open spec fn connect_view(request: Result<McpConnectRequest, RpcError>) -> Result<
    Seq<char>,
    RpcErrorView,
> {
    match request {
        Ok(q) => Ok(q.acp_url@),
        Err(e) => Err(e@),
    }
}

/// A bridged message by what the registry reads of it: the session and the
/// payload, or the error with which it failed to parse.
pub open spec fn over_acp_view(message: Result<McpOverAcpMessage, RpcError>) -> Result<
    (Seq<char>, JsonView),
    RpcErrorView,
> {
    match message {
        Ok(m) => Ok((m.connection_id@, m.message@)),
        Err(e) => Err(e@),
    }
}

/// A disconnect notification by what the registry reads of it.
pub open spec fn disconnect_view(notification: Result<McpDisconnectNotification, RpcError>) -> Result<
    Seq<char>,
    RpcErrorView,
> {
    match notification {
        Ok(n) => Ok(n.connection_id@),
        Err(e) => Err(e@),
    }
}

/// The rule for a connect request: `r` is what the registry `before` does
/// with it, and `after` is the registry that results.
pub open spec fn opened(
    before: McpServiceRegistry,
    after: McpServiceRegistry,
    request: Result<Seq<char>, RpcErrorView>,
    r: RegistryAction,
) -> bool {
    &&& after.registered_by_name == before.registered_by_name
    &&& after.registered_by_url == before.registered_by_url
    &&& match request {
        Err(e) => {
            &&& r matches RegistryAction::RespondWithError { error }
            &&& error@ == e
            &&& after.connections == before.connections
        },
        Ok(url) => if before.registered_by_url.has(url) {
            &&& r matches RegistryAction::Connect { connection_id: id, server }
            &&& before.registered_by_url.value_of(url) matches Some(s)
            &&& server@ == s@
            &&& after.connections.has(id@)
            &&& forall|other: Seq<char>|
                other != id@ ==> after.connections.has(other) == before.connections.has(other)
        } else {
            &&& r is NotHandled
            &&& after.connections == before.connections
        },
    }
}

/// The rule for an MCP request that came over ACP.
pub open spec fn delivered_request(
    registry: McpServiceRegistry,
    request: Result<(Seq<char>, JsonView), RpcErrorView>,
    r: RegistryAction,
) -> bool {
    match request {
        Err(e) => r matches RegistryAction::RespondWithError { error } && error@ == e,
        Ok(m) => if registry.connections.has(m.0) {
            &&& r matches RegistryAction::DeliverRequest { connection_id: id, request: q }
            &&& id@ == m.0
            &&& q@ == m.1
        } else {
            r is NotHandled
        },
    }
}

/// The rule for an MCP notification that came over ACP.
pub open spec fn delivered_notification(
    registry: McpServiceRegistry,
    notification: Result<(Seq<char>, JsonView), RpcErrorView>,
    r: RegistryAction,
) -> bool {
    match notification {
        Err(e) => r matches RegistryAction::SendErrorNotification { error } && error@ == e,
        Ok(m) => if registry.connections.has(m.0) {
            &&& r matches RegistryAction::DeliverNotification { connection_id: id, notification: q }
            &&& id@ == m.0
            &&& q@ == m.1
        } else {
            r is NotHandled
        },
    }
}

/// The rule for the end of a bridge session.
pub open spec fn disconnected(
    before: McpServiceRegistry,
    after: McpServiceRegistry,
    notification: Result<Seq<char>, RpcErrorView>,
    r: RegistryAction,
) -> bool {
    &&& after.registered_by_name == before.registered_by_name
    &&& after.registered_by_url == before.registered_by_url
    &&& match notification {
        Err(e) => {
            &&& r matches RegistryAction::SendErrorNotification { error }
            &&& error@ == e
            &&& after.connections == before.connections
        },
        Ok(id) => {
            &&& after.connections.keys() == without_key(before.connections.keys(), id)
            &&& !after.connections.has(id)
            &&& forall|other: Seq<char>|
                other != id ==> after.connections.has(other) == before.connections.has(other)
            &&& if before.connections.has(id) {
                r matches RegistryAction::Disconnected { connection_id: c } && c@ == id
            } else {
                r is NotHandled && after.connections.entries@ == before.connections.entries@
            }
        },
    }
}

/// The rule for a request that opens a session.
pub open spec fn enriched(
    registry: McpServiceRegistry,
    request: Result<NewSessionRequest, RpcError>,
    r: RegistryAction,
) -> bool {
    match request {
        Err(e) => r matches RegistryAction::SendErrorNotification { error } && error@ == e@,
        Ok(q) => {
            &&& r matches RegistryAction::ForwardNewSession { session }
            &&& session.cwd == q.cwd
            &&& session.meta == q.meta
            &&& servers_view(session.mcp_servers@) == servers_view(q.mcp_servers@)
                + registry.advertised_servers()
        },
    }
}

impl McpServiceRegistry {
    /// No name, no url and no session stands in the registry twice.
    pub open spec fn wf(&self) -> bool {
        self.registered_by_name.wf() && self.registered_by_url.wf() && self.connections.wf()
    }

    /// All registered servers as a new session names them, in the order of
    /// their registration.
    pub open spec fn advertised_servers(&self) -> Seq<McpServerView> {
        advertised_upto(*self, self.registered_by_url.entries@.len() as int)
    }

    /// A registry without servers and without sessions.
    pub fn new() -> (r: McpServiceRegistry)
        ensures
            r.wf(),
            r.registered_by_name.entries@.len() == 0,
            r.registered_by_url.entries@.len() == 0,
            r.connections.entries@.len() == 0,
    {
        McpServiceRegistry {
            registered_by_name: TextMap::new(),
            registered_by_url: TextMap::new(),
            connections: TextMap::new(),
        }
    }

    /// The server registered under `name`.
    pub fn get_registered_server_by_name(&self, name: &str) -> (r: Option<&RegisteredMcpServer>)
        ensures
            match r {
                Some(s) => self.registered_by_name.value_of(name@) == Some(*s),
                None => !self.registered_by_name.has(name@),
            },
    {
        self.registered_by_name.get(name)
    }

    /// The server registered at `url`.
    pub fn get_registered_server_by_url(&self, url: &str) -> (r: Option<&RegisteredMcpServer>)
        ensures
            match r {
                Some(s) => self.registered_by_url.value_of(url@) == Some(*s),
                None => !self.registered_by_url.has(url@),
            },
    {
        self.registered_by_url.get(url)
    }

    /// Whether a bridge session of this identifier is live.
    pub fn get_connection(&self, connection_id: &str) -> (r: bool)
        ensures
            r == self.connections.has(connection_id@),
    {
        self.connections.contains(connection_id)
    }

    /// Notes the bridge session `connection_id` as live.
    pub fn insert_connection(&mut self, connection_id: &str)
        requires
            old(self).wf(),
        ensures
            final(self).wf(),
            final(self).connections.has(connection_id@),
            forall|other: Seq<char>|
                other != connection_id@ ==> final(self).connections.has(other) == old(self).connections.has(other),
            final(self).registered_by_name == old(self).registered_by_name,
            final(self).registered_by_url == old(self).registered_by_url,
    {
        let ghost before = *self;
        self.connections.insert(connection_id, ());
        proof {
            assert forall|other: Seq<char>| other != connection_id@ implies self.connections.has(
                other,
            ) == before.connections.has(other) by {
                assert(self.connections.value_of(other) == before.connections.value_of(other));
            }
        }
    }

    /// Ends the bridge session `connection_id` and says whether it was live.
    pub fn remove_connection(&mut self, connection_id: &str) -> (r: bool)
        requires
            old(self).wf(),
        ensures
            final(self).wf(),
            r == old(self).connections.has(connection_id@),
            !final(self).connections.has(connection_id@),
            !r ==> final(self).connections.entries@ == old(self).connections.entries@,
            final(self).connections.keys() == without_key(
                old(self).connections.keys(),
                connection_id@,
            ),
            forall|other: Seq<char>|
                other != connection_id@ ==> final(self).connections.has(other) == old(self).connections.has(other),
            final(self).registered_by_name == old(self).registered_by_name,
            final(self).registered_by_url == old(self).registered_by_url,
    {
        let ghost before = *self;
        let removed = self.connections.remove(connection_id);
        proof {
            assert forall|other: Seq<char>| other != connection_id@ implies self.connections.has(
                other,
            ) == before.connections.has(other) by {
                assert(self.connections.value_of(other) == before.connections.value_of(other));
            }
        }
        removed
    }

    /// Registers a server under `name`, with `uuid` as the identifier of its
    /// url. A name that is taken is refused, and nothing changes.
    pub fn register(&mut self, name: &str, uuid: &str) -> (r: Result<(), RpcError>)
        requires
            old(self).wf(),
        ensures
            final(self).wf(),
            final(self).connections == old(self).connections,
            match r {
                Ok(()) => {
                    &&& !old(self).registered_by_name.has(name@)
                    &&& final(self).registered_by_name.value_of(name@) matches Some(s) && s@
                        == (RegisteredView { name: name@, url: acp_url(uuid@) })
                    &&& final(self).registered_by_url.value_of(acp_url(uuid@)) matches Some(s)
                        && s@ == (RegisteredView { name: name@, url: acp_url(uuid@) })
                    &&& forall|other: Seq<char>|
                        other != name@ ==> final(self).registered_by_name.value_of(other) == old(self).registered_by_name.value_of(other)
                    &&& forall|other: Seq<char>|
                        other != acp_url(uuid@) ==> final(self).registered_by_url.value_of(other)
                            == old(self).registered_by_url.value_of(other)
                },
                Err(e) => {
                    &&& old(self).registered_by_name.has(name@)
                    &&& e@ == plain_error(INTERNAL_ERROR as int, already_exists_message(name@))
                    &&& final(self).registered_by_name == old(self).registered_by_name
                    &&& final(self).registered_by_url == old(self).registered_by_url
                },
            },
    {
        if self.registered_by_name.contains(name) {
            let mut message = String::from_str("Server with name '");
            message.append(name);
            message.append("' already exists");
            return Err(internal_error(message.as_str()));
        }
        let mut url = String::from_str("acp:");
        url.append(uuid);
        let by_name = RegisteredMcpServer { name: String::from_str(name), url: url.clone() };
        let by_url = RegisteredMcpServer { name: String::from_str(name), url: url.clone() };
        self.registered_by_name.insert(name, by_name);
        self.registered_by_url.insert(url.as_str(), by_url);
        Ok(())
    }

    /// Opens a bridge session for a connect request, with `uuid` as the
    /// session's identifier. A request that did not parse is answered with
    /// its error; a url that is not registered here is left to the next
    /// handler; else the session is noted as live.
    pub fn open_connection(&mut self, request: Result<McpConnectRequest, RpcError>, uuid: &str) -> (r:
        RegistryAction)
        requires
            old(self).wf(),
        ensures
            final(self).wf(),
            opened(*old(self), *final(self), connect_view(request), r),
            r matches RegistryAction::Connect { connection_id: id, .. } ==> id@ == connection_id(uuid@),
    {
        let request = match request {
            Ok(request) => request,
            Err(error) => {
                return RegistryAction::RespondWithError { error };
            },
        };
        let server = match self.get_registered_server_by_url(request.acp_url.as_str()) {
            Some(server) => server.clone(),
            None => {
                return RegistryAction::NotHandled;
            },
        };
        let mut id = String::from_str("mcp-over-acp-connection:");
        id.append(uuid);
        self.insert_connection(id.as_str());
        RegistryAction::Connect { connection_id: id, server }
    }

    /// Opens a bridge session for a connect request, under a fresh
    /// identifier.
    pub fn handle_connect_request(&mut self, request: Result<McpConnectRequest, RpcError>) -> (r:
        RegistryAction)
        requires
            old(self).wf(),
        ensures
            final(self).wf(),
            opened(*old(self), *final(self), connect_view(request), r),
    {
        let uuid = fresh_uuid();
        self.open_connection(request, uuid.as_str())
    }

    /// What is done with an MCP request that came over ACP: one that did not
    /// parse is answered with its error, one for a session that is not live
    /// here is left to the next handler, any other goes to its session.
    pub fn handle_mcp_over_acp_request(&self, request: Result<McpOverAcpMessage, RpcError>) -> (r:
        RegistryAction)
        ensures
            delivered_request(*self, over_acp_view(request), r),
    {
        match request {
            Err(error) => RegistryAction::RespondWithError { error },
            Ok(m) => {
                if self.get_connection(m.connection_id.as_str()) {
                    RegistryAction::DeliverRequest {
                        connection_id: m.connection_id,
                        request: m.message,
                    }
                } else {
                    RegistryAction::NotHandled
                }
            },
        }
    }

    /// What is done with an MCP notification that came over ACP.
    pub fn handle_mcp_over_acp_notification(
        &self,
        notification: Result<McpOverAcpMessage, RpcError>,
    ) -> (r: RegistryAction)
        ensures
            delivered_notification(*self, over_acp_view(notification), r),
    {
        match notification {
            Err(error) => RegistryAction::SendErrorNotification { error },
            Ok(m) => {
                if self.get_connection(m.connection_id.as_str()) {
                    RegistryAction::DeliverNotification {
                        connection_id: m.connection_id,
                        notification: m.message,
                    }
                } else {
                    RegistryAction::NotHandled
                }
            },
        }
    }

    /// Ends a bridge session. Where the session is live it is taken out and
    /// its streams are to be closed; where it is not, nothing changes and
    /// the notification is left to the next handler.
    pub fn handle_mcp_disconnect_notification(
        &mut self,
        notification: Result<McpDisconnectNotification, RpcError>,
    ) -> (r: RegistryAction)
        requires
            old(self).wf(),
        ensures
            final(self).wf(),
            disconnected(*old(self), *final(self), disconnect_view(notification), r),
    {
        match notification {
            Err(error) => RegistryAction::SendErrorNotification { error },
            Ok(n) => {
                if self.remove_connection(n.connection_id.as_str()) {
                    RegistryAction::Disconnected { connection_id: n.connection_id }
                } else {
                    RegistryAction::NotHandled
                }
            },
        }
    }

    /// The request that opens a session, with every registered server added
    /// to the servers it names, on its way to the successor. A request that
    /// did not parse is reported to its sender.
    pub fn handle_new_session_request(&self, request: Result<NewSessionRequest, RpcError>) -> (r:
        RegistryAction)
        ensures
            enriched(*self, request, r),
    {
        match request {
            Err(error) => RegistryAction::SendErrorNotification { error },
            Ok(q) => {
                let NewSessionRequest { cwd, mcp_servers, meta } = q;
                let ghost given = servers_view(mcp_servers@);
                let mut mcp_servers = mcp_servers;
                let mut i: usize = 0;
                while i < self.registered_by_url.entries.len()
                    invariant
                        i <= self.registered_by_url.entries@.len(),
                        servers_view(mcp_servers@) == given + advertised_upto(*self, i as int),
                    decreases self.registered_by_url.entries@.len() - i,
                {
                    let ghost before = servers_view(mcp_servers@);
                    let server = self.registered_by_url.entries[i].value.acp_mcp_server();
                    mcp_servers.push(server);
                    proof {
                        assert(servers_view(mcp_servers@) =~= before.push(server@));
                        assert(before.push(server@) =~= given + advertised_upto(*self, i + 1));
                    }
                    i += 1;
                }
                RegistryAction::ForwardNewSession {
                    session: NewSessionRequest { cwd, mcp_servers, meta },
                }
            },
        }
    }

    /// The servers that the registry offers, as a new session names them.
    pub fn advertise(&self) -> (r: Vec<McpServer>)
        ensures
            servers_view(r@) == self.advertised_servers(),
    {
        let mut out: Vec<McpServer> = Vec::new();
        let mut i: usize = 0;
        proof {
            assert(servers_view(out@) =~= Seq::<McpServerView>::empty());
        }
        while i < self.registered_by_url.entries.len()
            invariant
                i <= self.registered_by_url.entries@.len(),
                servers_view(out@) == advertised_upto(*self, i as int),
            decreases self.registered_by_url.entries@.len() - i,
        {
            let ghost before = servers_view(out@);
            let server = self.registered_by_url.entries[i].value.acp_mcp_server();
            out.push(server);
            proof {
                assert(servers_view(out@) =~= before.push(server@));
            }
            i += 1;
        }
        out
    }

    /// The parameters of a new session with every registered server added
    /// to the servers they list; all else in the parameters stays. A list
    /// that is malformed is refused as invalid parameters.
    pub fn enrich_new_session(&self, params: Option<Json>) -> (r: Result<Json, RpcError>)
        ensures
            match r {
                Ok(p) => listed_servers(opt_json_view(params)) matches Some(given) && p@
                    == with_servers(opt_json_view(params), given + self.advertised_servers()),
                Err(e) => listed_servers(opt_json_view(params)) is None && e@ == plain_error(
                    crate::error::INVALID_PARAMS as int,
                    "Invalid params"@,
                ),
            },
    {
        let mut servers = match read_mcp_servers(&params) {
            Ok(servers) => servers,
            Err(e) => {
                return Err(e);
            },
        };
        let ghost given = servers_view(servers@);
        let mut more = self.advertise();
        let ghost added = servers_view(more@);
        servers.append(&mut more);
        proof {
            assert(servers_view(servers@) =~= given + added);
        }
        Ok(write_mcp_servers(params, &servers))
    }

    /// Registers a server under `name` with a fresh url. A name that is
    /// taken is refused, and nothing changes.
    pub fn add_rmcp_server(&mut self, name: &str) -> (r: Result<(), RpcError>)
        requires
            old(self).wf(),
        ensures
            final(self).wf(),
            final(self).connections == old(self).connections,
            r is Ok <==> !old(self).registered_by_name.has(name@),
            r is Ok ==> ({
                &&& final(self).registered_by_name.value_of(name@) matches Some(s)
                &&& s.name@ == name@
                &&& crate::text::has_prefix(s.url@, "acp:"@)
                &&& final(self).registered_by_url.value_of(s.url@) matches Some(t)
                &&& t@ == s@
            }),
            r is Ok ==> forall|other: Seq<char>|
                other != name@ ==> final(self).registered_by_name.value_of(other) == old(self).registered_by_name.value_of(other),
            r is Err ==> r->Err_0@ == plain_error(
                INTERNAL_ERROR as int,
                already_exists_message(name@),
            ) && final(self).registered_by_name == old(self).registered_by_name && final(self).registered_by_url == old(self).registered_by_url,
    {
        let uuid = fresh_uuid();
        proof {
            assert(acp_url(uuid@).subrange(0, 4) =~= "acp:"@) by {
                reveal_strlit("acp:");
            }
            reveal_strlit("acp:");
        }
        self.register(name, uuid.as_str())
    }
}

/// `uuid::Uuid::new_v4` and the `to_string` of what it returns: a random
/// identifier as text. It differs from call to call, so nothing is claimed
/// of it.
#[verifier::external_body]
fn fresh_uuid() -> (r: String) {
    uuid::Uuid::new_v4().to_string()
}

/// A second notice of the end of one bridge session changes nothing: once
/// a session is taken out of sessions that differ from one another, it is
/// not among them, and taking it out again leaves them as they are.
pub proof fn disconnect_is_idempotent(connections: Seq<Seq<char>>, connection_id: Seq<char>)
    requires
        distinct(connections),
    ensures
        without_key(without_key(connections, connection_id), connection_id) == without_key(
            connections,
            connection_id,
        ),
        crate::text_map::find_key_from(without_key(connections, connection_id), connection_id, 0)
            == without_key(connections, connection_id).len(),
{
    without_key_twice(connections, connection_id);
}

} // verus!
