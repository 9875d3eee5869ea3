//! The loopback bridge for agents that do not speak MCP over ACP
//! themselves: which servers of a new session the conductor puts behind a
//! TCP port, how the helper process finds that port again, and what it does
//! with each line that passes through it.

use crate::acp::{listed_servers, read_mcp_servers, servers_view, with_servers, write_mcp_servers};
use crate::acp::{McpServer, McpServerView, NameValue};
use crate::capability::{has_capability, holds, mcp_acp_transport_capability};
use crate::conductor::meta_of;
use crate::error::opt_json_view;
use crate::json::{Json, JsonView};
use crate::error::{plain_error, RpcError, RpcErrorView, INTERNAL_ERROR};
use crate::text::{decimal, decimal_string, has_prefix, same_text, starts_with, trim, trimmed};
use vstd::prelude::*;

verus! {

/// A TCP port on the loopback interface, bound for one bridged server.
#[derive(Clone, Copy, Debug, PartialEq, Eq, Structural)]
pub struct McpPort {
    pub tcp_port: u16,
}

impl McpPort {
    /// The port `tcp_port`.
    pub fn new(tcp_port: u16) -> (r: McpPort)
        ensures
            r.tcp_port == tcp_port,
    {
        McpPort { tcp_port }
    }
}

/// What the conductor keeps of one bridged server.
#[derive(Debug)]
pub struct McpBridgeInfo {
    /// The `acp:` url under which a proxy offers the server.
    pub acp_url: String,
    /// The port bound for it.
    pub tcp_port: McpPort,
}

/// The bridges of a conductor, at most one for each `acp:` url.
#[derive(Debug)]
pub struct McpBridger {
    pub mcp_bridges: Vec<McpBridgeInfo>,
}

/// The mathematical value of an [`McpBridgeInfo`].
pub struct BridgeView {
    pub acp_url: Seq<char>,
    pub tcp_port: McpPort,
}

/// The values of a list of bridges.
pub open spec fn bridges_view(bridges: Seq<McpBridgeInfo>) -> Seq<BridgeView> {
    Seq::new(
        bridges.len(),
        |i: int| BridgeView { acp_url: bridges[i].acp_url@, tcp_port: bridges[i].tcp_port },
    )
}

/// The place of the first bridge at or after `start` that is for `acp_url`,
/// or the number of bridges.
pub open spec fn find_bridge_from(bridges: Seq<BridgeView>, acp_url: Seq<char>, start: int) -> int
    decreases bridges.len() - start,
{
    if start < 0 || start >= bridges.len() {
        bridges.len() as int
    } else if bridges[start].acp_url == acp_url {
        start
    } else {
        find_bridge_from(bridges, acp_url, start + 1)
    }
}

/// The bridges with `tcp_port` recorded for `acp_url`: in the place of the
/// bridge that was for this url, or at the end.
pub open spec fn with_bridge(bridges: Seq<BridgeView>, acp_url: Seq<char>, tcp_port: McpPort) -> Seq<
    BridgeView,
> {
    let at = find_bridge_from(bridges, acp_url, 0);
    if at < bridges.len() {
        bridges.update(at, BridgeView { acp_url, tcp_port })
    } else {
        bridges.push(BridgeView { acp_url, tcp_port })
    }
}

/// The scheme by which a proxy names a server that it offers over ACP.
pub open spec fn acp_scheme() -> Seq<char> {
    "acp:"@
}

/// Whether a server needs a bridge: it is reached over HTTP at an `acp:`
/// url.
pub open spec fn is_bridged(server: McpServerView) -> bool {
    server is Http && has_prefix(server->Http_url, acp_scheme())
}

/// Whether a server cannot be bridged: it needs a bridge and carries
/// headers, which a bridge has no place for.
pub open spec fn is_unbridgeable(server: McpServerView) -> bool {
    is_bridged(server) && server->Http_headers.len() > 0
}

/// The server that stands for a bridged one: the helper process, told the
/// port, in place of the url.
pub open spec fn bridged_through(server: McpServerView, port: McpPort) -> McpServerView {
    McpServerView::Stdio {
        name: server->Http_name,
        command: "conductor"@,
        args: seq!["mcp"@, decimal(port.tcp_port as nat)],
        env: Seq::empty(),
    }
}

/// The port bound for `acp_url` among the first `n` bridges: that of the
/// first bridge with this url.
pub open spec fn port_among(bridges: Seq<McpBridgeInfo>, acp_url: Seq<char>, n: int) -> Option<
    McpPort,
>
    decreases n,
{
    if n <= 0 || n > bridges.len() {
        None
    } else {
        match port_among(bridges, acp_url, n - 1) {
            Some(p) => Some(p),
            None => if bridges[n - 1].acp_url@ == acp_url {
                Some(bridges[n - 1].tcp_port)
            } else {
                None
            },
        }
    }
}

/// How many of the first `n` servers need a bridge.
pub open spec fn bridged_among(servers: Seq<McpServerView>, n: int) -> nat
    decreases n,
{
    if n <= 0 || n > servers.len() {
        0
    } else if is_bridged(servers[n - 1]) {
        bridged_among(servers, n - 1) + 1
    } else {
        bridged_among(servers, n - 1)
    }
}

/// Whether one of the first `n` servers cannot be bridged.
pub open spec fn unbridgeable_among(servers: Seq<McpServerView>, n: int) -> bool {
    exists|i: int| 0 <= i < n && i < servers.len() && is_unbridgeable(#[trigger] servers[i])
}

/// The servers as an agent without native transport sees them: each bridged
/// server replaced by the helper on the next of `ports`, the others as they
/// were.
pub open spec fn rewritten(servers: Seq<McpServerView>, ports: Seq<McpPort>) -> Seq<McpServerView> {
    Seq::new(
        servers.len(),
        |i: int|
            if is_bridged(servers[i]) {
                bridged_through(servers[i], ports[bridged_among(servers, i) as int])
            } else {
                servers[i]
            },
    )
}

/// The bridges once the first `n` servers are gone through: each server
/// that needs a bridge has the next of `ports` recorded for its url.
pub open spec fn recorded(
    bridges: Seq<BridgeView>,
    servers: Seq<McpServerView>,
    ports: Seq<McpPort>,
    n: int,
) -> Seq<BridgeView>
    decreases n,
{
    if n <= 0 || n > servers.len() {
        bridges
    } else if is_bridged(servers[n - 1]) {
        with_bridge(
            recorded(bridges, servers, ports, n - 1),
            servers[n - 1]->Http_url,
            ports[bridged_among(servers, n - 1) as int],
        )
    } else {
        recorded(bridges, servers, ports, n - 1)
    }
}

/// What the conductor decides for one server before any port is bound.
#[derive(Clone, Copy, Debug, PartialEq, Eq, Structural)]
pub enum BridgeNeed {
    /// The server is passed on as it is.
    Untouched,
    /// A port must be bound, and the server rewritten to name it.
    Bridge,
    /// The server carries headers: the session fails with an internal error.
    Refused,
}

/// The decision for one server.
pub open spec fn need_of(server: McpServerView) -> BridgeNeed {
    if !is_bridged(server) {
        BridgeNeed::Untouched
    } else if server->Http_headers.len() > 0 {
        BridgeNeed::Refused
    } else {
        BridgeNeed::Bridge
    }
}

impl McpBridger {
    /// A conductor's bridges, none yet.
    pub fn new() -> (r: McpBridger)
        ensures
            r.mcp_bridges@.len() == 0,
    {
        McpBridger { mcp_bridges: Vec::new() }
    }

    /// The port bound for `acp_url`, if one was.
    pub open spec fn port_of(&self, acp_url: Seq<char>) -> Option<McpPort> {
        port_among(self.mcp_bridges@, acp_url, self.mcp_bridges@.len() as int)
    }

    /// The port bound for `acp_url`, if one was.
    pub fn lookup(&self, acp_url: &str) -> (r: Option<McpPort>)
        ensures
            r == self.port_of(acp_url@),
    {
        let mut i: usize = 0;
        while i < self.mcp_bridges.len()
            invariant
                i <= self.mcp_bridges.len(),
                port_among(self.mcp_bridges@, acp_url@, i as int) is None,
            decreases self.mcp_bridges.len() - i,
        {
            if same_text(self.mcp_bridges[i].acp_url.as_str(), acp_url) {
                let port = self.mcp_bridges[i].tcp_port;
                proof {
                    found_port_stays(self.mcp_bridges@, acp_url@, i + 1, self.mcp_bridges@.len() as int);
                }
                return Some(port);
            }
            i += 1;
        }
        None
    }

    /// What one server of a new session needs before it reaches an agent
    /// that has no native transport.
    pub fn needs_bridge(server: &McpServer) -> (r: BridgeNeed)
        ensures
            r == need_of(server@),
    {
        match server {
            McpServer::Http { name: _, url, headers } => {
                if !starts_with(url.as_str(), "acp:") {
                    BridgeNeed::Untouched
                } else if headers.len() > 0 {
                    BridgeNeed::Refused
                } else {
                    BridgeNeed::Bridge
                }
            },
            _ => BridgeNeed::Untouched,
        }
    }

    /// Records `tcp_port` as the port of `acp_url`. A port recorded for the
    /// same url before gives way.
    pub fn spawn_tcp_listener(&mut self, acp_url: &str, tcp_port: McpPort)
        ensures
            final(self).port_of(acp_url@) == Some(tcp_port),
            forall|other: Seq<char>|
                other != acp_url@ ==> final(self).port_of(other) == old(self).port_of(other),
            bridges_view(final(self).mcp_bridges@) == with_bridge(
                bridges_view(old(self).mcp_bridges@),
                acp_url@,
                tcp_port,
            ),
    {
        let ghost before = self.mcp_bridges@;
        let ghost views = bridges_view(before);
        let mut i: usize = 0;
        while i < self.mcp_bridges.len()
            invariant
                i <= self.mcp_bridges.len(),
                self.mcp_bridges@ == before,
                before == old(self).mcp_bridges@,
                views == bridges_view(before),
                find_bridge_from(views, acp_url@, 0) == find_bridge_from(views, acp_url@, i as int),
                port_among(before, acp_url@, i as int) is None,
            decreases self.mcp_bridges.len() - i,
        {
            if same_text(self.mcp_bridges[i].acp_url.as_str(), acp_url) {
                self.mcp_bridges.set(
                    i,
                    McpBridgeInfo { acp_url: String::from_str(acp_url), tcp_port },
                );
                proof {
                    let after = self.mcp_bridges@;
                    assert(bridges_view(after) =~= views.update(
                        i as int,
                        BridgeView { acp_url: acp_url@, tcp_port },
                    ));
                    same_prefix_same_port(before, after, acp_url@, i as int);
                    found_port_stays(after, acp_url@, i + 1, after.len() as int);
                    assert forall|other: Seq<char>| other != acp_url@ implies self.port_of(other)
                        == port_among(before, other, before.len() as int) by {
                        replaced_url_keeps_others(before, after, acp_url@, other, i as int, before.len() as int);
                    }
                }
                return ;
            }
            i += 1;
        }
        self.mcp_bridges.push(McpBridgeInfo { acp_url: String::from_str(acp_url), tcp_port });
        proof {
            let after = self.mcp_bridges@;
            assert(bridges_view(after) =~= views.push(BridgeView { acp_url: acp_url@, tcp_port }));
            same_prefix_same_port(before, after, acp_url@, before.len() as int);
            assert forall|other: Seq<char>| other != acp_url@ implies self.port_of(other)
                == port_among(before, other, before.len() as int) by {
                same_prefix_same_port(before, after, other, before.len() as int);
            }
        }
    }

    /// Rewrites one server that needs a bridge to the helper on `tcp_port`,
    /// and records the port for the server's url. A server that needs none,
    /// or that carries headers, is left as it is and nothing is recorded.
    pub fn transform_mcp_servers(&mut self, mcp_server: &mut McpServer, tcp_port: McpPort) -> (r:
        Result<(), RpcError>)
        ensures
            match r {
                Ok(()) => need_of(old(mcp_server)@) != BridgeNeed::Refused,
                Err(e) => need_of(old(mcp_server)@) == BridgeNeed::Refused && e@ == plain_error(
                    INTERNAL_ERROR as int,
                    "Internal error"@,
                ),
            },
            need_of(old(mcp_server)@) == BridgeNeed::Bridge ==> {
                &&& final(mcp_server)@ == bridged_through(old(mcp_server)@, tcp_port)
                &&& bridges_view(final(self).mcp_bridges@) == with_bridge(
                    bridges_view(old(self).mcp_bridges@),
                    old(mcp_server)@->Http_url,
                    tcp_port,
                )
                &&& final(self).port_of(old(mcp_server)@->Http_url) == Some(tcp_port)
                &&& forall|other: Seq<char>|
                    other != old(mcp_server)@->Http_url ==> final(self).port_of(other) == old(self).port_of(other)
            },
            need_of(old(mcp_server)@) != BridgeNeed::Bridge ==> {
                &&& final(mcp_server)@ == old(mcp_server)@
                &&& final(self).mcp_bridges@ == old(self).mcp_bridges@
            },
    {
        match Self::needs_bridge(mcp_server) {
            BridgeNeed::Untouched => Ok(()),
            BridgeNeed::Refused => Err(RpcError::internal_error()),
            BridgeNeed::Bridge => {
                let transformed = match &*mcp_server {
                    McpServer::Http { name, url, headers: _ } => {
                        self.spawn_tcp_listener(url.as_str(), tcp_port);
                        stdio_helper(name.as_str(), tcp_port)
                    },
                    _ => stdio_helper("", tcp_port),
                };
                *mcp_server = transformed;
                Ok(())
            },
        }
    }

    /// The servers of a new session as they reach the agent. For an agent
    /// with native transport nothing changes. For any other, each server at
    /// an `acp:` url is replaced by the helper on the next of `ports`, and
    /// its port recorded; the session fails, with nothing changed, where
    /// such a server carries headers or the ports run out.
    pub fn bridge_session_servers(
        &mut self,
        mcp_servers: &mut Vec<McpServer>,
        ports: &Vec<McpPort>,
        native_transport: bool,
    ) -> (r: Result<(), RpcError>)
        ensures
            r is Ok <==> native_transport || (!unbridgeable_among(
                servers_view(old(mcp_servers)@),
                old(mcp_servers)@.len() as int,
            ) && bridged_among(servers_view(old(mcp_servers)@), old(mcp_servers)@.len() as int)
                <= ports@.len()),
            r is Err ==> r->Err_0@ == plain_error(INTERNAL_ERROR as int, "Internal error"@),
            r is Err || native_transport ==> final(mcp_servers)@ == old(mcp_servers)@ && final(self).mcp_bridges@ == old(self).mcp_bridges@,
            r is Ok && !native_transport ==> {
                &&& servers_view(final(mcp_servers)@) == rewritten(
                    servers_view(old(mcp_servers)@),
                    ports@,
                )
                &&& bridges_view(final(self).mcp_bridges@) == recorded(
                    bridges_view(old(self).mcp_bridges@),
                    servers_view(old(mcp_servers)@),
                    ports@,
                    old(mcp_servers)@.len() as int,
                )
            },
    {
        if native_transport {
            return Ok(());
        }
        let ghost orig = servers_view(mcp_servers@);
        let n = mcp_servers.len();
        let mut needed: usize = 0;
        let mut i: usize = 0;
        while i < n
            invariant
                i <= n,
                n == mcp_servers@.len(),
                orig == servers_view(mcp_servers@),
                mcp_servers@ == old(mcp_servers)@,
                self.mcp_bridges@ == old(self).mcp_bridges@,
                !native_transport,
                needed == bridged_among(orig, i as int),
                needed <= i,
                forall|j: int| 0 <= j < i ==> !is_unbridgeable(#[trigger] orig[j]),
            decreases n - i,
        {
            match Self::needs_bridge(&mcp_servers[i]) {
                BridgeNeed::Untouched => {},
                BridgeNeed::Bridge => {
                    needed += 1;
                },
                BridgeNeed::Refused => {
                    proof {
                        assert(is_unbridgeable(orig[i as int]));
                    }
                    return Err(RpcError::internal_error());
                },
            }
            i += 1;
        }
        if needed > ports.len() {
            return Err(RpcError::internal_error());
        }
        let mut used: usize = 0;
        let mut i: usize = 0;
        while i < n
            invariant
                i <= n,
                n == mcp_servers@.len(),
                n == orig.len(),
                orig == servers_view(old(mcp_servers)@),
                !native_transport,
                needed == bridged_among(orig, n as int),
                needed <= ports@.len(),
                used == bridged_among(orig, i as int),
                forall|j: int| 0 <= j < i ==> (#[trigger] mcp_servers@[j])@ == rewritten(orig, ports@)[j],
                forall|j: int| i <= j < n ==> (#[trigger] mcp_servers@[j])@ == orig[j],
                forall|j: int| 0 <= j < n ==> !is_unbridgeable(#[trigger] orig[j]),
                bridges_view(self.mcp_bridges@) == recorded(
                    bridges_view(old(self).mcp_bridges@),
                    orig,
                    ports@,
                    i as int,
                ),
            decreases n - i,
        {
            proof {
                bridged_among_grows(orig, i + 1, n as int);
            }
            let transformed = match &mcp_servers[i] {
                McpServer::Http { name, url, headers: _ } => {
                    if starts_with(url.as_str(), "acp:") {
                        let port = ports[used];
                        self.spawn_tcp_listener(url.as_str(), port);
                        proof {
                            assert(orig[i as int]->Http_url == url@);
                        }
                        Some(stdio_helper(name.as_str(), port))
                    } else {
                        None
                    }
                },
                _ => None,
            };
            match transformed {
                Some(server) => {
                    mcp_servers.set(i, server);
                    used += 1;
                },
                None => {},
            }
            i += 1;
        }
        proof {
            assert(servers_view(mcp_servers@) =~= rewritten(orig, ports@));
        }
        Ok(())
    }
}

/// The helper process as an MCP server on standard streams: the command
/// `conductor` with the arguments `mcp` and the port.
pub fn stdio_helper(name: &str, tcp_port: McpPort) -> (r: McpServer)
    ensures
        r@ == (McpServerView::Stdio {
            name: name@,
            command: "conductor"@,
            args: seq!["mcp"@, decimal(tcp_port.tcp_port as nat)],
            env: Seq::empty(),
        }),
{
    let mut args: Vec<String> = Vec::new();
    args.push(String::from_str("mcp"));
    args.push(decimal_string(tcp_port.tcp_port as u64));
    let env: Vec<NameValue> = Vec::new();
    proof {
        assert(crate::text::texts(args@) =~= seq!["mcp"@, decimal(tcp_port.tcp_port as nat)]);
        assert(crate::acp::pairs_view(env@) =~= Seq::empty());
    }
    McpServer::Stdio {
        name: String::from_str(name),
        command: String::from_str("conductor"),
        args,
        env,
    }
}

/// Among more servers no fewer need a bridge.
pub proof fn bridged_among_grows(servers: Seq<McpServerView>, n: int, m: int)
    requires
        0 <= n <= m <= servers.len(),
    ensures
        bridged_among(servers, n) <= bridged_among(servers, m),
    decreases m - n,
{
    if n < m {
        bridged_among_grows(servers, n, m - 1);
    }
}

/// A port found among the first `n` bridges is the port found among more.
pub proof fn found_port_stays(bridges: Seq<McpBridgeInfo>, acp_url: Seq<char>, n: int, m: int)
    requires
        0 <= n <= m <= bridges.len(),
        port_among(bridges, acp_url, n) is Some,
    ensures
        port_among(bridges, acp_url, m) == port_among(bridges, acp_url, n),
    decreases m - n,
{
    if n < m {
        found_port_stays(bridges, acp_url, n, m - 1);
    }
}

/// Two lists of bridges that agree on their first `n` entries bind the same
/// port among those.
pub proof fn same_prefix_same_port(
    a: Seq<McpBridgeInfo>,
    b: Seq<McpBridgeInfo>,
    acp_url: Seq<char>,
    n: int,
)
    requires
        0 <= n <= a.len(),
        n <= b.len(),
        forall|k: int| 0 <= k < n ==> a[k] == b[k],
    ensures
        port_among(a, acp_url, n) == port_among(b, acp_url, n),
    decreases n,
{
    if n > 0 {
        same_prefix_same_port(a, b, acp_url, n - 1);
    }
}

/// Replacing the bridge of one url by another bridge of that url leaves the
/// ports of all other urls as they were.
pub proof fn replaced_url_keeps_others(
    a: Seq<McpBridgeInfo>,
    b: Seq<McpBridgeInfo>,
    acp_url: Seq<char>,
    other: Seq<char>,
    at: int,
    n: int,
)
    requires
        0 <= at < a.len(),
        a.len() == b.len(),
        0 <= n <= a.len(),
        a[at].acp_url@ == acp_url,
        b[at].acp_url@ == acp_url,
        other != acp_url,
        forall|k: int| 0 <= k < a.len() && k != at ==> a[k] == b[k],
    ensures
        port_among(a, other, n) == port_among(b, other, n),
    decreases n,
{
    if n > 0 {
        replaced_url_keeps_others(a, b, acp_url, other, at, n - 1);
    }
}

/// How many times the helper tries to reach the conductor's port.
pub const MAX_ATTEMPTS: u32 = 10;

/// The pause after the first failed attempt, in milliseconds.
pub const INITIAL_DELAY_MS: u64 = 50;

/// The longest pause between two attempts, in milliseconds.
pub const MAX_DELAY_MS: u64 = 1000;

/// The pause after the attempt of the given number failed: 50 ms after the
/// first, then twice the pause before, never more than a second.
pub open spec fn delay_after(attempt: nat) -> nat
    decreases attempt,
{
    if attempt <= 1 {
        50
    } else if 2 * delay_after((attempt - 1) as nat) < 1000 {
        2 * delay_after((attempt - 1) as nat)
    } else {
        1000
    }
}

/// The time that the helper has paused in all before the attempt of the
/// given number.
pub open spec fn waited_before(attempt: nat) -> nat
    decreases attempt,
{
    if attempt <= 1 {
        0
    } else {
        waited_before((attempt - 1) as nat) + delay_after((attempt - 1) as nat)
    }
}

/// Where the helper stands between two attempts to connect.
#[derive(Clone, Copy, Debug, PartialEq, Eq, Structural)]
pub struct RetryState {
    /// The number of the attempt that is made next, from 1.
    pub attempt: u32,
    /// The pause that follows if that attempt fails.
    pub retry_delay_ms: u64,
}

/// What the helper does after an attempt to connect.
#[derive(Clone, Copy, Debug, PartialEq, Eq, Structural)]
pub enum RetryStep {
    /// The attempt of this number succeeded.
    Connected { attempt: u32 },
    /// Pause this long, then try again.
    RetryAfter { delay_ms: u64 },
    /// The last attempt failed: give up.
    GiveUp { attempts: u32 },
}

impl RetryState {
    /// Whether the state is one that the schedule passes through.
    pub open spec fn wf(&self) -> bool {
        1 <= self.attempt <= MAX_ATTEMPTS && self.retry_delay_ms == delay_after(self.attempt as nat)
    }

    /// The state before the first attempt.
    pub fn new() -> (r: RetryState)
        ensures
            r.wf(),
            r.attempt == 1,
            r.retry_delay_ms == INITIAL_DELAY_MS,
    {
        RetryState { attempt: 1, retry_delay_ms: INITIAL_DELAY_MS }
    }

    /// The step after the current attempt, which connected or failed. A
    /// failure before the last attempt pauses and moves to the next attempt
    /// with the pause doubled, up to a second; a failure of the last attempt
    /// gives up.
    pub fn connect_with_retry(&mut self, connected: bool) -> (r: RetryStep)
        requires
            old(self).wf(),
        ensures
            final(self).wf(),
            r == if connected {
                RetryStep::Connected { attempt: old(self).attempt }
            } else if old(self).attempt < MAX_ATTEMPTS {
                RetryStep::RetryAfter { delay_ms: delay_after(old(self).attempt as nat) as u64 }
            } else {
                RetryStep::GiveUp { attempts: MAX_ATTEMPTS }
            },
            final(self).attempt == if !connected && old(self).attempt < MAX_ATTEMPTS {
                (old(self).attempt + 1) as u32
            } else {
                old(self).attempt
            },
    {
        proof {
            delay_is_bounded(self.attempt as nat);
        }
        if connected {
            RetryStep::Connected { attempt: self.attempt }
        } else if self.attempt < MAX_ATTEMPTS {
            let delay_ms = self.retry_delay_ms;
            self.attempt = self.attempt + 1;
            self.retry_delay_ms = if delay_ms * 2 < MAX_DELAY_MS {
                delay_ms * 2
            } else {
                MAX_DELAY_MS
            };
            RetryStep::RetryAfter { delay_ms }
        } else {
            RetryStep::GiveUp { attempts: MAX_ATTEMPTS }
        }
    }
}

/// No pause is shorter than 50 ms or longer than a second.
pub proof fn delay_is_bounded(attempt: nat)
    ensures
        50 <= delay_after(attempt) <= 1000,
    decreases attempt,
{
    if attempt > 1 {
        delay_is_bounded((attempt - 1) as nat);
    }
}

/// The schedule of pauses: 50, 100, 200, 400 and 800 ms, then a second
/// each. Before its fifth attempt the helper has paused for 750 ms, and
/// before its tenth and last for 5550 ms.
pub proof fn retry_schedule()
    ensures
        delay_after(1) == 50,
        delay_after(2) == 100,
        delay_after(3) == 200,
        delay_after(4) == 400,
        delay_after(5) == 800,
        delay_after(6) == 1000,
        delay_after(9) == 1000,
        waited_before(5) == 750,
        waited_before(10) == 5550,
{
    reveal_with_fuel(delay_after, 10);
    reveal_with_fuel(waited_before, 11);
}

/// A port that is bound no later than half a second after the helper
/// starts is bound before one of the helper's ten attempts, whatever time
/// the attempts themselves take.
pub proof fn retry_outlasts_half_a_second(bound_at_ms: nat)
    requires
        bound_at_ms <= 500,
    ensures
        exists|attempt: nat|
            1 <= attempt <= MAX_ATTEMPTS && bound_at_ms <= #[trigger] waited_before(attempt),
{
    retry_schedule();
    assert(bound_at_ms <= waited_before(5));
}

/// The address that the helper connects to.
pub fn loopback_address(port: u16) -> (r: String)
    ensures
        r@ == "127.0.0.1:"@ + decimal(port as nat),
{
    let mut address = String::from_str("127.0.0.1:");
    let digits = decimal_string(port as u64);
    address.append(digits.as_str());
    address
}

/// What the helper reports when it gives up.
pub fn connect_failure_message(port: u16) -> (r: String)
    ensures
        r@ == "Failed to connect to localhost:"@ + decimal(port as nat) + " after "@ + decimal(
            MAX_ATTEMPTS as nat,
        ) + " attempts"@,
{
    let mut message = String::from_str("Failed to connect to localhost:");
    let digits = decimal_string(port as u64);
    message.append(digits.as_str());
    message.append(" after ");
    let attempts = decimal_string(MAX_ATTEMPTS as u64);
    message.append(attempts.as_str());
    message.append(" attempts");
    message
}

/// Whether `text` is one JSON value, as `serde_json` reads it.
pub uninterp spec fn json_text(text: Seq<char>) -> bool;

/// `serde_json::from_str` at the type `serde_json::Value`: whether the text
/// parses as one JSON value. The answer depends on the text alone; the
/// library gives it the name [`json_text`] and claims nothing more of it.
#[verifier::external_body]
fn is_json(text: &str) -> (r: bool)
    ensures
        r == json_text(text@),
{
    serde_json::from_str::<serde_json::Value>(text).is_ok()
}

/// One end of the helper: its standard streams, or its socket.
#[derive(Clone, Copy, Debug, PartialEq, Eq, Structural)]
pub enum BridgeSide {
    Stdio,
    Tcp,
}

impl BridgeSide {
    /// The other end.
    pub open spec fn opposite(self) -> BridgeSide {
        match self {
            BridgeSide::Stdio => BridgeSide::Tcp,
            BridgeSide::Tcp => BridgeSide::Stdio,
        }
    }

    /// The end that a line read from this one is written to.
    pub fn other(self) -> (r: BridgeSide)
        ensures
            r == self.opposite(),
    {
        match self {
            BridgeSide::Stdio => BridgeSide::Tcp,
            BridgeSide::Tcp => BridgeSide::Stdio,
        }
    }
}

/// What the helper does with what it read from one end.
#[derive(Debug)]
pub enum RelayStep {
    /// That end closed: the helper ends.
    Shutdown { closed: BridgeSide },
    /// Write the line to the other end, as it was read.
    Forward { to: BridgeSide, line: String },
    /// The line is no JSON: the helper fails.
    InvalidJson { from: BridgeSide },
}

/// The mathematical value of a [`RelayStep`].
pub enum RelayStepView {
    Shutdown { closed: BridgeSide },
    Forward { to: BridgeSide, line: Seq<char> },
    InvalidJson { from: BridgeSide },
}

impl View for RelayStep {
    type V = RelayStepView;

    open spec fn view(&self) -> RelayStepView {
        match self {
            RelayStep::Shutdown { closed } => RelayStepView::Shutdown { closed: *closed },
            RelayStep::Forward { to, line } => RelayStepView::Forward { to: *to, line: line@ },
            RelayStep::InvalidJson { from } => RelayStepView::InvalidJson { from: *from },
        }
    }
}

/// The helper's rule for one read, given whether the line without its
/// surrounding white space is JSON: a read of nothing ends the helper, a
/// line that is JSON goes to the other end unchanged, any other line fails
/// the helper.
pub open spec fn relayed_line(from: BridgeSide, bytes_read: usize, line: Seq<char>, valid: bool) -> RelayStepView {
    if bytes_read == 0 {
        RelayStepView::Shutdown { closed: from }
    } else if valid {
        RelayStepView::Forward { to: from.opposite(), line }
    } else {
        RelayStepView::InvalidJson { from }
    }
}

/// The helper's rule for one read, with the validity of the line as an
/// argument.
pub fn relay_checked_line(from: BridgeSide, bytes_read: usize, line: String, valid: bool) -> (r:
    RelayStep)
    ensures
        r@ == relayed_line(from, bytes_read, line@, valid),
{
    if bytes_read == 0 {
        RelayStep::Shutdown { closed: from }
    } else if valid {
        RelayStep::Forward { to: from.other(), line }
    } else {
        RelayStep::InvalidJson { from }
    }
}

/// What the helper does with `line`, read from `from` in a read that
/// brought `bytes_read` bytes.
pub fn run_mcp_bridge(from: BridgeSide, bytes_read: usize, line: String) -> (r: RelayStep)
    ensures
        r@ == relayed_line(from, bytes_read, line@, json_text(trimmed(line@))),
{
    let valid = is_json(trim(line.as_str()));
    relay_checked_line(from, bytes_read, line, valid)
}

/// Whether an agent speaks MCP over ACP itself, by the result of its
/// `initialize`: its metadata holds the capability for that.
pub fn speaks_mcp_over_acp(initialize_result: &Json) -> (r: bool)
    ensures
        r == holds(meta_of(Some(initialize_result@)), mcp_acp_transport_capability()),
{
    let meta = match initialize_result.get("_meta") {
        Some(m) => Some(m.clone()),
        None => None,
    };
    has_capability(&meta, "mcp_acp_transport")
}

/// What the parameters of a new session become on their way to the agent.
pub open spec fn bridged_session(
    params: Option<JsonView>,
    ports: Seq<McpPort>,
    native_transport: bool,
) -> Result<Option<JsonView>, RpcErrorView> {
    if native_transport {
        Ok(params)
    } else {
        match listed_servers(params) {
            None => Err(plain_error(crate::error::INVALID_PARAMS as int, "Invalid params"@)),
            Some(servers) => if unbridgeable_among(servers, servers.len() as int) || bridged_among(
                servers,
                servers.len() as int,
            ) > ports.len() {
                Err(plain_error(INTERNAL_ERROR as int, "Internal error"@))
            } else {
                Ok(Some(with_servers(params, rewritten(servers, ports))))
            },
        }
    }
}

impl McpBridger {
    /// The parameters of a new session as they reach the agent: unchanged
    /// for an agent with native transport; for any other, with each server
    /// at an `acp:` url replaced by the helper on the next of `ports`, and
    /// all else in the parameters as it was.
    pub fn bridge_new_session(
        &mut self,
        params: Option<Json>,
        ports: &Vec<McpPort>,
        native_transport: bool,
    ) -> (r: Result<Option<Json>, RpcError>)
        ensures
            match r {
                Ok(p) => {
                    &&& bridged_session(opt_json_view(params), ports@, native_transport) == Ok::<
                        Option<JsonView>,
                        RpcErrorView,
                    >(opt_json_view(p))
                    &&& bridges_view(final(self).mcp_bridges@) == if native_transport {
                        bridges_view(old(self).mcp_bridges@)
                    } else {
                        recorded(
                            bridges_view(old(self).mcp_bridges@),
                            listed_servers(opt_json_view(params))->Some_0,
                            ports@,
                            listed_servers(opt_json_view(params))->Some_0.len() as int,
                        )
                    }
                },
                Err(e) => bridged_session(opt_json_view(params), ports@, native_transport) == Err::<
                    Option<JsonView>,
                    RpcErrorView,
                >(e@) && final(self).mcp_bridges@ == old(self).mcp_bridges@,
            },
    {
        if native_transport {
            return Ok(params);
        }
        let mut servers = match read_mcp_servers(&params) {
            Ok(servers) => servers,
            Err(e) => {
                return Err(e);
            },
        };
        match self.bridge_session_servers(&mut servers, ports, false) {
            Ok(()) => Ok(Some(write_mcp_servers(params, &servers))),
            Err(e) => Err(e),
        }
    }
}

} // verus!
