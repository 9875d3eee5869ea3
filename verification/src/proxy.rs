//! The Symposium proxy: which component proxies make up its chain.

use crate::acp::{McpServer, McpServerView};
use crate::text::{clone_texts, opt_text, same_text, starts_with, texts, trim, trimmed};
use vstd::prelude::*;

verus! {

/// The names of the proxies that can be configured, as one text.
pub open spec fn known_proxy_list() -> Seq<char> {
    "sparkle, ferris, cargo"@
}

/// Whether `name` is the name of a proxy that can be configured.
pub open spec fn is_known_proxy(name: Seq<char>) -> bool {
    name == "sparkle"@ || name == "ferris"@ || name == "cargo"@
}

/// The names of the proxies that can be configured, in the order of the
/// default chain.
pub fn known_proxies() -> (r: Vec<String>)
    ensures
        texts(r@) == seq!["sparkle"@, "ferris"@, "cargo"@],
{
    let mut names: Vec<String> = Vec::new();
    names.push(String::from_str("sparkle"));
    names.push(String::from_str("ferris"));
    names.push(String::from_str("cargo"));
    proof {
        assert(texts(names@) =~= seq!["sparkle"@, "ferris"@, "cargo"@]);
    }
    names
}

/// Whether `name` is the name of a proxy that can be configured.
pub fn is_known(name: &str) -> (r: bool)
    ensures
        r == is_known_proxy(name@),
{
    same_text(name, "sparkle") || same_text(name, "ferris") || same_text(name, "cargo")
}

/// A proxy of the chain, by its kind.
#[derive(Clone, Copy, Debug, PartialEq, Eq, Structural)]
pub enum ProxyKind {
    Sparkle,
    /// The Rust helper, with its tools switched on or off.
    Ferris { crate_sources: bool, rust_researcher: bool },
    Cargo,
}

/// The proxy that a name stands for; nothing for a name that is not known.
pub open spec fn proxy_of(name: Seq<char>) -> Option<ProxyKind> {
    if name == "sparkle"@ {
        Some(ProxyKind::Sparkle)
    } else if name == "ferris"@ {
        Some(ProxyKind::Ferris { crate_sources: true, rust_researcher: true })
    } else if name == "cargo"@ {
        Some(ProxyKind::Cargo)
    } else {
        None
    }
}

/// The proxies that the first `n` names stand for, in order; names that
/// are not known are passed over.
pub open spec fn proxies_of(names: Seq<Seq<char>>, n: int) -> Seq<ProxyKind>
    decreases n,
{
    if n <= 0 || n > names.len() {
        Seq::empty()
    } else {
        match proxy_of(names[n - 1]) {
            Some(p) => proxies_of(names, n - 1).push(p),
            None => proxies_of(names, n - 1),
        }
    }
}

/// What the proxy chain is made of.
#[derive(Debug)]
pub struct SymposiumConfig {
    /// The names of the proxies, in chain order.
    pub proxy_names: Vec<String>,
    /// The directory that traces are written to, if any.
    pub trace_dir: Option<String>,
}

impl SymposiumConfig {
    /// The default chain: all proxies that are known.
    pub fn new() -> (r: Self)
        ensures
            texts(r.proxy_names@) == seq!["sparkle"@, "ferris"@, "cargo"@],
            r.trace_dir is None,
    {
        SymposiumConfig { proxy_names: known_proxies(), trace_dir: None }
    }

    /// The chain of the proxies with these names.
    pub fn from_proxy_names(names: &Vec<String>) -> (r: Self)
        ensures
            r.proxy_names@ == names@,
            r.trace_dir is None,
    {
        SymposiumConfig { proxy_names: clone_texts(names), trace_dir: None }
    }

    /// The proxies of the chain, in order.
    pub fn build_proxies(&self) -> (r: Vec<ProxyKind>)
        ensures
            r@ == proxies_of(texts(self.proxy_names@), self.proxy_names@.len() as int),
    {
        let ghost names = texts(self.proxy_names@);
        let mut proxies: Vec<ProxyKind> = Vec::new();
        let mut i: usize = 0;
        while i < self.proxy_names.len()
            invariant
                i <= self.proxy_names.len(),
                names == texts(self.proxy_names@),
                proxies@ == proxies_of(names, i as int),
            decreases self.proxy_names.len() - i,
        {
            let name = self.proxy_names[i].as_str();
            if same_text(name, "sparkle") {
                proxies.push(ProxyKind::Sparkle);
            } else if same_text(name, "ferris") {
                proxies.push(ProxyKind::Ferris { crate_sources: true, rust_researcher: true });
            } else if same_text(name, "cargo") {
                proxies.push(ProxyKind::Cargo);
            }
            i += 1;
        }
        proxies
    }
}

/// Symposium as a proxy between an editor and an agent.
#[derive(Debug)]
pub struct Symposium {
    pub config: SymposiumConfig,
}

/// What is said of a name that is no proxy's.
pub open spec fn unknown_proxy_message(name: Seq<char>) -> Seq<char> {
    "Unknown proxy name: '"@ + name + "'. Known proxies: "@ + known_proxy_list()
}

/// The place of the first among the first `n` names that is not known, or
/// `n` where all are known.
pub open spec fn first_unknown(names: Seq<Seq<char>>, n: int) -> int
    decreases n,
{
    if n <= 0 || n > names.len() {
        0
    } else if first_unknown(names, n - 1) < n - 1 {
        first_unknown(names, n - 1)
    } else if is_known_proxy(names[n - 1]) {
        n
    } else {
        n - 1
    }
}

/// An unknown name among the first `n` is still the first among more.
pub proof fn first_unknown_stays(names: Seq<Seq<char>>, n: int, m: int)
    requires
        0 <= n <= m <= names.len(),
        first_unknown(names, n) < n,
    ensures
        first_unknown(names, m) == first_unknown(names, n),
    decreases m - n,
{
    if n < m {
        first_unknown_stays(names, n, m - 1);
    }
}

impl Symposium {
    /// Symposium with the default chain.
    pub fn new() -> (r: Self)
        ensures
            texts(r.config.proxy_names@) == seq!["sparkle"@, "ferris"@, "cargo"@],
            r.config.trace_dir is None,
    {
        Symposium { config: SymposiumConfig::new() }
    }

    /// Symposium with the chain of these proxies, in this order. The first
    /// name that is no proxy's is refused.
    pub fn from_proxy_names(names: &Vec<String>) -> (r: Result<Self, String>)
        ensures
            match r {
                Ok(s) => {
                    &&& first_unknown(texts(names@), names@.len() as int) == names@.len()
                    &&& s.config.proxy_names@ == names@
                    &&& s.config.trace_dir is None
                },
                Err(message) => {
                    &&& first_unknown(texts(names@), names@.len() as int) < names@.len()
                    &&& message@ == unknown_proxy_message(
                        texts(names@)[first_unknown(texts(names@), names@.len() as int)],
                    )
                },
            },
    {
        let ghost all = texts(names@);
        let mut i: usize = 0;
        while i < names.len()
            invariant
                i <= names.len(),
                all == texts(names@),
                first_unknown(all, i as int) == i,
            decreases names.len() - i,
        {
            if !is_known(names[i].as_str()) {
                proof {
                    first_unknown_stays(all, i + 1, all.len() as int);
                }
                let mut message = String::from_str("Unknown proxy name: '");
                message.append(names[i].as_str());
                message.append("'. Known proxies: ");
                message.append("sparkle, ferris, cargo");
                return Err(message);
            }
            i += 1;
        }
        Ok(Symposium { config: SymposiumConfig::from_proxy_names(names) })
    }

    /// Symposium with traces written to `dir`.
    pub fn trace_dir(self, dir: &str) -> (r: Self)
        ensures
            r.config.proxy_names == self.config.proxy_names,
            opt_text(r.config.trace_dir) == Some(dir@),
    {
        let mut s = self;
        s.config.trace_dir = Some(String::from_str(dir));
        s
    }
}

/// The name of the trace file that is begun at `timestamp`.
pub fn trace_file_name(timestamp: &str) -> (r: String)
    ensures
        r@ == timestamp@ + ".jsons"@,
{
    let mut name = String::from_str(timestamp);
    name.append(".jsons");
    name
}

/// A proxy of a chain, as it is asked for on the command line.
#[derive(Debug)]
pub enum ProxySource {
    /// A proxy that is built in, by its name.
    Builtin(String),
    /// A proxy that runs as a server of its own.
    AcpProxy(McpServer),
}

/// The mathematical value of a [`ProxySource`].
pub enum ProxySourceView {
    Builtin(Seq<char>),
    AcpProxy(McpServerView),
}

impl View for ProxySource {
    type V = ProxySourceView;

    open spec fn view(&self) -> ProxySourceView {
        match self {
            ProxySource::Builtin(name) => ProxySourceView::Builtin(name@),
            ProxySource::AcpProxy(server) => ProxySourceView::AcpProxy(server@),
        }
    }
}

/// The values of a list of proxy sources.
pub open spec fn proxy_sources_view(v: Seq<ProxySource>) -> Seq<ProxySourceView> {
    Seq::new(v.len(), |i: int| v[i]@)
}

/// How a word of the command line asks for proxies.
#[derive(Clone, Copy, Debug, PartialEq, Eq, Structural)]
pub enum ProxyWord {
    /// The word is JSON that describes a server.
    Json,
    /// The word stands for all proxies that are built in.
    Defaults,
    /// The word names a proxy that is built in.
    Builtin,
    /// The word is none of these.
    Unknown,
}

/// How a word asks for proxies, white space around it set aside.
pub open spec fn proxy_word(word: Seq<char>) -> ProxyWord {
    let w = trimmed(word);
    if crate::text::has_prefix(w, "{"@) {
        ProxyWord::Json
    } else if w == "defaults"@ {
        ProxyWord::Defaults
    } else if is_known_proxy(w) {
        ProxyWord::Builtin
    } else {
        ProxyWord::Unknown
    }
}

/// How a word of the command line asks for proxies.
pub fn classify_proxy(word: &str) -> (r: ProxyWord)
    ensures
        r == proxy_word(word@),
{
    let w = trim(word);
    if starts_with(w, "{") {
        ProxyWord::Json
    } else if same_text(w, "defaults") {
        ProxyWord::Defaults
    } else if is_known(w) {
        ProxyWord::Builtin
    } else {
        ProxyWord::Unknown
    }
}

/// What is said of a word that asks for no proxy.
pub open spec fn unknown_word_message(word: Seq<char>) -> Seq<char> {
    "Unknown proxy name: '"@ + word + "'. Expected a known proxy ("@ + known_proxy_list()
        + ", defaults) or json."@
}

/// What is said of JSON that describes no server.
pub open spec fn bad_json_message(reason: Seq<char>) -> Seq<char> {
    "Failed to parse JSON: "@ + reason
}

/// The proxies that one word asks for. `server` is what the word gives
/// where it is read as JSON: the server it describes, or why it describes
/// none.
pub open spec fn expanded_word(word: Seq<char>, server: Result<McpServerView, Seq<char>>) -> Result<
    Seq<ProxySourceView>,
    Seq<char>,
> {
    match proxy_word(word) {
        ProxyWord::Json => match server {
            Ok(s) => Ok(seq![ProxySourceView::AcpProxy(s)]),
            Err(reason) => Err(bad_json_message(reason)),
        },
        ProxyWord::Defaults => Ok(
            seq![
                ProxySourceView::Builtin("sparkle"@),
                ProxySourceView::Builtin("ferris"@),
                ProxySourceView::Builtin("cargo"@),
            ],
        ),
        ProxyWord::Builtin => Ok(seq![ProxySourceView::Builtin(trimmed(word))]),
        ProxyWord::Unknown => Err(unknown_word_message(trimmed(word))),
    }
}

/// The value of what a word was read as.
pub open spec fn server_outcome(server: Result<McpServer, String>) -> Result<
    McpServerView,
    Seq<char>,
> {
    match server {
        Ok(s) => Ok(s@),
        Err(reason) => Err(reason@),
    }
}

/// The value of what a word expands to.
pub open spec fn expansion_view(r: Result<Vec<ProxySource>, String>) -> Result<
    Seq<ProxySourceView>,
    Seq<char>,
> {
    match r {
        Ok(v) => Ok(proxy_sources_view(v@)),
        Err(message) => Err(message@),
    }
}

/// The proxies that one word of the command line asks for: the server that
/// JSON describes, all built-in proxies for `defaults`, the built-in proxy
/// of that name, and an error for any other word.
pub fn expand_proxy(word: &str, server: Result<McpServer, String>) -> (r: Result<
    Vec<ProxySource>,
    String,
>)
    ensures
        expansion_view(r) == expanded_word(word@, server_outcome(server)),
{
    let mut out: Vec<ProxySource> = Vec::new();
    match classify_proxy(word) {
        ProxyWord::Json => match server {
            Ok(s) => {
                out.push(ProxySource::AcpProxy(s));
                proof {
                    assert(proxy_sources_view(out@) =~= seq![ProxySourceView::AcpProxy(s@)]);
                }
                Ok(out)
            },
            Err(reason) => {
                let mut message = String::from_str("Failed to parse JSON: ");
                message.append(reason.as_str());
                Err(message)
            },
        },
        ProxyWord::Defaults => {
            out.push(ProxySource::Builtin(String::from_str("sparkle")));
            out.push(ProxySource::Builtin(String::from_str("ferris")));
            out.push(ProxySource::Builtin(String::from_str("cargo")));
            proof {
                assert(proxy_sources_view(out@) =~= seq![
                    ProxySourceView::Builtin("sparkle"@),
                    ProxySourceView::Builtin("ferris"@),
                    ProxySourceView::Builtin("cargo"@),
                ]);
            }
            Ok(out)
        },
        ProxyWord::Builtin => {
            out.push(ProxySource::Builtin(String::from_str(trim(word))));
            proof {
                assert(proxy_sources_view(out@) =~= seq![ProxySourceView::Builtin(trimmed(word@))]);
            }
            Ok(out)
        },
        ProxyWord::Unknown => {
            let mut message = String::from_str("Unknown proxy name: '");
            message.append(trim(word));
            message.append("'. Expected a known proxy (");
            message.append("sparkle, ferris, cargo");
            message.append(", defaults) or json.");
            Err(message)
        },
    }
}

} // verus!
