//! The first configuration: the agent command and the proxies that a user
//! starts with, the agents that are known by name, and the short dialogue
//! that makes the first choice.

use crate::numeral::{parse_usize, unsigned_value};
use crate::paths::symposium_dir;
use crate::text::{decimal, decimal_string, texts, trim, trimmed};
use vstd::prelude::*;

verus! {

/// A proxy of the user configuration.
#[derive(Debug, PartialEq, Eq, Hash)]
pub struct ProxyEntry {
    /// The name of the proxy.
    pub name: String,
    /// Whether the proxy is enabled.
    pub enabled: bool,
}

/// The user configuration: the command of the agent, and the proxies.
#[derive(Debug, PartialEq, Eq, Hash)]
pub struct SymposiumUserConfig {
    /// The command that starts the agent, as shell words.
    pub agent: String,
    /// The proxies, in chain order.
    pub proxies: Vec<ProxyEntry>,
}

/// The mathematical value of a [`ProxyEntry`].
pub struct ProxyView {
    pub name: Seq<char>,
    pub enabled: bool,
}

/// The mathematical value of a [`SymposiumUserConfig`].
pub struct UserConfigView {
    pub agent: Seq<char>,
    pub proxies: Seq<ProxyView>,
}

impl View for ProxyEntry {
    type V = ProxyView;

    open spec fn view(&self) -> ProxyView {
        ProxyView { name: self.name@, enabled: self.enabled }
    }
}

/// The values of a list of proxies.
pub open spec fn proxies_view(v: Seq<ProxyEntry>) -> Seq<ProxyView> {
    Seq::new(v.len(), |i: int| v[i]@)
}

impl View for SymposiumUserConfig {
    type V = UserConfigView;

    open spec fn view(&self) -> UserConfigView {
        UserConfigView { agent: self.agent@, proxies: proxies_view(self.proxies@) }
    }
}

impl Clone for ProxyEntry {
    fn clone(&self) -> (r: ProxyEntry)
        ensures
            r@ == self@,
    {
        ProxyEntry { name: self.name.clone(), enabled: self.enabled }
    }
}

impl Clone for SymposiumUserConfig {
    fn clone(&self) -> (r: SymposiumUserConfig)
        ensures
            r@ == self@,
    {
        let mut proxies: Vec<ProxyEntry> = Vec::new();
        let mut i: usize = 0;
        while i < self.proxies.len()
            invariant
                i <= self.proxies.len(),
                proxies@.len() == i,
                forall|k: int| 0 <= k < i ==> (#[trigger] proxies@[k])@ == self.proxies@[k]@,
            decreases self.proxies.len() - i,
        {
            proxies.push(self.proxies[i].clone());
            i += 1;
        }
        proof {
            assert(proxies_view(proxies@) =~= proxies_view(self.proxies@));
        }
        SymposiumUserConfig { agent: self.agent.clone(), proxies }
    }
}

/// The names of the enabled among the first `n` proxies, in order.
pub open spec fn enabled_names(proxies: Seq<ProxyView>, n: int) -> Seq<Seq<char>>
    decreases n,
{
    if n <= 0 || n > proxies.len() {
        Seq::empty()
    } else if proxies[n - 1].enabled {
        enabled_names(proxies, n - 1).push(proxies[n - 1].name)
    } else {
        enabled_names(proxies, n - 1)
    }
}

/// The proxies that a new configuration starts with, all enabled.
pub open spec fn default_proxies() -> Seq<ProxyView> {
    seq![
        ProxyView { name: "sparkle"@, enabled: true },
        ProxyView { name: "ferris"@, enabled: true },
        ProxyView { name: "cargo"@, enabled: true },
    ]
}

/// The words of a command line, as `shell_words` splits it; nothing where
/// a quote is left open.
pub uninterp spec fn shell_words_of(text: Seq<char>) -> Option<Seq<Seq<char>>>;

/// The error of `shell_words::split`.
#[verifier::external_type_specification]
#[verifier::external_body]
pub struct ExParseError(shell_words::ParseError);

/// `shell_words::split`: the words of a command line by the rules of a
/// POSIX shell, or an error where a quote is left open. The outcome depends
/// on the text alone; the library gives it the name [`shell_words_of`].
#[verifier::external_body]
fn split_words(text: &str) -> (r: Result<Vec<String>, shell_words::ParseError>)
    ensures
        match r {
            Ok(words) => shell_words_of(text@) == Some(texts(words@)),
            Err(_) => shell_words_of(text@) is None,
        },
{
    shell_words::split(text)
}

/// What is said of an agent command that cannot be split.
pub open spec fn unparsed_command_message() -> Seq<char> {
    "Failed to parse agent command: missing closing quote"@
}

/// The arguments of the agent, from the outcome of splitting its command.
pub fn agent_args_of(split: Result<Vec<String>, shell_words::ParseError>) -> (r: Result<
    Vec<String>,
    String,
>)
    ensures
        match split {
            Ok(words) => r == Ok::<Vec<String>, String>(words),
            Err(_) => r matches Err(message) && message@ == unparsed_command_message(),
        },
{
    match split {
        Ok(words) => Ok(words),
        Err(_) => Err(String::from_str("Failed to parse agent command: missing closing quote")),
    }
}

impl SymposiumUserConfig {
    /// The directory of the configuration below the home directory.
    pub fn dir(home: &Vec<String>) -> (r: Vec<String>)
        ensures
            texts(r@) == texts(home@) + seq![".symposium"@],
    {
        symposium_dir(home)
    }

    /// The file of the configuration below the home directory.
    pub fn path(home: &Vec<String>) -> (r: Vec<String>)
        ensures
            texts(r@) == texts(home@) + seq![".symposium"@, "config.jsonc"@],
    {
        let mut path = symposium_dir(home);
        let ghost dir = texts(path@);
        path.push(String::from_str("config.jsonc"));
        proof {
            assert(texts(path@) =~= dir.push("config.jsonc"@));
            assert(dir.push("config.jsonc"@) =~= texts(home@) + seq![
                ".symposium"@,
                "config.jsonc"@,
            ]);
        }
        path
    }

    /// The names of the enabled proxies, in order.
    pub fn enabled_proxies(&self) -> (r: Vec<String>)
        ensures
            texts(r@) == enabled_names(self@.proxies, self.proxies@.len() as int),
    {
        let ghost proxies = self@.proxies;
        let mut out: Vec<String> = Vec::new();
        let mut i: usize = 0;
        proof {
            assert(texts(out@) =~= Seq::<Seq<char>>::empty());
        }
        while i < self.proxies.len()
            invariant
                i <= self.proxies.len(),
                proxies == proxies_view(self.proxies@),
                texts(out@) == enabled_names(proxies, i as int),
            decreases self.proxies.len() - i,
        {
            if self.proxies[i].enabled {
                let ghost before = texts(out@);
                out.push(self.proxies[i].name.clone());
                proof {
                    assert(texts(out@) =~= before.push(proxies[i as int].name));
                }
            }
            i += 1;
        }
        out
    }

    /// The command of the agent as shell words. A command with an open
    /// quote is refused.
    pub fn agent_args(&self) -> (r: Result<Vec<String>, String>)
        ensures
            match r {
                Ok(words) => shell_words_of(self.agent@) == Some(texts(words@)),
                Err(message) => shell_words_of(self.agent@) is None && message@
                    == unparsed_command_message(),
            },
    {
        agent_args_of(split_words(self.agent.as_str()))
    }

    /// The configuration for `agent` with the three proxies that a user
    /// starts with, all enabled.
    pub fn with_agent(agent: &str) -> (r: Self)
        ensures
            r@ == (UserConfigView { agent: agent@, proxies: default_proxies() }),
    {
        let mut proxies: Vec<ProxyEntry> = Vec::new();
        proxies.push(ProxyEntry { name: String::from_str("sparkle"), enabled: true });
        proxies.push(ProxyEntry { name: String::from_str("ferris"), enabled: true });
        proxies.push(ProxyEntry { name: String::from_str("cargo"), enabled: true });
        proof {
            assert(proxies_view(proxies@) =~= default_proxies());
        }
        SymposiumUserConfig { agent: String::from_str(agent), proxies }
    }
}

/// An agent that can be chosen by name.
#[derive(Clone, Copy, Debug)]
pub struct KnownAgent {
    pub name: &'static str,
    pub command: &'static str,
}

/// The list of the first `n` agents, one line each, numbered from 1.
pub open spec fn agent_list(names: Seq<Seq<char>>, n: int) -> Seq<char>
    decreases n,
{
    if n <= 0 || n > names.len() {
        Seq::empty()
    } else {
        agent_list(names, n - 1) + "  "@ + decimal(n as nat) + ". "@ + names[n - 1] + "\n"@
    }
}

/// The names of a list of agents.
pub open spec fn names_of(agents: Seq<KnownAgent>) -> Seq<Seq<char>> {
    Seq::new(agents.len(), |i: int| agents[i].name@)
}

/// The commands of a list of agents.
pub open spec fn commands_of(agents: Seq<KnownAgent>) -> Seq<Seq<char>> {
    Seq::new(agents.len(), |i: int| agents[i].command@)
}

/// What a new user is greeted with.
pub open spec fn welcome_text(agents: Seq<Seq<char>>) -> Seq<char> {
    "Welcome to Symposium!\n\nNo configuration found. Let's set up your AI agent.\n\nWhich agent would you like to use?\n\n"@
        + agent_list(agents, agents.len() as int) + "\nType a number (1-"@ + decimal(agents.len())
        + ") to select:"@
}

/// What is answered to an input that chooses no agent.
pub open spec fn invalid_input_text(agents: Seq<Seq<char>>) -> Seq<char> {
    "Invalid selection. Please type a number from 1 to "@ + decimal(agents.len()) + ".\n\n"@
        + agent_list(agents, agents.len() as int)
}

/// What is answered once the configuration is saved.
pub open spec fn success_text(agent_name: Seq<char>) -> Seq<char> {
    "Configuration saved!\n\nAgent: "@ + agent_name
        + "\nProxies: sparkle, ferris, cargo (all enabled)\n\nPlease restart your editor to start using Symposium with "@
        + agent_name + "."@
}

/// What is answered where the configuration could not be saved.
pub open spec fn save_error_text(error: Seq<char>) -> Seq<char> {
    "Error saving configuration: "@ + error
}

/// What is answered once the configuration is complete.
pub open spec fn done_text() -> Seq<char> {
    "Configuration is complete. Please restart your editor to use Symposium."@
}

/// Appends the numbered list of `agents` to `out`.
fn append_agent_list(out: &mut String, agents: &Vec<KnownAgent>)
    ensures
        final(out)@ == old(out)@ + agent_list(names_of(agents@), agents@.len() as int),
{
    let ghost head = out@;
    let ghost names = names_of(agents@);
    let mut i: usize = 0;
    proof {
        assert(head + agent_list(names, 0) =~= head);
    }
    while i < agents.len()
        invariant
            i <= agents.len(),
            names == names_of(agents@),
            out@ == head + agent_list(names, i as int),
        decreases agents.len() - i,
    {
        out.append("  ");
        let number = decimal_string((i + 1) as u64);
        out.append(number.as_str());
        out.append(". ");
        out.append(agents[i].name);
        out.append("\n");
        proof {
            assert(out@ =~= head + agent_list(names, i + 1));
        }
        i += 1;
    }
}

/// Where the first configuration stands.
#[derive(Clone, Copy, Debug, PartialEq, Eq, Structural)]
pub enum ConfigState {
    /// The user is asked to choose an agent.
    SelectAgent,
    /// The configuration is saved.
    Done,
}

/// What the dialogue does with an input.
#[derive(Debug)]
pub enum ConfigStep {
    /// Answer with this text; the state stays.
    Reply { text: String },
    /// Save this configuration, which chooses the agent of this name, and
    /// go on by the outcome.
    Save { config: SymposiumUserConfig, agent_name: String },
}

/// The agent that an input chooses: the input without surrounding white
/// space is a number between 1 and the number of agents.
pub open spec fn chosen_agent(input: Seq<char>, agents: Seq<Seq<char>>) -> Option<int> {
    match unsigned_value(trimmed(input)) {
        Some(n) => if 1 <= n <= agents.len() {
            Some(n - 1)
        } else {
            None
        },
        None => None,
    }
}

/// The dialogue that makes the first configuration.
#[derive(Debug)]
pub struct ConfigurationAgent {}

impl ConfigurationAgent {
    /// The greeting, with the agents to choose from.
    pub fn welcome_message(agents: &Vec<KnownAgent>) -> (r: String)
        ensures
            r@ == welcome_text(names_of(agents@)),
    {
        let mut msg = String::from_str(
            "Welcome to Symposium!\n\nNo configuration found. Let's set up your AI agent.\n\nWhich agent would you like to use?\n\n",
        );
        append_agent_list(&mut msg, agents);
        msg.append("\nType a number (1-");
        let count = decimal_string(agents.len() as u64);
        msg.append(count.as_str());
        msg.append(") to select:");
        msg
    }

    /// The answer to an input that chooses no agent.
    pub fn invalid_input_message(agents: &Vec<KnownAgent>) -> (r: String)
        ensures
            r@ == invalid_input_text(names_of(agents@)),
    {
        let mut msg = String::from_str("Invalid selection. Please type a number from 1 to ");
        let count = decimal_string(agents.len() as u64);
        msg.append(count.as_str());
        msg.append(".\n\n");
        append_agent_list(&mut msg, agents);
        msg
    }

    /// The answer once the configuration is saved.
    pub fn success_message(agent_name: &str) -> (r: String)
        ensures
            r@ == success_text(agent_name@),
    {
        let mut msg = String::from_str("Configuration saved!\n\nAgent: ");
        msg.append(agent_name);
        msg.append(
            "\nProxies: sparkle, ferris, cargo (all enabled)\n\nPlease restart your editor to start using Symposium with ",
        );
        msg.append(agent_name);
        msg.append(".");
        msg
    }

    /// What is done with an input, with `agents` to choose from. While an
    /// agent is to be chosen, an input that is the number of an agent saves
    /// the configuration for that agent, and any other input is answered
    /// with the list again. Once the configuration is complete every input
    /// is answered with that.
    pub fn process_input(state: ConfigState, input: &str, agents: &Vec<KnownAgent>) -> (r:
        ConfigStep)
        ensures
            match state {
                ConfigState::Done => r matches ConfigStep::Reply { text } && text@ == done_text(),
                ConfigState::SelectAgent => match chosen_agent(input@, names_of(agents@)) {
                    Some(i) => {
                        &&& r matches ConfigStep::Save { config, agent_name }
                        &&& agent_name@ == agents@[i].name@
                        &&& config@ == (UserConfigView {
                            agent: agents@[i].command@,
                            proxies: default_proxies(),
                        })
                    },
                    None => r matches ConfigStep::Reply { text } && text@ == invalid_input_text(
                        names_of(agents@),
                    ),
                },
            },
    {
        match state {
            ConfigState::Done => ConfigStep::Reply {
                text: String::from_str(
                    "Configuration is complete. Please restart your editor to use Symposium.",
                ),
            },
            ConfigState::SelectAgent => {
                proof {
                    assert(names_of(agents@).len() == agents@.len());
                }
                let ghost choice = chosen_agent(input@, names_of(agents@));
                let count = agents.len();
                match parse_usize(trim(input)) {
                    Some(num) => {
                        if num >= 1 && num <= count {
                            let agent = agents[num - 1];
                            proof {
                                assert(choice == Some(num - 1));
                            }
                            return ConfigStep::Save {
                                config: SymposiumUserConfig::with_agent(agent.command),
                                agent_name: String::from_str(agent.name),
                            };
                        }
                    },
                    None => {
                        proof {
                            assert(count == agents@.len());
                        }
                    },
                }
                proof {
                    assert(choice is None);
                }
                ConfigStep::Reply { text: Self::invalid_input_message(agents) }
            },
        }
    }

    /// What follows the attempt to save: the answer, and the state from
    /// then on. A configuration that was saved completes the dialogue; one
    /// that could not be saved leaves the choice open.
    pub fn saved(agent_name: &str, outcome: Result<(), String>) -> (r: (String, ConfigState))
        ensures
            match outcome {
                Ok(()) => r.0@ == success_text(agent_name@) && r.1 == ConfigState::Done,
                Err(e) => r.0@ == save_error_text(e@) && r.1 == ConfigState::SelectAgent,
            },
    {
        match outcome {
            Ok(()) => (Self::success_message(agent_name), ConfigState::Done),
            Err(e) => {
                let mut msg = String::from_str("Error saving configuration: ");
                msg.append(e.as_str());
                (msg, ConfigState::SelectAgent)
            },
        }
    }
}

} // verus!
