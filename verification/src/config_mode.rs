//! The configuration menu: what each input of the user means, and what is
//! shown to the user.

use crate::numeral::{parse_usize, unsigned_value};
use crate::recommendations::{invalid_index_message, prompt_lines, with_new, without_stale};
use crate::recommendations::{RecommendationDiff, WorkspaceRecommendations};
use crate::source::{shown_name, ComponentSource};
use crate::text::{decimal, decimal_string, eq_ignore_ascii_case, joined, same_text, texts};
use crate::text::{ascii_lowercase, to_uppercase, trim, trimmed, uppercased};
use crate::user_config::{ConfigView, ExtensionConfig, ExtensionView, WorkspaceConfig};
use crate::when::clone_opt_when;
use crate::workspace::{regex_found, regex_is_match};
use vstd::prelude::*;

verus! {

/// What the user sends to the menu.
#[derive(Debug)]
pub enum ConfigModeInput {
    /// The text of a prompt.
    UserInput(String),
}

/// What the menu sends back.
#[derive(Debug)]
pub enum ConfigModeOutput {
    /// Text for the user.
    SendMessage(String),
    /// The configuration is complete: save it and leave the menu.
    Done { config: WorkspaceConfig },
    /// The user gave up: leave the menu without saving.
    Cancelled,
}

/// How the menu goes on after an input.
#[derive(Clone, Copy, Debug, PartialEq, Eq, Structural)]
pub enum MenuAction {
    /// Leave the menu.
    Done,
    /// Show the menu again.
    Redisplay,
    /// Wait for the next input.
    Continue,
}

/// The pattern of the command that moves an extension.
pub open spec fn move_pattern() -> Seq<char> {
    "(?i)^move\\s+(\\d+)\\s+to\\s+(\\d+|start|end)$"@
}

/// What an input of the main menu asks for.
#[derive(Clone, Copy, Debug, PartialEq, Eq, Structural)]
pub enum MenuCommand {
    Save,
    Cancel,
    ChangeAgent,
    /// Toggle the extension at this place, counted from 0.
    Toggle(usize),
    /// A number, and no extension is configured.
    NoExtensions,
    /// A number that names no extension.
    InvalidIndex,
    /// A command to move an extension.
    Move,
    Unknown,
}

/// What an input asks for, by its reading: `upper` is the input in upper
/// case, `number` the number it denotes, `moves` whether it is a command to
/// move an extension, and `extensions` how many extensions are configured.
pub open spec fn command_of(
    upper: Seq<char>,
    number: Option<nat>,
    moves: bool,
    extensions: nat,
) -> MenuCommand {
    if upper == "SAVE"@ {
        MenuCommand::Save
    } else if upper == "CANCEL"@ {
        MenuCommand::Cancel
    } else if upper == "A"@ || upper == "AGENT"@ {
        MenuCommand::ChangeAgent
    } else if number is Some && number->Some_0 <= usize::MAX {
        if 1 <= number->Some_0 <= extensions {
            MenuCommand::Toggle((number->Some_0 - 1) as usize)
        } else if extensions == 0 {
            MenuCommand::NoExtensions
        } else {
            MenuCommand::InvalidIndex
        }
    } else if moves {
        MenuCommand::Move
    } else {
        MenuCommand::Unknown
    }
}

/// What an input asks for, by its reading.
pub fn classify_command(upper: &str, number: Option<usize>, moves: bool, extensions: usize) -> (r:
    MenuCommand)
    ensures
        r == command_of(
            upper@,
            match number {
                Some(n) => Some(n as nat),
                None => None,
            },
            moves,
            extensions as nat,
        ),
{
    if same_text(upper, "SAVE") {
        MenuCommand::Save
    } else if same_text(upper, "CANCEL") {
        MenuCommand::Cancel
    } else if same_text(upper, "A") || same_text(upper, "AGENT") {
        MenuCommand::ChangeAgent
    } else {
        match number {
            Some(n) => {
                if n >= 1 && n <= extensions {
                    MenuCommand::Toggle(n - 1)
                } else if extensions == 0 {
                    MenuCommand::NoExtensions
                } else {
                    MenuCommand::InvalidIndex
                }
            },
            None => if moves {
                MenuCommand::Move
            } else {
                MenuCommand::Unknown
            },
        }
    }
}

/// The number that an input denotes, where it fits in a `usize`.
pub open spec fn number_of(input: Seq<char>) -> Option<nat> {
    match unsigned_value(input) {
        Some(n) => if n <= usize::MAX {
            Some(n)
        } else {
            None
        },
        None => None,
    }
}

/// What an input of the main menu asks for. The input counts without the
/// white space around it, and without regard to case where it is a word.
pub fn menu_command(text: &str, extensions: usize) -> (r: MenuCommand)
    ensures
        r == command_of(
            uppercased(trimmed(text@)),
            number_of(trimmed(text@)),
            regex_found(move_pattern(), trimmed(text@)) == Some(true),
            extensions as nat,
        ),
{
    let text = trim(text);
    let upper = to_uppercase(text);
    let number = parse_usize(text);
    let moves = match regex_is_match("(?i)^move\\s+(\\d+)\\s+to\\s+(\\d+|start|end)$", text) {
        Some(found) => found,
        None => false,
    };
    classify_command(upper.as_str(), number, moves, extensions)
}

/// What is said once an extension is toggled.
pub open spec fn toggled_message(name: Seq<char>, enabled: bool) -> Seq<char> {
    "Extension `"@ + name + "` is now "@ + (if enabled {
        "enabled"@
    } else {
        "disabled"@
    }) + "."@
}

/// What is said of a number that names no extension.
pub open spec fn invalid_menu_index_message(extensions: nat) -> Seq<char> {
    "Invalid index. Please enter 1-"@ + decimal(extensions) + "."@
}

/// What is said of an input that is no command.
pub open spec fn unknown_command_message(text: Seq<char>) -> Seq<char> {
    "Unknown command: `"@ + text + "`"@
}

/// What the menu does with a command.
#[derive(Debug)]
pub enum MenuStep {
    /// Hand the configuration out as complete, and leave the menu.
    Save,
    /// Leave the menu without saving.
    Cancel,
    /// Let the user choose an agent, then show the menu again.
    SelectAgent,
    /// Say this, and go on as `then` says.
    Say { message: String, then: MenuAction },
}

/// The extensions with the one at `at` turned from enabled to disabled, or
/// back.
pub open spec fn toggled_at(extensions: Seq<ExtensionView>, at: int) -> Seq<ExtensionView> {
    extensions.update(
        at,
        ExtensionView {
            source: extensions[at].source,
            enabled: !extensions[at].enabled,
            when: extensions[at].when,
        },
    )
}

/// The rule of the main menu: what becomes of the configuration `before`
/// under `command`, and what the menu does. Only the toggling of an
/// extension changes the configuration. `text` is the input, as it is
/// quoted where it is no command.
pub open spec fn menu_step(
    command: MenuCommand,
    text: Seq<char>,
    before: ConfigView,
    after: ConfigView,
    r: MenuStep,
) -> bool {
    &&& after.agent == before.agent
    &&& match command {
        MenuCommand::Save => r is Save && after == before,
        MenuCommand::Cancel => r is Cancel && after == before,
        MenuCommand::ChangeAgent => r is SelectAgent && after == before,
        MenuCommand::Toggle(at) => {
            &&& after.extensions == toggled_at(before.extensions, at as int)
            &&& r matches MenuStep::Say { message, then }
            &&& then == MenuAction::Redisplay
            &&& message@ == toggled_message(
                shown_name(before.extensions[at as int].source),
                !before.extensions[at as int].enabled,
            )
        },
        MenuCommand::NoExtensions => {
            &&& after == before
            &&& r matches MenuStep::Say { message, then }
            &&& then == MenuAction::Continue
            &&& message@ == "No extensions configured."@
        },
        MenuCommand::InvalidIndex => {
            &&& after == before
            &&& r matches MenuStep::Say { message, then }
            &&& then == MenuAction::Continue
            &&& message@ == invalid_menu_index_message(before.extensions.len())
        },
        MenuCommand::Move => {
            &&& after == before
            &&& r matches MenuStep::Say { message, then }
            &&& then == MenuAction::Continue
            &&& message@
                == "Extension reordering is not yet supported with the new config format."@
        },
        MenuCommand::Unknown => {
            &&& after == before
            &&& r matches MenuStep::Say { message, then }
            &&& then == MenuAction::Continue
            &&& message@ == unknown_command_message(text)
        },
    }
}

/// Carries out a command of the main menu on the configuration.
pub fn apply_menu_command(command: MenuCommand, text: &str, config: &mut WorkspaceConfig) -> (r:
    MenuStep)
    requires
        command matches MenuCommand::Toggle(at) ==> at < old(config).extensions@.len(),
    ensures
        menu_step(command, text@, old(config)@, final(config)@, r),
{
    match command {
        MenuCommand::Save => MenuStep::Save,
        MenuCommand::Cancel => MenuStep::Cancel,
        MenuCommand::ChangeAgent => MenuStep::SelectAgent,
        MenuCommand::Toggle(at) => {
            let ghost before = config@.extensions;
            let current = &config.extensions[at];
            let enabled = !current.enabled;
            let name = current.source.display_name();
            let toggled = ExtensionConfig {
                source: current.source.clone(),
                enabled,
                when: clone_opt_when(&current.when),
            };
            config.extensions.set(at, toggled);
            proof {
                assert(config@.extensions =~= toggled_at(before, at as int));
            }
            let mut message = String::from_str("Extension `");
            message.append(name.as_str());
            message.append("` is now ");
            if enabled {
                message.append("enabled");
            } else {
                message.append("disabled");
            }
            message.append(".");
            MenuStep::Say { message, then: MenuAction::Redisplay }
        },
        MenuCommand::NoExtensions => MenuStep::Say {
            message: String::from_str("No extensions configured."),
            then: MenuAction::Continue,
        },
        MenuCommand::InvalidIndex => {
            let mut message = String::from_str("Invalid index. Please enter 1-");
            let count = decimal_string(config.extensions.len() as u64);
            message.append(count.as_str());
            message.append(".");
            MenuStep::Say { message, then: MenuAction::Continue }
        },
        MenuCommand::Move => MenuStep::Say {
            message: String::from_str(
                "Extension reordering is not yet supported with the new config format.",
            ),
            then: MenuAction::Continue,
        },
        MenuCommand::Unknown => {
            let mut message = String::from_str("Unknown command: `");
            message.append(text);
            message.append("`");
            MenuStep::Say { message, then: MenuAction::Continue }
        },
    }
}

/// What the main menu does with an input.
pub fn handle_main_menu_input(text: &str, config: &mut WorkspaceConfig) -> (r: MenuStep)
    ensures
        menu_step(
            menu_reading(text@, old(config).extensions@.len()),
            trimmed(text@),
            old(config)@,
            final(config)@,
            r,
        ),
{
    let command = menu_command(text, config.extensions.len());
    apply_menu_command(command, trim(text), config)
}

/// What an input of the main menu asks for, with `extensions` extensions
/// configured.
pub open spec fn menu_reading(text: Seq<char>, extensions: nat) -> MenuCommand {
    command_of(
        uppercased(trimmed(text)),
        number_of(trimmed(text)),
        regex_found(move_pattern(), trimmed(text)) == Some(true),
        extensions,
    )
}

/// The lines of the first `n` extensions in the menu, numbered from 1; a
/// disabled extension is struck through.
pub open spec fn extension_lines(extensions: Seq<ExtensionView>, n: int) -> Seq<char>
    decreases n,
{
    if n <= 0 || n > extensions.len() {
        Seq::empty()
    } else if extensions[n - 1].enabled {
        extension_lines(extensions, n - 1) + "    "@ + decimal(n as nat) + ". "@ + shown_name(
            extensions[n - 1].source,
        ) + "\n"@
    } else {
        extension_lines(extensions, n - 1) + "    "@ + decimal(n as nat) + ". ~~"@ + shown_name(
            extensions[n - 1].source,
        ) + "~~ (disabled)\n"@
    }
}

/// The line of the menu that says how extensions are toggled.
pub open spec fn toggle_help(extensions: nat) -> Seq<char> {
    if extensions == 0 {
        Seq::empty()
    } else if extensions == 1 {
        "- `1` - Toggle extension enabled/disabled\n"@
    } else {
        "- `1` through `"@ + decimal(extensions) + "` - Toggle extension enabled/disabled\n"@
    }
}

/// The main menu for a configuration of the workspace at `workspace`.
pub open spec fn main_menu(workspace: Seq<char>, config: ConfigView) -> Seq<char> {
    "# Configuration\n\nWorkspace: `"@ + workspace + "`\n\n* **Agent:** "@ + shown_name(
        config.agent,
    ) + "\n* **Extensions:**\n"@ + (if config.extensions.len() == 0 {
        "    * (none configured)\n"@
    } else {
        extension_lines(config.extensions, config.extensions.len() as int)
    }) + "\n# Commands\n\n- `a` - Change agent\n"@ + toggle_help(config.extensions.len())
        + "- `save` - Save for future sessions\n- `cancel` - Exit without saving\n"@
}

/// The main menu as text.
pub fn show_main_menu(workspace: &str, config: &WorkspaceConfig) -> (r: String)
    ensures
        r@ == main_menu(workspace@, config@),
{
    let ghost extensions = config@.extensions;
    let mut msg = String::from_str("# Configuration\n\nWorkspace: `");
    msg.append(workspace);
    msg.append("`\n\n* **Agent:** ");
    let agent = config.agent.display_name();
    msg.append(agent.as_str());
    msg.append("\n* **Extensions:**\n");
    let ghost head = msg@;
    if config.extensions.len() == 0 {
        msg.append("    * (none configured)\n");
    } else {
        let mut i: usize = 0;
        proof {
            assert(head + extension_lines(extensions, 0) =~= head);
        }
        while i < config.extensions.len()
            invariant
                i <= config.extensions.len(),
                extensions == config@.extensions,
                msg@ == head + extension_lines(extensions, i as int),
            decreases config.extensions.len() - i,
        {
            let extension = &config.extensions[i];
            let name = extension.source.display_name();
            msg.append("    ");
            let number = decimal_string((i + 1) as u64);
            msg.append(number.as_str());
            if extension.enabled {
                msg.append(". ");
                msg.append(name.as_str());
                msg.append("\n");
            } else {
                msg.append(". ~~");
                msg.append(name.as_str());
                msg.append("~~ (disabled)\n");
            }
            proof {
                assert(extensions[i as int] == config.extensions@[i as int]@);
                assert(msg@ =~= head + extension_lines(extensions, i + 1));
            }
            i += 1;
        }
    }
    let ghost listed = msg@;
    msg.append("\n# Commands\n\n- `a` - Change agent\n");
    let n = config.extensions.len();
    if n == 1 {
        msg.append("- `1` - Toggle extension enabled/disabled\n");
    } else if n > 1 {
        msg.append("- `1` through `");
        let count = decimal_string(n as u64);
        msg.append(count.as_str());
        msg.append("` - Toggle extension enabled/disabled\n");
    }
    proof {
        assert(msg@ =~= listed + "\n# Commands\n\n- `a` - Change agent\n"@ + toggle_help(
            n as nat,
        ));
    }
    msg.append("- `save` - Save for future sessions\n- `cancel` - Exit without saving\n");
    msg
}

/// What the prompt of a difference does with an input.
#[derive(Debug)]
pub enum DiffStep {
    /// The difference is settled: save the configuration, say `note` where
    /// there is one, and go on.
    Finish { note: Option<String> },
    /// Say this and wait for the next input.
    Say { message: String },
}

/// What an input to the prompt of a difference asks for.
#[derive(Clone, Copy, Debug, PartialEq, Eq, Structural)]
pub enum DiffCommand {
    /// Take the stale extensions out; nothing is new.
    RemoveStale,
    /// Nothing is new, and the input is not empty.
    PressEnter,
    Save,
    Ignore,
    /// Toggle the new recommendation of this number, counted from 1.
    Toggle(usize),
    Unknown,
}

/// What an input asks for, by its reading: whether only stale extensions
/// are at stake, whether the input is empty, the input in upper case, and
/// the number it denotes.
pub open spec fn diff_command_of(stale_only: bool, empty: bool, upper: Seq<char>, number: Option<nat>) -> DiffCommand {
    if stale_only {
        if empty {
            DiffCommand::RemoveStale
        } else {
            DiffCommand::PressEnter
        }
    } else if upper == "SAVE"@ {
        DiffCommand::Save
    } else if upper == "IGNORE"@ {
        DiffCommand::Ignore
    } else if number is Some && number->Some_0 <= usize::MAX {
        DiffCommand::Toggle(number->Some_0 as usize)
    } else {
        DiffCommand::Unknown
    }
}

/// What an input asks for, by its reading.
pub fn classify_diff_command(stale_only: bool, empty: bool, upper: &str, number: Option<usize>) -> (r:
    DiffCommand)
    ensures
        r == diff_command_of(
            stale_only,
            empty,
            upper@,
            match number {
                Some(n) => Some(n as nat),
                None => None,
            },
        ),
{
    if stale_only {
        if empty {
            DiffCommand::RemoveStale
        } else {
            DiffCommand::PressEnter
        }
    } else if same_text(upper, "SAVE") {
        DiffCommand::Save
    } else if same_text(upper, "IGNORE") {
        DiffCommand::Ignore
    } else {
        match number {
            Some(n) => DiffCommand::Toggle(n),
            None => DiffCommand::Unknown,
        }
    }
}

/// What an input to the prompt of `diff` asks for.
pub open spec fn diff_reading(stale_only: bool, input: Seq<char>) -> DiffCommand {
    diff_command_of(
        stale_only,
        trimmed(input).len() == 0,
        uppercased(trimmed(input)),
        number_of(trimmed(input)),
    )
}

/// Carries out an input to the prompt of a difference: the difference is
/// saved or ignored, a recommendation is toggled and the prompt shown
/// again, or the user is told what went wrong.
pub fn handle_recommendation_diff(
    diff: &mut RecommendationDiff,
    config: &mut WorkspaceConfig,
    input: &str,
) -> (r: DiffStep)
    ensures
        final(diff)@.stale == old(diff)@.stale,
        final(config)@.agent == old(config)@.agent,
        match diff_reading(old(diff).new@.len() == 0 && old(diff).stale@.len() > 0, input@) {
            DiffCommand::RemoveStale => {
                &&& r matches DiffStep::Finish { note: message }
                &&& message is None
                &&& final(diff)@ == old(diff)@
                &&& final(config)@.extensions == without_stale(
                    old(config)@.extensions,
                    old(diff)@.stale,
                    old(diff).stale@.len() as int,
                )
            },
            DiffCommand::PressEnter => {
                &&& r matches DiffStep::Say { message }
                &&& message@ == "Please press ENTER to continue, or say LATER.\n"@
                &&& final(diff)@ == old(diff)@
                &&& final(config)@ == old(config)@
            },
            DiffCommand::Save => {
                &&& r matches DiffStep::Finish { note: message }
                &&& message matches Some(m)
                &&& m@ == "Recommendations saved.\n\n"@
                &&& final(diff)@ == old(diff)@
                &&& final(config)@.extensions == without_stale(
                    with_new(
                        old(config)@.extensions,
                        old(diff)@.new,
                        old(diff).new@.len() as int,
                    ),
                    old(diff)@.stale,
                    old(diff).stale@.len() as int,
                )
            },
            DiffCommand::Ignore => {
                &&& r matches DiffStep::Finish { note: message }
                &&& message matches Some(m)
                &&& m@
                    == "New recommendations ignored. You can enable them later via /symposium:config.\n\n"@
                &&& final(diff)@ == old(diff)@
                &&& final(config)@.extensions == without_stale(
                    old(config)@.extensions,
                    old(diff)@.stale,
                    old(diff).stale@.len() as int,
                )
            },
            DiffCommand::Toggle(index) => {
                &&& final(config)@ == old(config)@
                &&& r matches DiffStep::Say { message }
                &&& if 1 <= index <= old(diff).new@.len() {
                    &&& final(diff)@.new == old(diff)@.new.update(
                        index - 1,
                        crate::recommendations::NewView {
                            recommendation: old(diff)@.new[index - 1].recommendation,
                            accepted: !old(diff)@.new[index - 1].accepted,
                        },
                    )
                    &&& message@ == joined(prompt_lines(final(diff)@), "\n"@)
                } else {
                    &&& final(diff)@ == old(diff)@
                    &&& message@ == invalid_index_message(index as nat, old(diff).new@.len())
                        + "\n"@
                }
            },
            DiffCommand::Unknown => {
                &&& final(config)@ == old(config)@
                &&& final(diff)@ == old(diff)@
                &&& r matches DiffStep::Say { message }
                &&& message@ == "Unknown command: `"@ + trimmed(input@) + "`\n"@
            },
        },
{
    let input = trim(input);
    let upper = to_uppercase(input);
    let number = parse_usize(input);
    let empty = input.unicode_len() == 0;
    match classify_diff_command(diff.is_stale_only(), empty, upper.as_str(), number) {
        DiffCommand::RemoveStale => {
            diff.apply_stale_removal(config);
            DiffStep::Finish { note: None }
        },
        DiffCommand::PressEnter => DiffStep::Say {
            message: String::from_str("Please press ENTER to continue, or say LATER.\n"),
        },
        DiffCommand::Save => {
            diff.apply_save(config);
            DiffStep::Finish { note: Some(String::from_str("Recommendations saved.\n\n")) }
        },
        DiffCommand::Ignore => {
            diff.apply_ignore(config);
            DiffStep::Finish {
                note: Some(
                    String::from_str(
                        "New recommendations ignored. You can enable them later via /symposium:config.\n\n",
                    ),
                ),
            }
        },
        DiffCommand::Toggle(index) => match diff.toggle(index) {
            Ok(()) => DiffStep::Say { message: diff.format_prompt() },
            Err(message) => {
                let mut message = message;
                message.append("\n");
                DiffStep::Say { message }
            },
        },
        DiffCommand::Unknown => {
            let mut message = String::from_str("Unknown command: `");
            message.append(input);
            message.append("`\n");
            DiffStep::Say { message }
        },
    }
}

/// What an input to the choice of an agent asks for.
#[derive(Clone, Copy, Debug, PartialEq, Eq, Structural)]
pub enum AgentChoice {
    /// The user gave up.
    Cancel,
    /// The agent at this place, counted from 0.
    Selected(usize),
    /// The input chooses nothing.
    Invalid,
}

/// The choice that an input makes among `agents` agents: `cancel`, in any
/// case, gives up; a number from 1 to `agents` chooses.
pub open spec fn agent_choice(input: Seq<char>, agents: nat) -> AgentChoice {
    if ascii_lowercase(trimmed(input)) == ascii_lowercase("cancel"@) {
        AgentChoice::Cancel
    } else {
        match number_of(trimmed(input)) {
            Some(n) => if 1 <= n <= agents {
                AgentChoice::Selected((n - 1) as usize)
            } else {
                AgentChoice::Invalid
            },
            None => AgentChoice::Invalid,
        }
    }
}

/// The choice that an input makes among `agents` agents.
pub fn select_agent(input: &str, agents: usize) -> (r: AgentChoice)
    ensures
        r == agent_choice(input@, agents as nat),
{
    let input = trim(input);
    if eq_ignore_ascii_case(input, "cancel") {
        return AgentChoice::Cancel;
    }
    match parse_usize(input) {
        Some(idx) => {
            if idx >= 1 && idx <= agents {
                AgentChoice::Selected(idx - 1)
            } else {
                AgentChoice::Invalid
            }
        },
        None => AgentChoice::Invalid,
    }
}

/// The list of the first `n` agents to choose from, numbered from 1.
pub open spec fn agent_lines(names: Seq<Seq<char>>, n: int) -> Seq<char>
    decreases n,
{
    if n <= 0 || n > names.len() {
        Seq::empty()
    } else {
        agent_lines(names, n - 1) + decimal(n as nat) + ". "@ + names[n - 1] + "\n"@
    }
}

/// The text that asks the user to choose an agent.
pub fn select_agent_prompt(names: &Vec<String>) -> (r: String)
    ensures
        r@ == "# Select an Agent\n\n"@ + agent_lines(texts(names@), names@.len() as int)
            + "\nEnter a number to select, or `cancel` to abort:\n"@,
{
    let mut msg = String::from_str("# Select an Agent\n\n");
    let ghost head = msg@;
    let mut i: usize = 0;
    proof {
        assert(head + agent_lines(texts(names@), 0) =~= head);
    }
    while i < names.len()
        invariant
            i <= names.len(),
            msg@ == head + agent_lines(texts(names@), i as int),
        decreases names.len() - i,
    {
        let number = decimal_string((i + 1) as u64);
        msg.append(number.as_str());
        msg.append(". ");
        msg.append(names[i].as_str());
        msg.append("\n");
        proof {
            assert(texts(names@)[i as int] == names@[i as int]@);
            assert(msg@ =~= head + agent_lines(texts(names@), i + 1));
        }
        i += 1;
    }
    msg.append("\nEnter a number to select, or `cancel` to abort:\n");
    msg
}

/// What is said of an input that chooses no agent.
pub fn invalid_selection_message(agents: usize) -> (r: String)
    ensures
        r@ == "Invalid selection. Please enter 1-"@ + decimal(agents as nat) + " or `cancel`.\n"@,
{
    let mut msg = String::from_str("Invalid selection. Please enter 1-");
    let count = decimal_string(agents as u64);
    msg.append(count.as_str());
    msg.append(" or `cancel`.\n");
    msg
}

/// The configuration that a workspace starts with: the agent, and an
/// enabled extension for each recommendation.
pub fn initial_config(agent: ComponentSource, recommendations: &Option<WorkspaceRecommendations>) -> (r:
    WorkspaceConfig)
    ensures
        r@.agent == agent@,
        r.wf(),
        r@.extensions == match recommendations {
            Some(recs) => crate::user_config::initial_extensions(
                crate::recommendations::sources_of(
                    crate::recommendations::recommendations_view(recs.extensions@),
                ),
                recs.extensions@.len() as int,
            ),
            None => Seq::empty(),
        },
{
    let extensions = match recommendations {
        Some(recs) => recs.extension_sources(),
        None => Vec::new(),
    };
    WorkspaceConfig::new(agent, extensions)
}

} // verus!
