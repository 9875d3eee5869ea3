use symposium::config::{ConfigState, ConfigStep, ConfigurationAgent, KnownAgent};
use symposium::config_mode::{
    handle_main_menu_input, handle_recommendation_diff, initial_config, invalid_selection_message,
    menu_command, select_agent, select_agent_prompt, show_main_menu, AgentChoice, DiffStep,
    MenuAction, MenuCommand, MenuStep,
};
use symposium::proxy::{trace_file_name, ProxyKind, Symposium, SymposiumConfig};
use symposium::recommendations::{Recommendation, RecommendationDiff, WorkspaceRecommendations};
use symposium::source::ComponentSource;
use symposium::user_config::{ExtensionConfig, WorkspaceConfig};

fn builtin(name: &str) -> ComponentSource {
    ComponentSource::Builtin(name.to_string())
}

fn agents() -> Vec<KnownAgent> {
    vec![
        KnownAgent {
            name: "First Agent",
            command: "npx -y first-agent",
        },
        KnownAgent {
            name: "Second Agent",
            command: "second-agent acp",
        },
    ]
}

#[test]
fn welcome_lists_the_agents() {
    assert_eq!(
        ConfigurationAgent::welcome_message(&agents()),
        "Welcome to Symposium!\n\nNo configuration found. Let's set up your AI agent.\n\nWhich agent would you like to use?\n\n  1. First Agent\n  2. Second Agent\n\nType a number (1-2) to select:"
    );
    assert_eq!(
        ConfigurationAgent::invalid_input_message(&agents()),
        "Invalid selection. Please type a number from 1 to 2.\n\n  1. First Agent\n  2. Second Agent\n"
    );
    assert_eq!(
        ConfigurationAgent::success_message("First Agent"),
        "Configuration saved!\n\nAgent: First Agent\nProxies: sparkle, ferris, cargo (all enabled)\n\nPlease restart your editor to start using Symposium with First Agent."
    );
}

#[test]
fn a_number_chooses_the_agent() {
    match ConfigurationAgent::process_input(ConfigState::SelectAgent, " 2 \n", &agents()) {
        ConfigStep::Save { config, agent_name } => {
            assert_eq!(agent_name, "Second Agent");
            assert_eq!(config.agent, "second-agent acp");
            assert_eq!(config.enabled_proxies(), vec!["sparkle", "ferris", "cargo"]);
        }
        _ => panic!("the configuration is saved"),
    }
    for input in ["0", "3", "two", "", "1.0", "-1"] {
        match ConfigurationAgent::process_input(ConfigState::SelectAgent, input, &agents()) {
            ConfigStep::Reply { text } => {
                assert!(text.starts_with("Invalid selection. Please type a number from 1 to 2."))
            }
            _ => panic!("the input chooses nothing"),
        }
    }
    assert!(matches!(
        ConfigurationAgent::process_input(ConfigState::Done, "1", &agents()),
        ConfigStep::Reply { text } if text == "Configuration is complete. Please restart your editor to use Symposium."
    ));
    assert_eq!(
        ConfigurationAgent::saved("A", Ok(())).1,
        ConfigState::Done
    );
    assert_eq!(
        ConfigurationAgent::saved("A", Err("disk full".to_string())),
        (
            "Error saving configuration: disk full".to_string(),
            ConfigState::SelectAgent
        )
    );
}

fn config() -> WorkspaceConfig {
    let mut config = WorkspaceConfig::new(builtin("agent"), vec![builtin("a"), builtin("b")]);
    config.set_extension_enabled(&builtin("b"), false);
    config
}

#[test]
fn menu_reads_its_commands() {
    assert_eq!(menu_command(" save ", 2), MenuCommand::Save);
    assert_eq!(menu_command("CANCEL", 2), MenuCommand::Cancel);
    assert_eq!(menu_command("a", 2), MenuCommand::ChangeAgent);
    assert_eq!(menu_command("Agent", 2), MenuCommand::ChangeAgent);
    assert_eq!(menu_command("2", 2), MenuCommand::Toggle(1));
    assert_eq!(menu_command("3", 2), MenuCommand::InvalidIndex);
    assert_eq!(menu_command("0", 2), MenuCommand::InvalidIndex);
    assert_eq!(menu_command("1", 0), MenuCommand::NoExtensions);
    assert_eq!(menu_command("move 1 to 2", 2), MenuCommand::Move);
    assert_eq!(menu_command("MOVE 2  to  start", 2), MenuCommand::Move);
    assert_eq!(menu_command("move 1 to middle", 2), MenuCommand::Unknown);
    assert_eq!(menu_command("help", 2), MenuCommand::Unknown);
}

#[test]
fn menu_toggles_an_extension() {
    let mut config = config();
    match handle_main_menu_input("2", &mut config) {
        MenuStep::Say { message, then } => {
            assert_eq!(message, "Extension `b` is now enabled.");
            assert_eq!(then, MenuAction::Redisplay);
        }
        _ => panic!("the extension is toggled"),
    }
    assert!(config.is_extension_enabled(&builtin("b")));
    match handle_main_menu_input(" 1 ", &mut config) {
        MenuStep::Say { message, .. } => assert_eq!(message, "Extension `a` is now disabled."),
        _ => panic!("the extension is toggled"),
    }
    assert!(!config.is_extension_enabled(&builtin("a")));
    assert!(matches!(
        handle_main_menu_input("7", &mut config),
        MenuStep::Say { message, then: MenuAction::Continue } if message == "Invalid index. Please enter 1-2."
    ));
    assert!(matches!(
        handle_main_menu_input(" what? ", &mut config),
        MenuStep::Say { message, then: MenuAction::Continue } if message == "Unknown command: `what?`"
    ));
    assert!(matches!(
        handle_main_menu_input("move 1 to end", &mut config),
        MenuStep::Say { message, .. } if message == "Extension reordering is not yet supported with the new config format."
    ));
    assert!(matches!(handle_main_menu_input("save", &mut config), MenuStep::Save));
    assert!(matches!(handle_main_menu_input("cancel", &mut config), MenuStep::Cancel));
    assert!(matches!(handle_main_menu_input("A", &mut config), MenuStep::SelectAgent));
    let mut empty = WorkspaceConfig::new(builtin("agent"), vec![]);
    assert!(matches!(
        handle_main_menu_input("1", &mut empty),
        MenuStep::Say { message, .. } if message == "No extensions configured."
    ));
}

#[test]
fn menu_is_shown() {
    assert_eq!(
        show_main_menu("/work/space", &config()),
        "# Configuration\n\nWorkspace: `/work/space`\n\n* **Agent:** agent\n* **Extensions:**\n    1. a\n    2. ~~b~~ (disabled)\n\n# Commands\n\n- `a` - Change agent\n- `1` through `2` - Toggle extension enabled/disabled\n- `save` - Save for future sessions\n- `cancel` - Exit without saving\n"
    );
    let one = WorkspaceConfig::new(builtin("agent"), vec![builtin("a")]);
    assert!(show_main_menu("w", &one).contains("- `1` - Toggle extension enabled/disabled\n"));
    let none = WorkspaceConfig::new(builtin("agent"), vec![]);
    assert_eq!(
        show_main_menu("w", &none),
        "# Configuration\n\nWorkspace: `w`\n\n* **Agent:** agent\n* **Extensions:**\n    * (none configured)\n\n# Commands\n\n- `a` - Change agent\n- `save` - Save for future sessions\n- `cancel` - Exit without saving\n"
    );
}

fn recommendations(names: &[&str]) -> WorkspaceRecommendations {
    WorkspaceRecommendations {
        extensions: names
            .iter()
            .map(|name| Recommendation {
                source: builtin(name),
                when: None,
            })
            .collect(),
    }
}

#[test]
fn difference_is_saved_ignored_or_toggled() {
    let mut config = WorkspaceConfig::new(builtin("agent"), vec![builtin("old")]);
    let recs = recommendations(&["foo", "bar"]);
    let mut diff = RecommendationDiff::compute(&recs, &config);
    assert!(matches!(
        handle_recommendation_diff(&mut diff, &mut config, "2"),
        DiffStep::Say { message } if message.contains("2. IGNORE bar")
    ));
    assert!(matches!(
        handle_recommendation_diff(&mut diff, &mut config, "5"),
        DiffStep::Say { message } if message == "Invalid index 5. Valid range is 1-2\n"
    ));
    assert!(matches!(
        handle_recommendation_diff(&mut diff, &mut config, " later "),
        DiffStep::Say { message } if message == "Unknown command: `later`\n"
    ));
    assert!(matches!(
        handle_recommendation_diff(&mut diff, &mut config, "Save"),
        DiffStep::Finish { note: Some(m) } if m == "Recommendations saved.\n\n"
    ));
    assert_eq!(
        config.extensions,
        vec![
            ExtensionConfig { source: builtin("foo"), enabled: true, when: None },
            ExtensionConfig { source: builtin("bar"), enabled: false, when: None },
        ]
    );
    let mut config = WorkspaceConfig::new(builtin("agent"), vec![builtin("old")]);
    let mut diff = RecommendationDiff::compute(&recs, &config);
    assert!(matches!(
        handle_recommendation_diff(&mut diff, &mut config, "ignore"),
        DiffStep::Finish { note: Some(m) } if m.starts_with("New recommendations ignored.")
    ));
    assert!(config.extensions.is_empty());
    let mut config = WorkspaceConfig::new(builtin("agent"), vec![builtin("old")]);
    let mut diff = RecommendationDiff::compute(&recommendations(&[]), &config);
    assert!(matches!(
        handle_recommendation_diff(&mut diff, &mut config, "save"),
        DiffStep::Say { message } if message == "Please press ENTER to continue, or say LATER.\n"
    ));
    assert_eq!(config.extensions.len(), 1);
    assert!(matches!(
        handle_recommendation_diff(&mut diff, &mut config, "  "),
        DiffStep::Finish { note: None }
    ));
    assert!(config.extensions.is_empty());
}

#[test]
fn an_agent_is_selected_by_number() {
    assert_eq!(select_agent("cancel", 3), AgentChoice::Cancel);
    assert_eq!(select_agent(" CANCEL ", 3), AgentChoice::Cancel);
    assert_eq!(select_agent("3", 3), AgentChoice::Selected(2));
    assert_eq!(select_agent("4", 3), AgentChoice::Invalid);
    assert_eq!(select_agent("0", 3), AgentChoice::Invalid);
    assert_eq!(select_agent("c", 3), AgentChoice::Invalid);
    assert_eq!(
        select_agent_prompt(&vec!["One".to_string(), "Two".to_string()]),
        "# Select an Agent\n\n1. One\n2. Two\n\nEnter a number to select, or `cancel` to abort:\n"
    );
    assert_eq!(
        invalid_selection_message(3),
        "Invalid selection. Please enter 1-3 or `cancel`.\n"
    );
    let first = initial_config(builtin("agent"), &Some(recommendations(&["x", "y", "x"])));
    assert_eq!(first.enabled_extensions(), vec![builtin("x"), builtin("y")]);
    assert!(initial_config(builtin("agent"), &None).extensions.is_empty());
}

#[test]
fn proxy_chain_is_made_of_known_proxies() {
    let symposium = Symposium::new();
    assert_eq!(symposium.config.proxy_names, vec!["sparkle", "ferris", "cargo"]);
    assert_eq!(
        symposium.config.build_proxies(),
        vec![
            ProxyKind::Sparkle,
            ProxyKind::Ferris { crate_sources: true, rust_researcher: true },
            ProxyKind::Cargo
        ]
    );
    let chosen = Symposium::from_proxy_names(&vec!["cargo".to_string(), "sparkle".to_string()])
        .unwrap()
        .trace_dir("/tmp/traces");
    assert_eq!(chosen.config.proxy_names, vec!["cargo", "sparkle"]);
    assert_eq!(chosen.config.trace_dir, Some("/tmp/traces".to_string()));
    assert_eq!(
        chosen.config.build_proxies(),
        vec![ProxyKind::Cargo, ProxyKind::Sparkle]
    );
    let refused = Symposium::from_proxy_names(&vec![
        "cargo".to_string(),
        "nope".to_string(),
        "also-nope".to_string(),
    ]);
    assert_eq!(
        refused.err().unwrap(),
        "Unknown proxy name: 'nope'. Known proxies: sparkle, ferris, cargo"
    );
    let loose = SymposiumConfig::from_proxy_names(&vec!["x".to_string(), "ferris".to_string()]);
    assert_eq!(loose.build_proxies().len(), 1);
    assert_eq!(trace_file_name("20240101-120000"), "20240101-120000.jsons");
}
