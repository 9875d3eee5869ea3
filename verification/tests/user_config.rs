use std::collections::BTreeMap;
use symposium::config::{ProxyEntry, SymposiumUserConfig};
use symposium::paths::{encode_digest, encode_path};
use symposium::source::{CargoDistribution, ComponentSource, NpxDistribution};
use symposium::user_config::{ExtensionConfig, GlobalAgentConfig, WorkspaceConfig};
use symposium::when::When;

#[test]
fn test_workspace_config_new() {
    let agent = ComponentSource::Npx(NpxDistribution {
        package: "@zed-industries/agent-acp@latest".to_string(),
        args: vec![],
        env: BTreeMap::new(),
    });
    let extensions = vec![
        ComponentSource::Builtin("ferris".to_string()),
        ComponentSource::Cargo(CargoDistribution {
            crate_name: "sparkle-mcp".to_string(),
            version: None,
            binary: None,
            args: vec!["--acp".to_string()],
        }),
    ];

    let config = WorkspaceConfig::new(agent.clone(), extensions);

    assert_eq!(config.agent, agent);
    assert_eq!(config.extensions.len(), 2);
    assert!(config.is_extension_enabled(&ComponentSource::Builtin("ferris".to_string())));
}

#[test]
fn test_workspace_config_toggle_extension() {
    let agent = ComponentSource::Builtin("eliza".to_string());
    let mut config = WorkspaceConfig::new(agent, vec![]);

    let ext = ComponentSource::Builtin("ferris".to_string());

    assert!(!config.is_extension_enabled(&ext));

    assert!(config.toggle_extension(&ext));
    assert!(config.is_extension_enabled(&ext));

    assert!(!config.toggle_extension(&ext));
    assert!(!config.is_extension_enabled(&ext));
}

#[test]
fn test_enabled_extensions_order() {
    let agent = ComponentSource::Builtin("eliza".to_string());
    let extensions = vec![
        ComponentSource::Builtin("a".to_string()),
        ComponentSource::Builtin("b".to_string()),
        ComponentSource::Builtin("c".to_string()),
    ];
    let mut config = WorkspaceConfig::new(agent, extensions);

    config.set_extension_enabled(&ComponentSource::Builtin("b".to_string()), false);

    let enabled = config.enabled_extensions();
    assert_eq!(enabled.len(), 2);
}

#[test]
fn test_encode_path() {
    let encoded = encode_path(Some("my-project"), "/Users/test/my-project");

    assert!(
        encoded.starts_with("my-project-"),
        "Should start with last component"
    );
    assert_eq!(
        encoded.len(),
        "my-project-".len() + 16,
        "Hash should be 16 hex chars"
    );

    let encoded2 = encode_path(Some("my-project"), "/Users/test/my-project");
    assert_eq!(encoded, encoded2);

    let other_encoded = encode_path(Some("other-project"), "/Users/test/other-project");
    assert_ne!(encoded, other_encoded);
}

#[test]
fn encoded_path_holds_the_digest_of_the_path() {
    // SHA-256 of the empty input begins e3b0c44298fc1c14.
    assert_eq!(encode_path(None, ""), "root-e3b0c44298fc1c14");
    // SHA-256 of "abc" begins ba7816bf8f01cfea.
    assert_eq!(encode_path(Some("abc"), "abc"), "abc-ba7816bf8f01cfea");
    assert_eq!(
        encode_digest(Some("x"), &vec![0x00, 0x0f, 0xa0, 0xff]),
        "x-000fa0ff"
    );
    assert_eq!(
        encode_digest(None, &vec![1, 2, 3, 4, 5, 6, 7, 8, 9, 10]),
        "root-0102030405060708"
    );
}

fn home() -> Vec<String> {
    vec!["home".to_string(), "user".to_string()]
}

#[test]
fn configuration_lives_below_the_home_directory() {
    assert_eq!(
        SymposiumUserConfig::dir(&home()),
        vec!["home", "user", ".symposium"]
    );
    assert_eq!(
        SymposiumUserConfig::path(&home()),
        vec!["home", "user", ".symposium", "config.jsonc"]
    );
    assert_eq!(
        GlobalAgentConfig::path(&home()),
        vec!["home", "user", ".symposium", "config", "agent.json"]
    );
    assert_eq!(
        WorkspaceConfig::config_path(&home(), Some("abc"), "abc"),
        vec![
            "home",
            "user",
            ".symposium",
            "config",
            "abc-ba7816bf8f01cfea",
            "config.json"
        ]
    );
    assert_eq!(
        WorkspaceConfig::workspace_config_dir(&home(), None, ""),
        vec!["home", "user", ".symposium", "config", "root-e3b0c44298fc1c14"]
    );
}

fn builtin(name: &str) -> ComponentSource {
    ComponentSource::Builtin(name.to_string())
}

#[test]
fn a_source_is_configured_once() {
    let config = WorkspaceConfig::new(
        builtin("agent"),
        vec![builtin("a"), builtin("b"), builtin("a")],
    );
    assert_eq!(config.extensions.len(), 2);
    assert_eq!(config.enabled_extensions(), vec![builtin("a"), builtin("b")]);
    let mut config = config;
    config.add_extension(builtin("b"));
    assert_eq!(config.extensions.len(), 2);
    config.add_extension(builtin("c"));
    assert_eq!(config.extensions.len(), 3);
    assert!(config.has_extension(&builtin("c")));
    config.remove_extension(&builtin("a"));
    assert_eq!(config.enabled_extensions(), vec![builtin("b"), builtin("c")]);
    config.remove_extension(&builtin("a"));
    assert_eq!(config.extensions.len(), 2);
}

#[test]
fn extension_state_and_conditions() {
    let mut config = WorkspaceConfig::new(builtin("agent"), vec![builtin("a")]);
    let when = When {
        file_exists: Some("Cargo.toml".to_string()),
        ..Default::default()
    };
    config.add_extension_with_when(builtin("b"), false, Some(when.clone()));
    assert!(!config.is_extension_enabled(&builtin("b")));
    assert_eq!(config.extension_when(&builtin("b")), Some(when.clone()));
    assert_eq!(config.extension_when(&builtin("a")), None);
    assert_eq!(config.extension_when(&builtin("zzz")), None);
    config.set_extension_enabled(&builtin("b"), true);
    assert!(config.is_extension_enabled(&builtin("b")));
    assert_eq!(config.extension_when(&builtin("b")), Some(when.clone()));
    assert!(!config.toggle_extension(&builtin("b")));
    assert_eq!(config.extension_when(&builtin("b")), Some(when.clone()));
    config.set_extension_enabled(&builtin("new"), false);
    assert_eq!(
        config.extensions[2],
        ExtensionConfig {
            source: builtin("new"),
            enabled: false,
            when: None
        }
    );
    config.add_extension_with_when(builtin("a"), false, None);
    assert_eq!(config.extensions.len(), 3);
    assert_eq!(config.enabled_extensions(), Vec::<ComponentSource>::new());
    assert_eq!(
        ExtensionConfig::enabled_with_when(builtin("x"), None),
        ExtensionConfig {
            source: builtin("x"),
            enabled: true,
            when: None
        }
    );
    assert!(!ExtensionConfig::disabled_with_when(builtin("x"), Some(when)).enabled);
    assert_eq!(GlobalAgentConfig::new(builtin("x")).agent, builtin("x"));
}

#[test]
fn sources_are_the_same_by_all_their_parts() {
    let cargo = |version: Option<&str>, args: Vec<&str>| {
        ComponentSource::Cargo(CargoDistribution {
            crate_name: "sparkle-mcp".to_string(),
            version: version.map(|v| v.to_string()),
            binary: None,
            args: args.into_iter().map(|a| a.to_string()).collect(),
        })
    };
    assert!(cargo(None, vec!["--acp"]).same(&cargo(None, vec!["--acp"])));
    assert!(!cargo(None, vec!["--acp"]).same(&cargo(None, vec![])));
    assert!(!cargo(Some("1"), vec![]).same(&cargo(None, vec![])));
    assert!(!cargo(None, vec![]).same(&builtin("sparkle-mcp")));
    assert_eq!(cargo(None, vec![]).display_name(), "sparkle-mcp");
    let npx = |env: Vec<(&str, &str)>| {
        ComponentSource::Npx(NpxDistribution {
            package: "pkg".to_string(),
            args: vec![],
            env: env
                .into_iter()
                .map(|(k, v)| (k.to_string(), v.to_string()))
                .collect(),
        })
    };
    assert!(npx(vec![("A", "1")]).same(&npx(vec![("A", "1")])));
    assert!(!npx(vec![("A", "1")]).same(&npx(vec![("A", "2")])));
    assert!(!npx(vec![("A", "1")]).same(&npx(vec![])));
    assert_eq!(npx(vec![]).display_name(), "pkg");
    assert_eq!(npx(vec![("A", "1")]).clone(), npx(vec![("A", "1")]));
}

#[test]
fn user_config_starts_with_all_proxies() {
    let config = SymposiumUserConfig::with_agent("npx -y some-agent");
    assert_eq!(config.agent, "npx -y some-agent");
    assert_eq!(config.enabled_proxies(), vec!["sparkle", "ferris", "cargo"]);
    let mut config = config;
    config.proxies[1].enabled = false;
    config.proxies.push(ProxyEntry {
        name: "extra".to_string(),
        enabled: true,
    });
    assert_eq!(config.enabled_proxies(), vec!["sparkle", "cargo", "extra"]);
}

#[test]
fn agent_command_is_split_as_a_shell_does() {
    let config = SymposiumUserConfig::with_agent("npx -y 'my agent' --flag=\"a b\"");
    assert_eq!(
        config.agent_args(),
        Ok(vec![
            "npx".to_string(),
            "-y".to_string(),
            "my agent".to_string(),
            "--flag=a b".to_string()
        ])
    );
    let open = SymposiumUserConfig::with_agent("npx 'unclosed");
    assert_eq!(
        open.agent_args(),
        Err("Failed to parse agent command: missing closing quote".to_string())
    );
}
