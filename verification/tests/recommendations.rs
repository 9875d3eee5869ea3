use symposium::recommendations::{Recommendation, RecommendationDiff, WorkspaceRecommendations};
use symposium::source::ComponentSource;
use symposium::user_config::{ExtensionConfig, WorkspaceConfig};
use symposium::when::{GrepCondition, When, WorkspaceFacts};
use symposium::workspace::{is_using_crate, Metadata, Package, SourceFile};

fn make_workspace_recs(extensions: Vec<(&str, Option<When>)>) -> WorkspaceRecommendations {
    WorkspaceRecommendations {
        extensions: extensions
            .into_iter()
            .map(|(name, when)| Recommendation {
                source: ComponentSource::Builtin(name.to_string()),
                when,
            })
            .collect(),
    }
}

#[test]
fn test_diff_new_recommendations() {
    let recs = make_workspace_recs(vec![
        (
            "foo",
            Some(When {
                file_exists: Some("Cargo.toml".to_string()),
                ..Default::default()
            }),
        ),
        ("bar", None),
    ]);
    let config = WorkspaceConfig::new(ComponentSource::Builtin("agent".to_string()), vec![]);

    let diff = RecommendationDiff::compute(&recs, &config);

    assert_eq!(diff.new.len(), 2);
    assert!(diff.stale.is_empty());
    assert!(diff.has_changes());
    assert!(diff.is_new_only());
}

#[test]
fn test_diff_stale_extensions() {
    let recs = make_workspace_recs(vec![]);
    let mut config = WorkspaceConfig::new(ComponentSource::Builtin("agent".to_string()), vec![]);

    config.extensions.push(ExtensionConfig {
        source: ComponentSource::Builtin("old-ext".to_string()),
        enabled: true,
        when: Some(When {
            file_exists: Some("old.txt".to_string()),
            ..Default::default()
        }),
    });

    let diff = RecommendationDiff::compute(&recs, &config);

    assert!(diff.new.is_empty());
    assert_eq!(diff.stale.len(), 1);
    assert_eq!(
        diff.stale[0].source,
        ComponentSource::Builtin("old-ext".to_string())
    );
    assert!(diff.has_changes());
    assert!(diff.is_stale_only());
}

#[test]
fn test_diff_no_changes_when_in_sync() {
    let recs = make_workspace_recs(vec![("foo", None)]);
    let mut config = WorkspaceConfig::new(ComponentSource::Builtin("agent".to_string()), vec![]);

    config.extensions.push(ExtensionConfig {
        source: ComponentSource::Builtin("foo".to_string()),
        enabled: true,
        when: None,
    });

    let diff = RecommendationDiff::compute(&recs, &config);

    assert!(diff.new.is_empty());
    assert!(diff.stale.is_empty());
    assert!(!diff.has_changes());
}

#[test]
fn test_diff_disabled_extension_not_new() {
    let recs = make_workspace_recs(vec![("foo", None)]);
    let mut config = WorkspaceConfig::new(ComponentSource::Builtin("agent".to_string()), vec![]);
    config.extensions.push(ExtensionConfig {
        source: ComponentSource::Builtin("foo".to_string()),
        enabled: false,
        when: None,
    });

    let diff = RecommendationDiff::compute(&recs, &config);

    assert!(diff.new.is_empty());
    assert!(diff.stale.is_empty());
    assert!(!diff.has_changes());
}

#[test]
fn test_diff_toggle() {
    let recs = make_workspace_recs(vec![("foo", None), ("bar", None)]);
    let config = WorkspaceConfig::new(ComponentSource::Builtin("agent".to_string()), vec![]);

    let mut diff = RecommendationDiff::compute(&recs, &config);

    assert!(diff.new[0].accepted);
    assert!(diff.new[1].accepted);

    diff.toggle(1).unwrap();
    assert!(!diff.new[0].accepted);
    assert!(diff.new[1].accepted);

    diff.toggle(1).unwrap();
    assert!(diff.new[0].accepted);

    assert!(diff.toggle(0).is_err());
    assert!(diff.toggle(3).is_err());
}

#[test]
fn test_diff_apply_save() {
    let recs = make_workspace_recs(vec![("foo", None), ("bar", None)]);
    let mut config = WorkspaceConfig::new(ComponentSource::Builtin("agent".to_string()), vec![]);

    config.extensions.push(ExtensionConfig {
        source: ComponentSource::Builtin("old".to_string()),
        enabled: true,
        when: None,
    });

    let mut diff = RecommendationDiff::compute(&recs, &config);
    diff.toggle(2).unwrap();

    diff.apply_save(&mut config);

    let foo_source = ComponentSource::Builtin("foo".to_string());
    let foo_ext = config.extensions.iter().find(|e| e.source == foo_source);
    assert!(foo_ext.is_some() && foo_ext.unwrap().enabled);
    let bar_source = ComponentSource::Builtin("bar".to_string());
    let bar_ext = config.extensions.iter().find(|e| e.source == bar_source);
    assert!(bar_ext.is_some() && !bar_ext.unwrap().enabled);
    let old_source = ComponentSource::Builtin("old".to_string());
    assert!(!config.extensions.iter().any(|e| e.source == old_source));
}

#[test]
fn test_diff_apply_ignore() {
    let recs = make_workspace_recs(vec![("foo", None)]);
    let mut config = WorkspaceConfig::new(ComponentSource::Builtin("agent".to_string()), vec![]);
    config.extensions.push(ExtensionConfig {
        source: ComponentSource::Builtin("old".to_string()),
        enabled: true,
        when: None,
    });

    let diff = RecommendationDiff::compute(&recs, &config);
    diff.apply_ignore(&mut config);

    let foo_source = ComponentSource::Builtin("foo".to_string());
    assert!(!config.extensions.iter().any(|e| e.source == foo_source));
    let old_source = ComponentSource::Builtin("old".to_string());
    assert!(!config.extensions.iter().any(|e| e.source == old_source));
}

#[test]
fn test_when_explanations() {
    let when = When {
        file_exists: Some("Cargo.toml".to_string()),
        ..Default::default()
    };
    let added = when.explain_why_added();
    assert_eq!(added, vec!["because `Cargo.toml` exists"]);

    let stale = when.explain_why_stale();
    assert_eq!(stale, vec!["because `Cargo.toml` no longer exists"]);
}

#[test]
fn test_explain_why_added() {
    let when = When {
        file_exists: Some("Cargo.toml".to_string()),
        using_crate: Some("serde".to_string()),
        ..Default::default()
    };

    let reasons = when.explain_why_added();
    assert_eq!(reasons.len(), 2);
    assert!(reasons[0].contains("Cargo.toml"));
    assert!(reasons[1].contains("serde"));
}

fn file(name: &str) -> When {
    When {
        file_exists: Some(name.to_string()),
        ..Default::default()
    }
}

fn package(name: &str, dependencies: &[&str]) -> Package {
    Package {
        id: format!("{} 0.1.0", name),
        name: name.to_string(),
        dependencies: dependencies.iter().map(|s| s.to_string()).collect(),
    }
}

fn facts(files: &[&str], crates: &[&str]) -> WorkspaceFacts {
    WorkspaceFacts {
        existing_files: files.iter().map(|s| s.to_string()).collect(),
        metadata: Some(Metadata {
            workspace_members: vec!["test-project 0.1.0".to_string()],
            packages: vec![package("test-project", crates)],
        }),
        files: vec![],
    }
}

#[test]
fn conditions_that_are_present_must_all_hold() {
    let when = When {
        file_exists: Some("Cargo.toml".to_string()),
        files_exist: Some(vec!["src/lib.rs".to_string()]),
        ..Default::default()
    };
    assert!(!when.is_met(&facts(&[], &[])));
    assert!(!when.is_met(&facts(&["Cargo.toml"], &[])));
    assert!(when.is_met(&facts(&["Cargo.toml", "src/lib.rs"], &[])));
    assert!(When::default().is_met(&facts(&[], &[])));
}

#[test]
fn any_holds_where_one_condition_does() {
    let when = When {
        any: Some(vec![file("Cargo.toml"), file("package.json")]),
        ..Default::default()
    };
    assert!(!when.is_met(&facts(&[], &[])));
    assert!(when.is_met(&facts(&["Cargo.toml"], &[])));
    assert!(when.is_met(&facts(&["package.json"], &[])));
    let none = When {
        any: Some(vec![]),
        ..Default::default()
    };
    assert!(!none.is_met(&facts(&["Cargo.toml"], &[])));
}

#[test]
fn all_holds_where_each_condition_does() {
    let when = When {
        all: Some(vec![file("a"), file("b")]),
        using_crates: Some(vec!["serde".to_string(), "anyhow".to_string()]),
        ..Default::default()
    };
    assert!(!when.is_met(&facts(&["a", "b"], &["serde"])));
    assert!(!when.is_met(&facts(&["a"], &["serde", "anyhow"])));
    assert!(when.is_met(&facts(&["a", "b"], &["serde", "anyhow"])));
}

#[test]
fn test_grep_condition() {
    let mut known = facts(&[], &[]);
    known.files.push(SourceFile {
        path: "test.rs".to_string(),
        contents: Some("\nfn main() {\n    println!(\"Hello, world!\");\n}\n".to_string()),
    });

    let grep = GrepCondition {
        pattern: r"println!".to_string(),
        path: Some("**/*.rs".to_string()),
    };
    assert!(grep.is_met(&known));

    let grep = GrepCondition {
        pattern: r"eprintln!".to_string(),
        path: Some("**/*.rs".to_string()),
    };
    assert!(!grep.is_met(&known));

    let grep = GrepCondition {
        pattern: r"println!".to_string(),
        path: Some("**/*.py".to_string()),
    };
    assert!(!grep.is_met(&known));

    let grep = GrepCondition {
        pattern: r"println!".to_string(),
        path: None,
    };
    assert!(grep.is_met(&known));
}

#[test]
fn grep_needs_a_pattern_a_glob_and_a_readable_file() {
    let mut known = facts(&[], &[]);
    known.files.push(SourceFile {
        path: "src/bin/tool.rs".to_string(),
        contents: None,
    });
    known.files.push(SourceFile {
        path: "src/lib.rs".to_string(),
        contents: Some("pub fn answer() -> u32 { 42 }".to_string()),
    });
    let grep = |pattern: &str, path: Option<&str>| GrepCondition {
        pattern: pattern.to_string(),
        path: path.map(|p| p.to_string()),
    };
    assert!(grep(r"fn \w+\(\)", Some("src/*.rs")).is_met(&known));
    assert!(grep(r"^pub", None).is_met(&known));
    assert!(!grep(r"fn \w+\(\)", Some("src/bin/*.rs")).is_met(&known));
    assert!(!grep(r"(unclosed", None).is_met(&known));
    assert!(!grep(r"pub", Some("[")).is_met(&known));
    assert!(!grep(r"pub", None).is_met(&facts(&[], &[])));
    let when = When {
        grep: Some(grep("answer", Some("**/*.rs"))),
        file_exists: Some("Cargo.toml".to_string()),
        ..Default::default()
    };
    assert!(!when.is_met(&known));
    known.existing_files.push("Cargo.toml".to_string());
    assert!(when.is_met(&known));
}

#[test]
fn test_using_crate_condition() {
    let known = facts(&["Cargo.toml"], &["serde"]);

    let when = When {
        using_crate: Some("serde".to_string()),
        ..Default::default()
    };
    assert!(when.is_met(&known));

    let when = When {
        using_crate: Some("tokio".to_string()),
        ..Default::default()
    };
    assert!(!when.is_met(&known));
}

#[test]
fn test_using_crates_condition() {
    let known = facts(&["Cargo.toml"], &["serde", "anyhow"]);

    let when = When {
        using_crates: Some(vec!["serde".to_string(), "anyhow".to_string()]),
        ..Default::default()
    };
    assert!(when.is_met(&known));

    let when = When {
        using_crates: Some(vec!["serde".to_string(), "tokio".to_string()]),
        ..Default::default()
    };
    assert!(!when.is_met(&known));
}

#[test]
fn battery_packs_are_looked_into() {
    let metadata = Some(Metadata {
        workspace_members: vec![
            "missing 0.1.0".to_string(),
            "app 0.1.0".to_string(),
        ],
        packages: vec![
            package("app", &["anyhow", "cli-battery-pack"]),
            package("cli-battery-pack", &["clap", "loop-battery-pack", "gone-battery-pack"]),
            package("loop-battery-pack", &["cli-battery-pack", "indicatif"]),
            package("clap", &["clap_lex"]),
            package("elsewhere", &["regex"]),
        ],
    });
    assert!(is_using_crate(&metadata, "anyhow"));
    assert!(is_using_crate(&metadata, "clap"));
    assert!(is_using_crate(&metadata, "cli-battery-pack"));
    assert!(is_using_crate(&metadata, "indicatif"));
    assert!(!is_using_crate(&metadata, "clap_lex"));
    assert!(!is_using_crate(&metadata, "regex"));
    assert!(!is_using_crate(&metadata, "app"));
    assert!(!is_using_crate(&None, "anyhow"));
}

#[test]
fn explanations_of_nested_conditions() {
    let when = When {
        using_crates: Some(vec!["serde".to_string(), "tokio".to_string()]),
        grep: Some(GrepCondition {
            pattern: "fn main".to_string(),
            path: None,
        }),
        any: Some(vec![When::default(), file("a"), file("b")]),
        all: Some(vec![file("c"), file("d")]),
        ..Default::default()
    };
    assert_eq!(
        when.explain_why_added(),
        vec![
            "because using crate `serde`",
            "because using crate `tokio`",
            "because `fn main` found in `*`",
            "because `a` exists",
            "because `c` exists",
            "because `d` exists",
        ]
    );
    assert_eq!(
        when.explain_why_stale(),
        vec![
            "because no longer using crate `serde`",
            "because no longer using crate `tokio`",
            "because `fn main` no longer found in `*`",
            "because `a` no longer exists",
            "because `b` no longer exists",
            "because `c` no longer exists",
        ]
    );
}

#[test]
fn new_recommendation_is_shown_with_its_reasons() {
    let recs = make_workspace_recs(vec![
        (
            "foo",
            Some(When {
                file_exists: Some("Cargo.toml".to_string()),
                using_crate: Some("serde".to_string()),
                ..Default::default()
            }),
        ),
        ("bar", None),
    ]);
    let config = WorkspaceConfig::new(ComponentSource::Builtin("agent".to_string()), vec![]);
    let mut diff = RecommendationDiff::compute(&recs, &config);
    assert_eq!(
        diff.new[0].format_display(1),
        "1. ADD foo [because `Cargo.toml` exists, because using crate `serde`]"
    );
    assert_eq!(diff.new[1].format_display(2), "2. ADD bar");
    diff.toggle(1).unwrap();
    diff.toggle(2).unwrap();
    assert_eq!(
        diff.new[0].format_display(1),
        "1. IGNORE foo [even though `Cargo.toml` exists, because using crate `serde`]"
    );
    assert_eq!(diff.new[1].format_display(12), "12. IGNORE bar");
    assert_eq!(
        diff.new[0].recommendation.format_added_explanation(),
        "[because `Cargo.toml` exists, because using crate `serde`]"
    );
    assert_eq!(
        diff.new[0].recommendation.format_stale_explanation(),
        "[because `Cargo.toml` no longer exists, because no longer using crate `serde`]"
    );
    assert_eq!(diff.new[1].recommendation.format_added_explanation(), "");
    assert_eq!(diff.new[0].recommendation.display_name(), "foo");
}

#[test]
fn toggle_refuses_an_index_out_of_range() {
    let recs = make_workspace_recs(vec![("foo", None), ("bar", None)]);
    let config = WorkspaceConfig::new(ComponentSource::Builtin("agent".to_string()), vec![]);
    let mut diff = RecommendationDiff::compute(&recs, &config);
    assert_eq!(
        diff.toggle(0),
        Err("Invalid index 0. Valid range is 1-2".to_string())
    );
    assert_eq!(
        diff.toggle(3),
        Err("Invalid index 3. Valid range is 1-2".to_string())
    );
    assert_eq!(diff.new_len(), Some(2));
}

#[test]
fn prompt_lists_new_and_stale() {
    let recs = make_workspace_recs(vec![("foo", Some(file("Cargo.toml")))]);
    let mut config = WorkspaceConfig::new(ComponentSource::Builtin("agent".to_string()), vec![]);
    config.extensions.push(ExtensionConfig {
        source: ComponentSource::Builtin("old".to_string()),
        enabled: true,
        when: Some(file("old.txt")),
    });
    let diff = RecommendationDiff::compute(&recs, &config);
    let expected = "The following agent extensions are recommended:\n\
\n\
1. ADD foo [because `Cargo.toml` exists]\n\
\n\
The following agent extensions are stale and will be removed:\n\
\n\
- old is stale [because `old.txt` no longer exists]\n\
\n\
How would you like to proceed?\n\
\n\
* SAVE the new recommendations\n\
* IGNORE all new recommendations (you can add them later)\n\
* 1...1 toggle the status of a specific recommendation";
    assert_eq!(diff.format_prompt(), expected);
    assert_eq!(
        diff.stale[0].format_display(),
        "- old is stale [because `old.txt` no longer exists]"
    );
}

#[test]
fn prompt_of_stale_only() {
    let recs = make_workspace_recs(vec![]);
    let mut config = WorkspaceConfig::new(ComponentSource::Builtin("agent".to_string()), vec![]);
    config.extensions.push(ExtensionConfig {
        source: ComponentSource::Builtin("old".to_string()),
        enabled: true,
        when: None,
    });
    let diff = RecommendationDiff::compute(&recs, &config);
    assert_eq!(diff.new_len(), None);
    let expected = "The following agent extensions are stale and will be removed:\n\
\n\
- old is stale\n\
\n\
How would you like to proceed?\n\
\n\
* SAVE the new recommendations\n\
* IGNORE all new recommendations (you can add them later)";
    assert_eq!(diff.format_prompt(), expected);
    diff.apply_stale_removal(&mut config);
    assert!(config.extensions.is_empty());
}

#[test]
fn recommendations_are_filtered_by_workspace() {
    let all = symposium::recommendations::Recommendations {
        extensions: vec![
            Recommendation {
                source: ComponentSource::Builtin("always-on".to_string()),
                when: None,
            },
            Recommendation {
                source: ComponentSource::Builtin("rust-only".to_string()),
                when: Some(file("Cargo.toml")),
            },
        ],
    };
    let without = all.for_workspace(&facts(&[], &[]));
    assert_eq!(without.extensions.len(), 1);
    assert_eq!(without.extensions[0].display_name(), "always-on");
    let with = all.for_workspace(&facts(&["Cargo.toml"], &[]));
    assert_eq!(with.extensions.len(), 2);
    assert_eq!(
        with.extension_sources(),
        vec![
            ComponentSource::Builtin("always-on".to_string()),
            ComponentSource::Builtin("rust-only".to_string()),
        ]
    );
    let found = with.get_recommendation(&ComponentSource::Builtin("rust-only".to_string()));
    assert!(found.is_some() && found.unwrap().when.is_some());
    assert!(with
        .get_recommendation(&ComponentSource::Builtin("other".to_string()))
        .is_none());
    assert!(symposium::recommendations::Recommendations::empty()
        .extensions
        .is_empty());
}
