use wcore_config::config::{
    apply_profile, dropped_hooks, effective_file, merge_config_files, resolve_profile,
    stamp_overrides,
    ApprovalMode, CliArgs, ConfigFile, DefaultConfig, McpConfig, McpServerConfig, MemoryConfig,
    ObservabilityConfig, ProfileConfig, ProfileResolveError, SkillsPermissionConfig, ToolsConfig,
    TransportType,
};
use wcore_config::crucible::CrucibleConfig;
use wcore_config::file_cache::FileCacheConfig;
use wcore_config::hooks::{HookDef, HooksConfig};
use wcore_config::table::StrMap;

const STOCK_DIR: &str = "genesis-core/genesis-core/sessions";

fn mcp_server(only_for: Option<Vec<String>>) -> McpServerConfig {
    McpServerConfig {
        transport: TransportType::Stdio,
        command: Some("echo".into()),
        args: None,
        env: None,
        url: None,
        headers: None,
        deferred: None,
        allow_local: false,
        only_for_assistant: only_for,
    }
}

fn with_memory(enabled: bool) -> ConfigFile {
    ConfigFile {
        memory: Some(MemoryConfig {
            enabled,
            ..MemoryConfig::default()
        }),
        ..ConfigFile::default()
    }
}

fn cfg_with(
    approval: ApprovalMode,
    auto_approve: bool,
    allow_no_sandbox: Option<bool>,
) -> ConfigFile {
    ConfigFile {
        default: DefaultConfig {
            approval_mode: approval,
            ..Default::default()
        },
        tools: ToolsConfig {
            auto_approve,
            allow_no_sandbox,
            ..Default::default()
        },
        ..Default::default()
    }
}

fn test_hook(name: &str) -> HookDef {
    HookDef {
        name: name.into(),
        tool_match: vec![],
        file_match: vec![],
        command: "echo hi".into(),
        timeout_ms: 30_000,
    }
}

#[test]
fn unmarked_server_is_visible_to_everyone() {
    let s = mcp_server(None);
    assert!(s.is_visible_to_assistant(None), "unmarked = global");
    assert!(s.is_visible_to_assistant(Some("concierge")));
    assert!(mcp_server(Some(vec![])).is_visible_to_assistant(None));
}

#[test]
fn marked_server_is_fail_closed() {
    let s = mcp_server(Some(vec!["concierge".into()]));
    assert!(
        !s.is_visible_to_assistant(None),
        "marked server must NOT leak to an unidentified session"
    );
    assert!(
        !s.is_visible_to_assistant(Some("default")),
        "marked server must NOT show for a non-matching assistant"
    );
    assert!(s.is_visible_to_assistant(Some("concierge")));
}

#[test]
fn servers_for_assistant_filters_by_allow_list() {
    let mut cfg = McpConfig::default();
    cfg.servers.insert("global".into(), mcp_server(None));
    cfg.servers
        .insert("diag".into(), mcp_server(Some(vec!["concierge".into()])));

    let for_concierge = cfg.servers_for_assistant(Some("concierge"));
    assert!(for_concierge.contains_key("global"));
    assert!(for_concierge.contains_key("diag"));

    let for_default = cfg.servers_for_assistant(Some("default"));
    assert!(for_default.contains_key("global"));
    assert!(
        !for_default.contains_key("diag"),
        "scoped server must be filtered out"
    );

    let for_none = cfg.servers_for_assistant(None);
    assert!(for_none.contains_key("global"));
    assert!(!for_none.contains_key("diag"));
}

#[test]
fn crucible_block_merges_project_over_global() {
    let global = ConfigFile {
        crucible: CrucibleConfig {
            enabled: true,
            proposers: vec!["openai".to_string()],
            ..Default::default()
        },
        ..Default::default()
    };
    let project = ConfigFile {
        crucible: CrucibleConfig {
            enabled: true,
            proposers: vec!["anthropic".to_string(), "gemini".to_string()],
            ..Default::default()
        },
        ..Default::default()
    };
    let merged = merge_config_files(global, project, STOCK_DIR);
    assert_eq!(merged.crucible.proposers, vec!["anthropic", "gemini"]);
}

#[test]
fn crucible_defaults_off_when_absent() {
    let merged = merge_config_files(ConfigFile::default(), ConfigFile::default(), STOCK_DIR);
    assert!(!merged.crucible.enabled);
    assert!(merged.crucible.proposers.is_empty());
}

#[test]
fn test_merge_config_cli_overrides_file() {
    let global = ConfigFile {
        default: DefaultConfig {
            provider: "anthropic".to_string(),
            model: Some("global-model".to_string()),
            max_tokens: 4096,
            max_turns: Some(10),
            system_prompt: Some("global prompt".to_string()),
            approval_mode: ApprovalMode::default(),
            user: None,
            read_only: false,
        },
        ..Default::default()
    };
    let project = ConfigFile {
        default: DefaultConfig {
            provider: "openai".to_string(),
            model: Some("project-model".to_string()),
            max_tokens: 2048,
            max_turns: Some(5),
            system_prompt: Some("project prompt".to_string()),
            approval_mode: ApprovalMode::default(),
            user: None,
            read_only: false,
        },
        ..Default::default()
    };

    let merged = merge_config_files(global, project, STOCK_DIR);

    assert_eq!(merged.default.provider, "openai");
    assert_eq!(merged.default.model, Some("project-model".to_string()));
    assert_eq!(merged.default.max_tokens, 2048);
    assert_eq!(merged.default.max_turns, Some(5));
    assert_eq!(
        merged.default.system_prompt,
        Some("project prompt".to_string())
    );
}

#[test]
fn test_merge_config_file_provides_defaults() {
    let global = ConfigFile {
        default: DefaultConfig {
            provider: "openai".to_string(),
            model: Some("global-model".to_string()),
            max_tokens: 1024,
            max_turns: Some(5),
            system_prompt: Some("global prompt".to_string()),
            approval_mode: ApprovalMode::default(),
            user: None,
            read_only: false,
        },
        ..Default::default()
    };
    let project = ConfigFile::default();

    let merged = merge_config_files(global, project, STOCK_DIR);

    assert_eq!(merged.default.provider, "openai");
    assert_eq!(merged.default.model, Some("global-model".to_string()));
    assert_eq!(merged.default.max_tokens, 1024);
    assert_eq!(merged.default.max_turns, Some(5));
    assert_eq!(
        merged.default.system_prompt,
        Some("global prompt".to_string())
    );
}

#[test]
fn test_merge_config_empty_file() {
    let merged = merge_config_files(ConfigFile::default(), ConfigFile::default(), STOCK_DIR);

    assert_eq!(merged.default.provider, "anthropic");
    assert_eq!(merged.default.max_tokens, 64000);
    assert_eq!(merged.default.max_turns, None);
    assert!(merged.default.model.is_none());
    assert!(merged.providers.is_empty());
    assert!(merged.profiles.is_empty());
}

#[test]
fn test_merge_project_memory_enabled_overrides_global_disabled() {
    let global: ConfigFile = with_memory(false);
    let project: ConfigFile = with_memory(true);

    let merged = merge_config_files(global, project, STOCK_DIR);

    assert!(
        merged
            .memory
            .expect("project [memory] table is present")
            .enabled,
        "explicit project enabled=true must win over global enabled=false",
    );
}

#[test]
fn test_merge_project_memory_disabled_overrides_global_enabled() {
    let global: ConfigFile = with_memory(true);
    let project: ConfigFile = with_memory(false);

    let merged = merge_config_files(global, project, STOCK_DIR);

    assert!(
        !merged
            .memory
            .expect("project [memory] table is present")
            .enabled,
        "explicit project enabled=false must override global enabled=true",
    );
}

#[test]
fn test_merge_absent_project_memory_inherits_global() {
    let global: ConfigFile =
        ConfigFile {
        memory: Some(MemoryConfig {
            enabled: false,
            decay_interval_secs: 99,
            ..MemoryConfig::default()
        }),
        ..ConfigFile::default()
    };
    let project: ConfigFile = ConfigFile::default();
    assert!(
        project.memory.is_none(),
        "no [memory] table ⇒ None ⇒ inherit global"
    );

    let merged = merge_config_files(global, project, STOCK_DIR);
    let mem = merged.memory.expect("global [memory] inherited");
    assert!(!mem.enabled);
    assert_eq!(mem.decay_interval_secs, 99);
}

#[test]
fn test_profile_inheritance() {
    let mut profiles = StrMap::new();
    profiles.insert(
        "parent".to_string(),
        ProfileConfig {
            provider: Some("anthropic".to_string()),
            model: Some("model-3".to_string()),
            max_tokens: Some(4096),
            ..Default::default()
        },
    );
    profiles.insert(
        "child".to_string(),
        ProfileConfig {
            model: Some("model-4".to_string()),
            extends: Some("parent".to_string()),
            ..Default::default()
        },
    );

    let mut visited = Vec::new();
    let result = resolve_profile(&profiles, "child", &mut visited).unwrap();

    assert_eq!(result.model, Some("model-4".to_string()));
    assert_eq!(result.provider, Some("anthropic".to_string()));
    assert_eq!(result.max_tokens, Some(4096));
    assert!(result.extends.is_none());
}

#[test]
fn test_profile_cycle_detection() {
    let mut profiles = StrMap::new();
    profiles.insert(
        "a".to_string(),
        ProfileConfig {
            extends: Some("b".to_string()),
            ..Default::default()
        },
    );
    profiles.insert(
        "b".to_string(),
        ProfileConfig {
            extends: Some("a".to_string()),
            ..Default::default()
        },
    );

    let mut visited = Vec::new();
    let result = resolve_profile(&profiles, "a", &mut visited);

    assert!(result.is_err());
    let msg = result.unwrap_err().message();
    assert!(msg.contains("Circular profile inheritance"));
}

#[test]
fn test_profile_not_found() {
    let profiles: StrMap<ProfileConfig> = StrMap::new();
    let mut visited = Vec::new();
    let result = resolve_profile(&profiles, "nonexistent", &mut visited);

    assert!(result.is_err());
    let msg = result.unwrap_err().message();
    assert!(msg.contains("nonexistent"));
}

#[test]
fn test_merge_config_global_auto_approve_preserved_with_project_allow_list() {
    let global = ConfigFile {
        tools: ToolsConfig {
            auto_approve: true,
            ..Default::default()
        },
        ..Default::default()
    };
    let project = ConfigFile {
        tools: ToolsConfig {
            allow_list: vec!["Bash".into()],
            ..Default::default()
        },
        ..Default::default()
    };
    let merged = merge_config_files(global, project, STOCK_DIR);
    assert!(
        merged.tools.auto_approve,
        "global auto_approve=true should be preserved"
    );
}

#[test]
fn ghsa_project_cannot_enable_auto_approve() {
    let global = cfg_with(ApprovalMode::Default, false, None);
    let project = cfg_with(ApprovalMode::Default, true, None);
    let merged = merge_config_files(global, project, STOCK_DIR);
    assert!(
        !merged.tools.auto_approve,
        "a project must not be able to enable auto_approve when global has it off"
    );
}

#[test]
fn ghsa_project_cannot_loosen_approval_mode() {
    let global = cfg_with(ApprovalMode::Default, false, None);
    let project = cfg_with(ApprovalMode::Force, false, None);
    let merged = merge_config_files(global, project, STOCK_DIR);
    assert_eq!(
        merged.default.approval_mode,
        ApprovalMode::Default,
        "a project Force must not loosen a global Default posture"
    );
}

#[test]
fn ghsa_project_can_tighten_approval_mode() {
    let global = cfg_with(ApprovalMode::Force, false, None);
    let project = cfg_with(ApprovalMode::AutoEdit, false, None);
    let merged = merge_config_files(global, project, STOCK_DIR);
    assert_eq!(
        merged.default.approval_mode,
        ApprovalMode::AutoEdit,
        "a project may tighten a looser global posture"
    );
}

#[test]
fn ghsa_project_cannot_enable_allow_no_sandbox() {
    let global = cfg_with(ApprovalMode::Default, false, None);
    let project = cfg_with(ApprovalMode::Default, false, Some(true));
    let merged = merge_config_files(global, project, STOCK_DIR);
    assert_ne!(
        merged.tools.allow_no_sandbox,
        Some(true),
        "a project must not enable allow_no_sandbox when global does not"
    );
}

#[test]
fn ghsa_project_allow_no_sandbox_honored_when_global_allows() {
    let global = cfg_with(ApprovalMode::Default, false, Some(true));
    let project = cfg_with(ApprovalMode::Default, false, Some(true));
    let merged = merge_config_files(global, project, STOCK_DIR);
    assert_eq!(
        merged.tools.allow_no_sandbox,
        Some(true),
        "with global consent already granted, the project value is honored"
    );
}

#[test]
fn ghsa_project_can_tighten_allow_no_sandbox() {
    let global = cfg_with(ApprovalMode::Default, false, Some(true));
    let project = cfg_with(ApprovalMode::Default, false, Some(false));
    let merged = merge_config_files(global, project, STOCK_DIR);
    assert_eq!(
        merged.tools.allow_no_sandbox,
        Some(false),
        "a project may tighten allow_no_sandbox from a permissive global"
    );
}

#[test]
fn ghsa_project_cannot_expand_allow_list() {
    let global = ConfigFile {
        tools: ToolsConfig {
            allow_list: vec!["Read".into(), "Grep".into()],
            ..Default::default()
        },
        ..Default::default()
    };
    let project = ConfigFile {
        tools: ToolsConfig {
            allow_list: vec!["Read".into(), "Bash".into(), "Write".into()],
            ..Default::default()
        },
        ..Default::default()
    };
    let merged = merge_config_files(global, project, STOCK_DIR);
    assert!(
        !merged.tools.allow_list.contains(&"Bash".to_string()),
        "a project must not add Bash to the approval-skip list"
    );
    assert!(!merged.tools.allow_list.contains(&"Write".to_string()));
    assert!(
        merged.tools.allow_list.contains(&"Read".to_string()),
        "a tool approved by both survives"
    );
}

#[test]
fn ghsa_project_can_narrow_allow_list() {
    let global = ConfigFile {
        tools: ToolsConfig {
            allow_list: vec!["Read".into(), "Grep".into(), "Glob".into()],
            ..Default::default()
        },
        ..Default::default()
    };
    let project = ConfigFile {
        tools: ToolsConfig {
            allow_list: vec!["Read".into()],
            ..Default::default()
        },
        ..Default::default()
    };
    let merged = merge_config_files(global, project, STOCK_DIR);
    assert_eq!(
        merged.tools.allow_list,
        vec!["Read".to_string()],
        "a project may narrow the approved set to a subset of global"
    );
}

#[test]
fn ghsa_project_hooks_dropped_by_default() {
    let global = ConfigFile::default();
    let project = ConfigFile {
        hooks: HooksConfig {
            pre_tool_use: vec![test_hook("evil")],
            ..Default::default()
        },
        ..Default::default()
    };
    let merged = merge_config_files(global, project, STOCK_DIR);
    assert!(
        merged.hooks.pre_tool_use.is_empty(),
        "a project hook (arbitrary command) must not run without operator opt-in"
    );
}

#[test]
fn ghsa_project_hooks_run_when_operator_opts_in() {
    let global = ConfigFile {
        hooks: HooksConfig {
            trust_project_hooks: true,
            ..Default::default()
        },
        ..Default::default()
    };
    let project = ConfigFile {
        hooks: HooksConfig {
            pre_tool_use: vec![test_hook("lint")],
            ..Default::default()
        },
        ..Default::default()
    };
    let merged = merge_config_files(global, project, STOCK_DIR);
    assert_eq!(
        merged.hooks.pre_tool_use.len(),
        1,
        "with the operator's global opt-in, project hooks run"
    );
}

#[test]
fn ghsa_project_cannot_self_authorize_hooks() {
    let global = ConfigFile::default();
    let project = ConfigFile {
        hooks: HooksConfig {
            pre_tool_use: vec![test_hook("evil")],
            trust_project_hooks: true,
            ..Default::default()
        },
        ..Default::default()
    };
    let merged = merge_config_files(global, project, STOCK_DIR);
    assert!(
        merged.hooks.pre_tool_use.is_empty(),
        "a project cannot authorize its own hooks by setting trust_project_hooks"
    );
    assert!(
        !merged.hooks.trust_project_hooks,
        "the project's trust flag is ignored; only the global value is honored"
    );
}

#[test]
fn ghsa_global_hooks_always_run() {
    let global = ConfigFile {
        hooks: HooksConfig {
            pre_tool_use: vec![test_hook("global-lint")],
            ..Default::default()
        },
        ..Default::default()
    };
    let project = ConfigFile::default();
    let merged = merge_config_files(global, project, STOCK_DIR);
    assert_eq!(
        merged.hooks.pre_tool_use.len(),
        1,
        "the operator's own global hooks always run"
    );
}

#[test]
fn p5_14_merge_skills_concat() {
    let global = ConfigFile {
        tools: ToolsConfig {
            skills: SkillsPermissionConfig {
                deny: vec!["global-deny".to_string()],
                allow: vec!["global-allow".to_string()],
            },
            ..Default::default()
        },
        ..Default::default()
    };
    let project = ConfigFile {
        tools: ToolsConfig {
            skills: SkillsPermissionConfig {
                deny: vec!["project-deny".to_string()],
                allow: vec!["project-allow".to_string()],
            },
            ..Default::default()
        },
        ..Default::default()
    };

    let merged = merge_config_files(global, project, STOCK_DIR);
    assert_eq!(
        merged.tools.skills.deny,
        vec!["global-deny".to_string(), "project-deny".to_string()]
    );
    assert_eq!(
        merged.tools.skills.allow,
        vec!["global-allow".to_string(), "project-allow".to_string()]
    );
}

#[test]
fn merge_file_cache_project_overrides_global() {
    let global = ConfigFile {
        file_cache: FileCacheConfig {
            max_entries: 200,
            max_size_bytes: 50 * 1024 * 1024,
            enabled: true,
        },
        ..Default::default()
    };
    let project = ConfigFile {
        file_cache: FileCacheConfig {
            max_entries: 50,
            ..Default::default()
        },
        ..Default::default()
    };

    let merged = merge_config_files(global, project, STOCK_DIR);
    assert_eq!(
        merged.file_cache.max_entries, 50,
        "project non-default max_entries should override global"
    );
}

#[test]
fn merge_file_cache_global_preserved_when_project_default() {
    let global = ConfigFile {
        file_cache: FileCacheConfig {
            max_entries: 200,
            max_size_bytes: 50 * 1024 * 1024,
            enabled: true,
        },
        ..Default::default()
    };
    let project = ConfigFile::default();

    let merged = merge_config_files(global, project, STOCK_DIR);
    assert_eq!(
        merged.file_cache.max_entries, 200,
        "global should be preserved when project is all-default"
    );
    assert_eq!(merged.file_cache.max_size_bytes, 50 * 1024 * 1024);
}

#[test]
fn merge_file_cache_project_max_size_bytes_overrides_global() {
    let global = ConfigFile {
        file_cache: FileCacheConfig {
            max_entries: 100,
            max_size_bytes: 50 * 1024 * 1024,
            enabled: true,
        },
        ..Default::default()
    };
    let project = ConfigFile {
        file_cache: FileCacheConfig {
            max_entries: 100,
            max_size_bytes: 10 * 1024 * 1024,
            enabled: true,
        },
        ..Default::default()
    };

    let merged = merge_config_files(global, project, STOCK_DIR);
    assert_eq!(
        merged.file_cache.max_size_bytes,
        10 * 1024 * 1024,
        "project max_size_bytes should override global"
    );
}

#[test]
fn merge_file_cache_disabled_overrides_global() {
    let global = ConfigFile {
        file_cache: FileCacheConfig {
            enabled: true,
            ..Default::default()
        },
        ..Default::default()
    };
    let project = ConfigFile {
        file_cache: FileCacheConfig {
            enabled: false,
            ..Default::default()
        },
        ..Default::default()
    };

    let merged = merge_config_files(global, project, STOCK_DIR);
    assert!(
        !merged.file_cache.enabled,
        "project enabled=false should override global"
    );
}

#[test]
fn approval_mode_wire_strings_round_trip() {
    for m in [
        ApprovalMode::Default,
        ApprovalMode::AutoEdit,
        ApprovalMode::Force,
    ] {
        assert_eq!(ApprovalMode::from_wire(m.as_str()), m);
    }
    assert_eq!(ApprovalMode::Force.as_str(), "force");
    assert_eq!(ApprovalMode::from_wire("garbage"), ApprovalMode::Default);
}

#[test]
fn tc_5_5_02_file_cache_defaults_when_absent() {
    let config: ConfigFile = ConfigFile::default();
    assert_eq!(config.file_cache.max_entries, 100);
    assert_eq!(config.file_cache.max_size_bytes, 25 * 1024 * 1024);
    assert!(config.file_cache.enabled);
}

#[test]
fn observability_structured_traces_defaults_false() {
    let cfg: ConfigFile = ConfigFile::default();
    assert!(!cfg.observability.structured_traces);
}

#[test]
fn p5_14_skills_defaults_to_empty() {
    let config: ConfigFile = ConfigFile::default();
    assert!(config.tools.skills.deny.is_empty());
    assert!(config.tools.skills.allow.is_empty());
}

#[test]
fn test_config_file_deserialize_minimal() {
    let config: ConfigFile = ConfigFile::default();

    assert_eq!(config.default.provider, "anthropic");
    assert_eq!(config.default.max_tokens, 64000);
    assert_eq!(config.default.max_turns, None);
    assert!(config.default.model.is_none());
    assert!(config.providers.is_empty());
    assert!(config.profiles.is_empty());
}

#[test]
fn observability_skills_lifecycle_defaults_true() {
    assert!(
        ConfigFile::default().observability.skills_lifecycle,
        "skills_lifecycle must default ON"
    );
}

#[test]
fn observability_skills_lifecycle_merges_global_and_project() {
    let global = ConfigFile::default();
    let project = ConfigFile {
        observability: ObservabilityConfig {
            skills_lifecycle: true,
            ..Default::default()
        },
        ..Default::default()
    };
    let merged = merge_config_files(global, project, STOCK_DIR);
    assert!(merged.observability.skills_lifecycle);
}

#[test]
fn stock_project_changes_nothing() {
    let mut global = ConfigFile::default();
    global.default.max_tokens = 7;
    global.session.max_sessions = 3;
    global.tools.sandbox = Some("docker".to_string());
    let merged = merge_config_files(global, ConfigFile::default(), STOCK_DIR);
    assert_eq!(merged.default.max_tokens, 7);
    assert_eq!(merged.session.max_sessions, 3);
    assert_eq!(merged.tools.sandbox.as_deref(), Some("docker"));
}

#[test]
fn profile_of_the_command_line_is_applied() {
    let mut global = ConfigFile::default();
    global.profiles.insert(
        "fast".to_string(),
        ProfileConfig {
            model: Some("m".to_string()),
            max_tokens: Some(9),
            ..Default::default()
        },
    );
    let file = effective_file(
        global.clone(),
        ConfigFile::default(),
        STOCK_DIR,
        &Some("fast".to_string()),
    )
    .unwrap();
    assert_eq!(file.default.model.as_deref(), Some("m"));
    assert_eq!(file.default.max_tokens, 9);
    let missing = effective_file(global, ConfigFile::default(), STOCK_DIR, &Some("slow".to_string()));
    assert!(matches!(missing.err(), Some(ProfileResolveError::NotFound(_))));
}

#[test]
fn profile_keeps_the_servers_it_lists() {
    let mut file = ConfigFile::default();
    file.mcp.servers.insert("a".to_string(), mcp_server(None));
    file.mcp.servers.insert("b".to_string(), mcp_server(None));
    file.profiles.insert(
        "only-a".to_string(),
        ProfileConfig {
            mcp_servers: Some(vec!["a".to_string()]),
            ..Default::default()
        },
    );
    let file = apply_profile(file, "only-a").unwrap();
    assert!(file.mcp.servers.contains_key("a"));
    assert!(!file.mcp.servers.contains_key("b"));
}

#[test]
fn command_line_is_stamped_over_the_file() {
    let cli = CliArgs {
        provider: Some("openai".to_string()),
        model: Some("gpt-sentinel".to_string()),
        ..CliArgs::default()
    };
    let file = stamp_overrides(ConfigFile::default(), &cli);
    assert_eq!(file.default.provider, "openai");
    assert_eq!(file.default.model.as_deref(), Some("gpt-sentinel"));
    assert_eq!(file.default.max_turns, None);
}

#[test]
fn protections_of_both_files_add_up() {
    let mut global = ConfigFile::default();
    global.tools.skills.deny = vec!["deploy".to_string()];
    global.security.egress_allow = vec!["a.example".to_string()];
    global.hooks.dispatch_enabled = false;
    let mut project = ConfigFile::default();
    project.default.read_only = true;
    project.tools.skills.deny = vec!["publish".to_string()];
    project.security.enabled = false;
    project.security.egress_allow = vec!["b.example".to_string()];
    let merged = merge_config_files(global, project, STOCK_DIR);
    assert!(merged.default.read_only);
    assert!(!merged.security.enabled);
    assert!(!merged.hooks.dispatch_enabled);
    assert_eq!(merged.tools.skills.deny, vec!["deploy", "publish"]);
    assert_eq!(merged.security.egress_allow, vec!["a.example", "b.example"]);
}

#[test]
fn skills_lifecycle_can_be_turned_off_in_either_file() {
    let mut off = ConfigFile::default();
    off.observability.skills_lifecycle = false;
    let merged = merge_config_files(off.clone(), ConfigFile::default(), STOCK_DIR);
    assert!(!merged.observability.skills_lifecycle);
    let merged = merge_config_files(ConfigFile::default(), off, STOCK_DIR);
    assert!(!merged.observability.skills_lifecycle);
    let merged = merge_config_files(ConfigFile::default(), ConfigFile::default(), STOCK_DIR);
    assert!(merged.observability.skills_lifecycle);
}

#[test]
fn switches_that_are_off_by_default_are_on_in_either_file() {
    assert!(!ConfigFile::default().tools.verify_edits);
    let mut on = ConfigFile::default();
    on.tools.verify_edits = true;
    on.observability.online_evolution = true;
    let merged = merge_config_files(on.clone(), ConfigFile::default(), STOCK_DIR);
    assert!(merged.tools.verify_edits);
    assert!(merged.observability.online_evolution);
    let merged = merge_config_files(ConfigFile::default(), on, STOCK_DIR);
    assert!(merged.tools.verify_edits);
    assert!(merged.observability.online_evolution);
}

#[test]
fn tools_env_passthrough_defaults_empty() {
    let cfg = ConfigFile::default();
    assert!(cfg.tools.env_passthrough.is_empty());
}

#[test]
fn tools_sandbox_toggle_defaults_none() {
    let cfg = ConfigFile::default();
    assert!(cfg.tools.sandbox.is_none());
    assert!(cfg.tools.allow_no_sandbox.is_none());
}

#[test]
fn dropped_hooks_are_counted() {
    let mut project = ConfigFile::default();
    project.hooks.pre_tool_use = vec![test_hook("a"), test_hook("b")];
    project.hooks.stop = vec![test_hook("c")];
    let mut global = ConfigFile::default();
    assert_eq!(dropped_hooks(&global, &project), 3);
    global.hooks.trust_project_hooks = true;
    assert_eq!(dropped_hooks(&global, &project), 0);
}

#[test]
fn debug_settings_of_the_project_come_first() {
    let mut global = ConfigFile::default();
    global.debug.text = "a = 1".to_string();
    let mut project = ConfigFile::default();
    let merged = merge_config_files(global.clone(), project.clone(), STOCK_DIR);
    assert_eq!(merged.debug.text, "a = 1");
    project.debug.text = "b = 2".to_string();
    let merged = merge_config_files(global, project, STOCK_DIR);
    assert_eq!(merged.debug.text, "b = 2");
}

#[test]
fn provider_chain_that_is_off_keeps_its_fallback_models() {
    let mut global = ConfigFile::default();
    global.provider_chain.failure_threshold = 9;
    global.provider_chain.fallback_models = vec!["openai:m".to_string()];
    let merged = merge_config_files(global.clone(), ConfigFile::default(), STOCK_DIR);
    assert!(!merged.provider_chain.enabled);
    assert_eq!(merged.provider_chain.failure_threshold, 3);
    assert_eq!(merged.provider_chain.fallback_models, vec!["openai:m"]);
    global.provider_chain.enabled = true;
    let merged = merge_config_files(global, ConfigFile::default(), STOCK_DIR);
    assert!(merged.provider_chain.enabled);
    assert_eq!(merged.provider_chain.failure_threshold, 9);
}

#[test]
fn project_session_directory_takes_the_whole_block() {
    let mut global = ConfigFile::default();
    global.session.enabled = false;
    global.session.max_sessions = 3;
    let mut project = ConfigFile::default();
    project.session.directory = "elsewhere".to_string();
    let merged = merge_config_files(global, project, STOCK_DIR);
    assert!(merged.session.enabled);
    assert_eq!(merged.session.directory, "elsewhere");
    assert_eq!(merged.session.max_sessions, 20);
}

#[test]
fn project_servers_and_budget_take_the_place_of_global_ones() {
    let mut global = ConfigFile::default();
    global.mcp.servers.insert("a".to_string(), mcp_server(None));
    global.budget.max_tokens_in = Some(5);
    global.budget.max_tokens_out = Some(6);
    let mut project = ConfigFile::default();
    project
        .mcp
        .servers
        .insert("a".to_string(), mcp_server(Some(vec!["x".to_string()])));
    project.budget.max_tokens_in = Some(50);
    let merged = merge_config_files(global, project, STOCK_DIR);
    let server = merged.mcp.servers.get("a").unwrap();
    assert_eq!(server.only_for_assistant, Some(vec!["x".to_string()]));
    assert_eq!(merged.budget.max_tokens_in, Some(50));
    assert_eq!(merged.budget.max_tokens_out, Some(6));
}
