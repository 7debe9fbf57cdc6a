use wcore_config::catalog::ProviderCatalog;
use wcore_config::config::{
    aws_ambient_credentials_present, chatgpt_oauth_token_path, connected_providers,
    connection_facts, credential_files, credentials_storage_path, credentials_store_key,
    default_session_dir, gcp_ambient_credentials_present, genesis_config_dir, global_config_path,
    global_profiles, global_user_display_name, is_secret_key, legacy_yaml_path, load_config_file,
    migrate_legacy_settings, migrate_legacy_yaml_if_needed, migration_needed, preview_text,
    previewed_file, profile_home, project_file, provider_connected, provider_type_from_slug,
    provider_type_slug, redact_secrets_in_place, stamp_overrides, store_provider_api_key,
    try_load_config_file, xai_oauth_token_path, ApprovalMode, AwsFacts, CliArgs, Config,
    ConfigFile, ConfigLoadError, ConnectionFacts, GcpFacts, HomeFacts, KeySources, LegacyModel,
    LegacySettings, ProfileConfig, ProviderConfig, ProviderType, ResolveError,
};
use wcore_config::credentials::PlaintextCredentialsStore;
use wcore_config::model_aliases::ModelAliases;
use wcore_config::table::StrMap;
use wcore_config::value::Value;

const STOCK_DIR: &str = "genesis-core/genesis-core/sessions";

fn models() -> ModelAliases {
    let mut short_forms = StrMap::new();
    short_forms.insert("bedrock:sonnet".to_string(), "sonnet-b".to_string());
    ModelAliases {
        anthropic_sonnet: "sonnet-a".to_string(),
        bedrock_sonnet: "sonnet-b".to_string(),
        vertex_sonnet: "sonnet-v".to_string(),
        openai_gpt4o: "gpt-4o".to_string(),
        vertex_gemini_pro: "gemini-pro".to_string(),
        minimax_m2: "MiniMax-M2".to_string(),
        short_forms,
    }
}

fn no_keys() -> KeySources {
    KeySources {
        stored: StrMap::new(),
        environment: StrMap::new(),
        xai_login: false,
    }
}

fn keyed() -> CliArgs {
    CliArgs {
        provider: Some("anthropic".into()),
        api_key: Some("test-key".into()),
        base_url: None,
        model: None,
        max_tokens: None,
        max_turns: None,
        system_prompt: None,
        profile: None,
        auto_approve: false,
        project_dir: None,
    }
}

fn resolve(cli: &CliArgs, project: ConfigFile) -> Result<Config, ResolveError> {
    Config::resolve(
        cli,
        ConfigFile::default(),
        project,
        STOCK_DIR,
        &ProviderCatalog { entries: vec![] },
        &no_keys(),
        &models(),
    )
}

fn homes(genesis_home: Option<&str>, xdg: Option<&str>) -> HomeFacts {
    HomeFacts {
        genesis_home: genesis_home.map(|s| s.to_string()),
        xdg_data_home: xdg.map(|s| s.to_string()),
        os_config_dir: Some("/home/u/.config".to_string()),
        home_dir: Some("/home/u".to_string()),
        current_dir: Some("/work".to_string()),
    }
}

fn nothing_connected() -> ConnectionFacts {
    ConnectionFacts {
        aws: AwsFacts {
            access_key_id: false,
            secret_access_key: false,
            profile: false,
            container_relative_uri: false,
            container_full_uri: false,
            web_identity_token_file: false,
            credentials_file_exists: false,
            config_file_exists: false,
        },
        gcp: GcpFacts {
            application_credentials: false,
            default_credentials_exist: false,
        },
        chatgpt_login: false,
        keys: no_keys(),
    }
}

fn tree(v: &toml::Value) -> Value {
    match v {
        toml::Value::String(s) => Value::Text(s.clone()),
        toml::Value::Integer(n) => Value::Atom(n.to_string()),
        toml::Value::Float(n) => Value::Atom(n.to_string()),
        toml::Value::Boolean(b) => Value::Bool(*b),
        toml::Value::Datetime(d) => Value::Atom(d.to_string()),
        toml::Value::Array(items) => Value::List(items.iter().map(tree).collect()),
        toml::Value::Table(fields) => {
            Value::Table(fields.iter().map(|(k, v)| (k.clone(), tree(v))).collect())
        }
    }
}

fn document(v: &Value) -> toml::Value {
    match v {
        Value::Null => panic!("no null in this document"),
        Value::Bool(b) => toml::Value::Boolean(*b),
        Value::Atom(n) => toml::Value::Integer(n.parse().unwrap()),
        Value::Text(s) => toml::Value::String(s.clone()),
        Value::List(items) => toml::Value::Array(items.iter().map(document).collect()),
        Value::Table(fields) => toml::Value::Table(
            fields.iter().map(|(k, v)| (k.clone(), document(v))).collect(),
        ),
    }
}

#[test]
fn test_resolve_with_project_dir_loads_project_config() {
    let mut project = ConfigFile::default();
    project.default.max_tokens = 1234;
    let config = resolve(&keyed(), project).ok().unwrap();
    assert_eq!(config.max_tokens, 1234);
    assert!(
        config.max_tokens_explicit,
        "non-default TOML max_tokens must read as explicit"
    );
}

#[test]
fn test_resolve_cli_max_tokens_marks_explicit() {
    let cli = CliArgs {
        max_tokens: Some(2000),
        ..keyed()
    };
    let config = resolve(&cli, ConfigFile::default()).ok().unwrap();
    assert_eq!(config.max_tokens, 2000);
    assert!(
        config.max_tokens_explicit,
        "a CLI --max-tokens must read as explicit"
    );
}

#[test]
fn test_resolve_omitted_max_tokens_reads_as_not_explicit() {
    let config = resolve(&keyed(), ConfigFile::default()).ok().unwrap();
    assert_eq!(config.max_tokens, 64000);
    assert!(
        !config.max_tokens_explicit,
        "no CLI flag + no TOML value must read as OMITTED (explicit=false)"
    );
}

#[test]
fn approval_mode_parses_from_toml_and_resolves_onto_config() {
    let mut project = ConfigFile::default();
    project.default.approval_mode = ApprovalMode::from_wire("auto-edit");
    assert_eq!(project.default.approval_mode, ApprovalMode::AutoEdit);
    let config = resolve(&keyed(), project).ok().unwrap();
    assert_eq!(
        config.approval_mode,
        ApprovalMode::Default,
        "a project must not loosen approval_mode below the (default-strict) global"
    );
}

#[test]
fn test_resolve_without_project_dir_uses_cwd() {
    assert!(resolve(&keyed(), ConfigFile::default()).is_ok());
    assert_eq!(project_file(None, true, true), ".genesis-core.toml");
    assert_eq!(project_file(None, false, true), ".genesis-core/config.toml");
    assert_eq!(project_file(None, false, false), ".genesis-core.toml");
    assert_eq!(
        project_file(Some("/repo"), false, true),
        "/repo/.genesis-core.toml"
    );
}

#[test]
fn resolution_fails_for_three_reasons() {
    let unknown = CliArgs {
        provider: Some("nobody".into()),
        ..keyed()
    };
    match resolve(&unknown, ConfigFile::default()) {
        Err(e) => {
            assert!(matches!(e, ResolveError::Provider(_)));
            assert!(e.message().starts_with("Unknown provider: 'nobody'"));
        }
        Ok(_) => panic!("there is no such provider"),
    }
    let keyless = CliArgs {
        api_key: None,
        ..keyed()
    };
    match resolve(&keyless, ConfigFile::default()) {
        Err(e) => {
            assert!(matches!(e, ResolveError::MissingApiKey(_)));
            assert!(e.message().starts_with("No API key found."));
        }
        Ok(_) => panic!("there is no key"),
    }
    let profiled = CliArgs {
        profile: Some("gone".into()),
        ..keyed()
    };
    match resolve(&profiled, ConfigFile::default()) {
        Err(e) => {
            assert!(matches!(e, ResolveError::Profile(_)));
            assert!(e.message().contains("gone"));
        }
        Ok(_) => panic!("there is no such profile"),
    }
}

#[test]
fn resolution_expands_short_forms_and_defaults() {
    let config = resolve(&keyed(), ConfigFile::default()).ok().unwrap();
    assert_eq!(config.model, "sonnet-a");
    assert_eq!(config.api_key, "test-key");
    assert_eq!(config.provider_label, "anthropic");
    assert!(config.prompt_caching);
    let cli = CliArgs {
        model: Some("bedrock:sonnet".into()),
        ..keyed()
    };
    let config = resolve(&cli, ConfigFile::default()).ok().unwrap();
    assert_eq!(config.model, "sonnet-b");
}

#[test]
fn genesis_config_dir_uses_genesis_home_when_set() {
    let dir = genesis_config_dir(&homes(Some("/tmp/test-genesis-home"), None));
    assert_eq!(dir, "/tmp/test-genesis-home");
}

#[test]
fn genesis_config_dir_uses_xdg_data_home_when_no_genesis_home() {
    let dir = genesis_config_dir(&homes(None, Some("/tmp/test-xdg")));
    assert_eq!(dir, "/tmp/test-xdg/genesis-core");
}

#[test]
fn genesis_config_dir_falls_back_to_dirs_config_dir() {
    let dir = genesis_config_dir(&homes(None, None));
    assert!(
        dir.ends_with("genesis-core"),
        "expected path ending in genesis-core, got {dir}"
    );
    assert_eq!(dir, "/home/u/.config/genesis-core");
}

#[test]
fn profile_home_uses_genesis_home_override() {
    let home = profile_home(&homes(Some("/tmp/test-profile-home"), None));
    assert_eq!(home, "/tmp/test-profile-home");
}

#[test]
fn profile_home_ignores_control_char_override() {
    let home = profile_home(&homes(Some("/tmp/evil\tinjected"), None));
    assert!(
        !home.contains('\t'),
        "control-char override must not be propagated, got {home}"
    );
    assert!(
        home.ends_with(".genesis"),
        "must fall through to the default, got {home}"
    );
}

#[test]
fn profile_home_defaults_to_home_dot_genesis() {
    let home = profile_home(&homes(None, None));
    assert_eq!(home, "/home/u/.genesis");
}

#[test]
fn files_lie_below_their_directories() {
    let f = homes(Some("/g"), None);
    assert_eq!(global_config_path(&f), "/g/config.toml");
    assert_eq!(credentials_storage_path(&f), "/g/credentials.toml");
    assert_eq!(default_session_dir(&f), "/g/sessions");
    assert_eq!(chatgpt_oauth_token_path(&f), "/g/oauth/chatgpt.json");
    assert_eq!(xai_oauth_token_path(&f), "/g/oauth/xai.json");
    assert_eq!(legacy_yaml_path(&f).as_deref(), Some("/g/config.yaml"));
    assert_eq!(
        legacy_yaml_path(&homes(None, None)).as_deref(),
        Some("/home/u/.genesis/config.yaml")
    );
}

#[test]
fn migrate_legacy_yaml_reads_from_genesis_home_when_set() {
    let f = homes(Some("/sandbox"), None);
    assert_eq!(legacy_yaml_path(&f).as_deref(), Some("/sandbox/config.yaml"));
    let migrated = migrate_legacy_settings(
        LegacySettings {
            model: Some(LegacyModel {
                default: Some("sentinel-from-sandbox".to_string()),
                provider: Some("openai".to_string()),
                base_url: None,
            }),
            memory_enabled: None,
        },
        ConfigFile::default(),
    );
    assert_eq!(migrated.default.model.as_deref(), Some("sentinel-from-sandbox"));
    assert_eq!(migrated.default.provider, "openai");
}

#[test]
fn legacy_url_goes_to_its_provider() {
    let migrate = |model: Option<&str>, provider: Option<&str>| {
        migrate_legacy_settings(
            LegacySettings {
                model: Some(LegacyModel {
                    default: model.map(|m| m.to_string()),
                    provider: provider.map(|p| p.to_string()),
                    base_url: Some("https://u".to_string()),
                }),
                memory_enabled: None,
            },
            ConfigFile::default(),
        )
    };
    let url = |file: &ConfigFile, owner: &str| file.providers.get(owner).unwrap().base_url.clone();
    let file = migrate(Some("meta/llama"), Some("auto"));
    assert_eq!(file.default.provider, "anthropic");
    assert_eq!(url(&file, "meta").as_deref(), Some("https://u"));
    assert_eq!(url(&migrate(None, None), "openrouter").as_deref(), Some("https://u"));
    assert_eq!(url(&migrate(Some("m"), Some("openai")), "openai").as_deref(), Some("https://u"));
}

#[test]
fn migrate_legacy_yaml_skips_when_canonical_toml_exists() {
    assert!(!migration_needed(true, true));
    assert!(!migration_needed(false, false));
    let legacy = LegacySettings {
        model: None,
        memory_enabled: Some(true),
    };
    assert!(migrate_legacy_yaml_if_needed(Some(legacy), true, ConfigFile::default()).is_none());
    assert!(migrate_legacy_yaml_if_needed(None, false, ConfigFile::default()).is_none());
}

#[test]
fn migrate_legacy_yaml_writes_toml_on_first_run() {
    assert!(migration_needed(true, false));
    let migrated = migrate_legacy_yaml_if_needed(
        Some(LegacySettings {
            model: Some(LegacyModel {
                default: Some("first-run-model".to_string()),
                provider: Some("openai".to_string()),
                base_url: None,
            }),
            memory_enabled: Some(false),
        }),
        false,
        ConfigFile::default(),
    )
    .expect("first migration must create the canonical TOML");
    assert_eq!(migrated.default.model.as_deref(), Some("first-run-model"));
    assert!(!migrated.memory.unwrap().enabled);
}

#[test]
fn redact_masks_secret_named_keys_at_any_depth() {
    let parsed: toml::Value = toml::from_str(
        r#"
            [default]
            provider = "anthropic"

            [providers.anthropic]
            api_key = "sk-ant-SECRET"
            base_url = "https://api.anthropic.com"

            [channels.telegram]
            bot_token = "12345:SECRET"
            chat_id = 99

            [mcp.servers.notion.headers]
            Authorization = "Bearer SECRET"
            "#,
    )
    .expect("parse fixture");

    let mut value = tree(&parsed);
    redact_secrets_in_place(&mut value);
    let out = toml::to_string_pretty(&document(&value)).expect("serialize");

    assert!(!out.contains("SECRET"), "a secret leaked:\n{out}");
    assert!(
        out.contains("api_key = \"***\""),
        "api_key not masked:\n{out}"
    );
    assert!(
        out.contains("bot_token = \"***\""),
        "token not masked:\n{out}"
    );
    assert!(
        out.contains("Authorization = \"***\""),
        "auth header not masked:\n{out}"
    );
    assert!(
        out.contains("provider = \"anthropic\""),
        "provider lost:\n{out}"
    );
    assert!(out.contains("api.anthropic.com"), "base_url lost:\n{out}");
    assert!(out.contains("chat_id = 99"), "non-secret int lost:\n{out}");
}

#[test]
fn secret_names_are_recognized() {
    for name in ["api_key", "API_KEY", "bot_token", "Authorization", "client_secret", "password"] {
        assert!(is_secret_key(name), "{name}");
    }
    for name in ["provider", "base_url", "model", "chat_id"] {
        assert!(!is_secret_key(name), "{name}");
    }
}

#[test]
fn effective_config_toml_stamps_cli_overrides() {
    let cli = CliArgs {
        provider: Some("openai".to_string()),
        model: Some("gpt-sentinel".to_string()),
        ..CliArgs::default()
    };
    let file = stamp_overrides(ConfigFile::default(), &cli);
    assert_eq!(file.default.provider, "openai");
    assert_eq!(file.default.model.as_deref(), Some("gpt-sentinel"));
}

#[test]
fn effective_config_toml_merges_and_redacts_from_disk() {
    let mut global = ConfigFile::default();
    global.providers.insert(
        "anthropic".to_string(),
        ProviderConfig {
            api_key: Some("sk-ant-LIVE-SECRET".to_string()),
            ..ProviderConfig::default()
        },
    );
    let file = previewed_file(&CliArgs::default(), global, ConfigFile::default(), STOCK_DIR)
        .ok()
        .unwrap();
    assert_eq!(file.default.provider, "anthropic");
    let key = file.providers.get("anthropic").unwrap().api_key.clone().unwrap();
    let mut value = Value::Table(vec![(
        "providers".to_string(),
        Value::Table(vec![(
            "anthropic".to_string(),
            Value::Table(vec![("api_key".to_string(), Value::Text(key))]),
        )]),
    )]);
    redact_secrets_in_place(&mut value);
    let out = document(&value).to_string();
    assert!(
        !out.contains("sk-ant-LIVE-SECRET") && out.contains("***"),
        "the api key must be redacted in the preview:\n{out}"
    );
}

fn read_file(path: &str, content: Option<&str>) -> Result<ConfigFile, ConfigLoadError> {
    let parsed = content.map(|text| match text.parse::<toml::Table>() {
        Ok(table) => {
            let mut file = ConfigFile::default();
            if let Some(provider) = table.get("default").and_then(|d| d.get("provider")) {
                file.default.provider = provider.as_str().unwrap().to_string();
            }
            Ok(file)
        }
        Err(e) => Err(e.to_string()),
    });
    try_load_config_file(path, parsed, ConfigFile::default())
}

#[test]
fn corrupt_config_file_surfaces_typed_parse_error_not_silent_default() {
    let err = read_file(
        "/cfg/config.toml",
        Some("[default\nprovider = \"anthropic\",,\nmodel = \n"),
    )
    .err()
    .expect("a corrupt existing config must NOT silently downgrade to defaults");

    let msg = err.message();
    assert!(
        msg.contains("config.toml") && msg.contains("parse"),
        "the parse error must name the file and say it failed to parse; got: {msg}"
    );
    assert!(msg.starts_with("failed to parse /cfg/config.toml: "));
    let (file, warning) = load_config_file(Err(err), ConfigFile::default());
    assert_eq!(file.default.provider, "anthropic");
    assert_eq!(warning, Some(format!("Warning: {msg}")));
}

#[test]
fn absent_config_file_yields_defaults_not_error() {
    let file = read_file("/cfg/does-not-exist.toml", None)
        .ok()
        .expect("absent file must yield defaults, not error");
    assert_eq!(file.default.provider, "anthropic");
    assert!(file.providers.is_empty());
}

#[test]
fn valid_config_file_round_trips_through_try_load() {
    let file = read_file("/cfg/config.toml", Some("[default]\nprovider = \"openai\"\n"))
        .ok()
        .expect("valid config must load");
    assert_eq!(file.default.provider, "openai");
    let (file, warning) = load_config_file(Ok(file), ConfigFile::default());
    assert_eq!(file.default.provider, "openai");
    assert_eq!(warning, None);
}

#[test]
fn host_facts_follow_variables_and_files() {
    let mut env = StrMap::new();
    env.insert("AWS_PROFILE".to_string(), String::new());
    env.insert("AWS_CONFIG_FILE".to_string(), "/aws/cfg".to_string());
    env.insert("GROK_HOME".to_string(), "  ".to_string());
    let homes = homes(Some("/g"), None);
    let files: Vec<Option<String>> = credential_files(&env, &homes);
    let named: Vec<&str> = files.iter().map(|f| f.as_deref().unwrap()).collect();
    assert_eq!(
        named,
        [
            "/home/u/.aws/credentials",
            "/aws/cfg",
            "/home/u/.config/gcloud/application_default_credentials.json",
            "/home/u/.grok/auth.json",
            "/g/oauth/chatgpt.json",
            "/g/oauth/xai.json"
        ]
    );
    let none = connection_facts(env.clone(), StrMap::new(), &homes, &vec![]);
    assert!(!aws_ambient_credentials_present(&none.aws));
    assert!(!none.keys.xai_login && !none.chatgpt_login);
    let there = vec!["/aws/cfg".to_string(), "/home/u/.grok/auth.json".to_string()];
    let some = connection_facts(env, StrMap::new(), &homes, &there);
    assert!(some.aws.config_file_exists && !some.aws.credentials_file_exists);
    assert!(some.keys.xai_login && !some.chatgpt_login);
    assert!(!some.aws.profile);
    assert!(provider_connected(ProviderType::Bedrock, &some));
}

#[test]
fn connected_providers_detects_key_ambient_and_oauth_excludes_keyless() {
    let mut facts = nothing_connected();
    facts
        .keys
        .environment
        .insert("ANTHROPIC_API_KEY".to_string(), "sk-ant-test".to_string());
    facts.aws.access_key_id = true;
    facts.aws.secret_access_key = true;
    facts.gcp.application_credentials = true;
    facts.chatgpt_login = true;

    let connected = connected_providers(&facts);

    assert!(connected.contains(&ProviderType::Anthropic));
    assert!(connected.contains(&ProviderType::Bedrock));
    assert!(connected.contains(&ProviderType::Vertex));
    assert!(connected.contains(&ProviderType::OpenAIChatGpt));
    assert!(!connected.contains(&ProviderType::OpenAI));
    assert!(!connected.contains(&ProviderType::Gemini));
}

#[test]
fn provider_connected_oauth_false_without_token_file() {
    assert!(
        !provider_connected(ProviderType::OpenAIChatGpt, &nothing_connected()),
        "ChatGPT without a stored token file must be unconnected"
    );
}

#[test]
fn for_provider_discovery_overrides_identifying_fields() {
    let mut sources = no_keys();
    sources
        .environment
        .insert("OPENAI_API_KEY".to_string(), "sk-openai-test".to_string());
    let base = Config {
        provider: ProviderType::Anthropic,
        prompt_caching: true,
        ..Config::default()
    };
    let cfg = base.for_provider_discovery(ProviderType::OpenAI, &sources);
    assert_eq!(cfg.provider, ProviderType::OpenAI);
    assert_eq!(cfg.provider_label, "openai");
    assert_eq!(cfg.api_key, "sk-openai-test");
    assert_eq!(cfg.base_url, "https://api.openai.com");
    assert_eq!(cfg.compat.provider_type(), "openai");
    assert!(
        cfg.prompt_caching,
        "for_provider_discovery must inherit base fields like prompt_caching"
    );
    assert_eq!(base.for_provider_discovery(ProviderType::Groq, &sources).api_key, "");
    assert_eq!(base.for_key_validation(ProviderType::Groq, "try").api_key, "try");
}

#[test]
fn ambient_cloud_connection_reflects_real_credentials() {
    let mut facts = nothing_connected();
    assert!(
        !provider_connected(ProviderType::Bedrock, &facts),
        "Bedrock must NOT be connected without any AWS credential source"
    );
    facts.aws.access_key_id = true;
    assert!(!aws_ambient_credentials_present(&facts.aws));
    facts.aws.secret_access_key = true;
    assert!(
        provider_connected(ProviderType::Bedrock, &facts),
        "explicit AWS keys must mark Bedrock connected"
    );
    assert!(!gcp_ambient_credentials_present(&facts.gcp));
    facts.gcp.application_credentials = true;
    assert!(
        provider_connected(ProviderType::Vertex, &facts),
        "GOOGLE_APPLICATION_CREDENTIALS must mark Vertex connected"
    );
}

#[test]
fn profiles_are_listed_by_name() {
    let mut file = ConfigFile::default();
    for name in ["zeta", "alpha"] {
        file.profiles.insert(
            name.to_string(),
            ProfileConfig {
                model: Some("m".to_string()),
                ..ProfileConfig::default()
            },
        );
    }
    let rows = global_profiles(file);
    let names: Vec<&str> = rows.iter().map(|r| r.0.as_str()).collect();
    assert_eq!(names, ["alpha", "zeta"]);
}

#[test]
fn user_name_is_shown_unless_blank() {
    let mut file = ConfigFile::default();
    assert_eq!(global_user_display_name(&file), None);
    file.default.user = Some("  Ada ".to_string());
    assert_eq!(global_user_display_name(&file).as_deref(), Some("Ada"));
    file.default.user = Some("   ".to_string());
    assert_eq!(global_user_display_name(&file), None);
}

#[test]
fn provider_key_is_stored_in_its_slot() {
    let (entry, value) = store_provider_api_key(ProviderType::Groq, "gk").unwrap();
    let text = PlaintextCredentialsStore::put(None, &entry, &value).unwrap();
    assert_eq!(
        PlaintextCredentialsStore::get(Some(&text), "providers.groq.api_key").unwrap(),
        Some("gk".to_string())
    );
    assert_eq!(
        store_provider_api_key(ProviderType::Bedrock, "x"),
        Err(
            "provider bedrock authenticates out-of-band and has no credentials-store API key"
                .to_string()
        )
    );
}

#[test]
fn alias_key_and_url_reach_the_resolution() {
    let mut project = ConfigFile::default();
    project.providers.insert(
        "mine".to_string(),
        ProviderConfig {
            provider: Some("openai".to_string()),
            api_key: Some("ak".to_string()),
            base_url: Some("https://mine.example".to_string()),
            ..ProviderConfig::default()
        },
    );
    let cli = CliArgs {
        provider: Some("mine".into()),
        api_key: None,
        ..keyed()
    };
    let config = resolve(&cli, project).ok().unwrap();
    assert_eq!(config.provider_label, "mine");
    assert_eq!(config.provider, ProviderType::OpenAI);
    assert_eq!(config.api_key, "ak");
    assert_eq!(config.base_url, "https://mine.example");
    assert_eq!(config.model, "gpt-4o");
}

const PROVIDERS: [ProviderType; 23] = [
    ProviderType::Anthropic,
    ProviderType::OpenAI,
    ProviderType::Bedrock,
    ProviderType::Vertex,
    ProviderType::Gemini,
    ProviderType::AzureOpenAI,
    ProviderType::Together,
    ProviderType::Fireworks,
    ProviderType::Nvidia,
    ProviderType::Perplexity,
    ProviderType::Cerebras,
    ProviderType::OpenRouter,
    ProviderType::FluxRouter,
    ProviderType::Deepseek,
    ProviderType::Xai,
    ProviderType::Groq,
    ProviderType::Moonshot,
    ProviderType::Qwen,
    ProviderType::Mistral,
    ProviderType::Cohere,
    ProviderType::OpenAIChatGpt,
    ProviderType::Sakana,
    ProviderType::MiniMax,
];

#[test]
fn canonical_names_stand_for_their_providers() {
    for provider in PROVIDERS {
        let slug = provider_type_slug(provider);
        assert_eq!(provider_type_from_slug(slug), Some(provider));
    }
    assert_eq!(provider_type_from_slug("fugu"), Some(ProviderType::Sakana));
    assert_eq!(provider_type_from_slug("nobody"), None);
}

#[test]
fn store_keys_of_two_providers_differ() {
    for (i, a) in PROVIDERS.iter().enumerate() {
        for b in &PROVIDERS[i + 1..] {
            let (a, b) = (credentials_store_key(*a), credentials_store_key(*b));
            assert!(a.is_none() || a != b);
        }
    }
}

#[test]
fn approval_modes_are_ordered_by_strictness() {
    let default = ApprovalMode::Default;
    assert!(default.is_at_least_as_strict_as(ApprovalMode::Force));
    assert!(!ApprovalMode::Force.is_at_least_as_strict_as(default));
    assert!(default.is_at_least_as_strict_as(default));
}

#[test]
fn preview_is_a_text_without_secrets() {
    let text = |s: &str| Value::Text(s.to_string());
    let tree = Value::Table(vec![
        ("zeta".to_string(), Value::Atom("1.5".to_string())),
        (
            "default".to_string(),
            Value::Table(vec![
                ("api_key".to_string(), text("sk")),
                ("model".to_string(), text("m")),
            ]),
        ),
        ("alpha".to_string(), Value::List(vec![text("x")])),
    ]);
    assert_eq!(
        preview_text(tree).unwrap(),
        "alpha = [\"x\"]\nzeta = 1.5\n\n[default]\napi_key = \"***\"\nmodel = \"m\"\n"
    );
    assert!(preview_text(Value::Table(vec![("x".to_string(), Value::Null)])).is_err());
    assert_eq!(
        preview_text(text("x")),
        Err("configuration is not a table".to_string())
    );
}
