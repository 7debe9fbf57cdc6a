use wcore_config::catalog::{CatalogEntry, ProviderCatalog};
use wcore_config::compat::{compat_defaults_for, ProviderCompat};
use wcore_config::config::{
    credentials_store_key, default_base_url_for, default_model_for, default_model_for_slug,
    lookup_store_api_key, merge_provider_configs, openai_model_accepts_effort,
    parse_builtin_provider, provider_type_slug, resolve_api_key, resolve_council_provider,
    resolve_provider_alias, BedrockConfig, CarriedSettings, Config, CouncilProviderError, KeySources,
    PromptCachingConfig, PromptCachingDetail, ProviderConfig, ProviderResolveError, ProviderType,
    VertexConfig, DEFAULT_CACHE_MIN_PREFIX_TOKENS,
};
use wcore_config::debug_text::DebugText;
use wcore_config::model_aliases::ModelAliases;
use wcore_config::table::StrMap;

const OPENAI_GPT4O: &str = "gpt-4o";


fn models() -> ModelAliases {
    ModelAliases {
        anthropic_sonnet: "sonnet-a".to_string(),
        bedrock_sonnet: "sonnet-b".to_string(),
        vertex_sonnet: "sonnet-v".to_string(),
        openai_gpt4o: OPENAI_GPT4O.to_string(),
        vertex_gemini_pro: "gemini-pro".to_string(),
        minimax_m2: "MiniMax-M2".to_string(),
        short_forms: StrMap::new(),
    }
}

fn catalog() -> ProviderCatalog {
    ProviderCatalog {
        entries: vec![
            CatalogEntry {
                id: "novita-ai".to_string(),
                base_url: "https://api.novita.ai/openai".to_string(),
                env_var: "NOVITA_API_KEY".to_string(),
                api_path: None,
            },
            CatalogEntry {
                id: "deepseek".to_string(),
                base_url: "https://api.deepseek.example".to_string(),
                env_var: "DEEPSEEK_API_KEY".to_string(),
                api_path: None,
            },
        ],
    }
}

fn no_keys() -> KeySources {
    KeySources {
        stored: StrMap::new(),
        environment: StrMap::new(),
        xai_login: false,
    }
}

#[test]
fn test_provider_type_from_str_anthropic() {
    let result = parse_builtin_provider("anthropic");
    assert_eq!(result, Some(ProviderType::Anthropic));
}

#[test]
fn default_model_for_slug_resolves_builtin_and_empties_catalog() {
    assert!(
        !default_model_for_slug("anthropic", &models()).is_empty(),
        "anthropic must have a stamped default model"
    );
    assert!(!default_model_for_slug("openai", &models()).is_empty());
    assert_eq!(default_model_for_slug("groq", &models()), "");
    assert_eq!(default_model_for_slug("openrouter", &models()), "");
    assert_eq!(default_model_for_slug("deepseek", &models()), "");
    assert_eq!(default_model_for_slug("novita-ai", &models()), "");
}

#[test]
fn test_provider_type_from_str_openai() {
    let result = parse_builtin_provider("openai");
    assert_eq!(result, Some(ProviderType::OpenAI));
}

#[test]
fn test_provider_type_from_str_bedrock() {
    let result = parse_builtin_provider("bedrock");
    assert_eq!(result, Some(ProviderType::Bedrock));
}

#[test]
fn test_provider_type_from_str_vertex() {
    let result = parse_builtin_provider("vertex");
    assert_eq!(result, Some(ProviderType::Vertex));
}

#[test]
fn test_provider_type_from_str_invalid() {
    let result = parse_builtin_provider("invalid");
    assert_eq!(result, None);
}

#[test]
fn parse_builtin_provider_recognizes_v063_tier2_providers() {
    assert_eq!(
        parse_builtin_provider("azure-openai"),
        Some(ProviderType::AzureOpenAI)
    );
    assert_eq!(
        parse_builtin_provider("together"),
        Some(ProviderType::Together)
    );
    assert_eq!(
        parse_builtin_provider("fireworks"),
        Some(ProviderType::Fireworks)
    );
    assert_eq!(parse_builtin_provider("nvidia"), Some(ProviderType::Nvidia));
    assert_eq!(
        parse_builtin_provider("perplexity"),
        Some(ProviderType::Perplexity)
    );
    assert_eq!(
        parse_builtin_provider("cerebras"),
        Some(ProviderType::Cerebras)
    );
}

#[test]
fn parses_chatgpt_provider_aliases() {
    assert_eq!(
        parse_builtin_provider("openai-chatgpt"),
        Some(ProviderType::OpenAIChatGpt)
    );
    assert_eq!(
        parse_builtin_provider("chatgpt"),
        Some(ProviderType::OpenAIChatGpt)
    );
    assert_eq!(default_model_for(ProviderType::OpenAIChatGpt, &models()), "gpt-5.5");
    assert!(ProviderType::OpenAIChatGpt.is_openai_compatible());
}

#[test]
fn minimax_provider_maps_to_anthropic_wire_endpoint() {
    assert_eq!(
        parse_builtin_provider("minimax"),
        Some(ProviderType::MiniMax)
    );
    assert_eq!(
        parse_builtin_provider("minimaxi"),
        Some(ProviderType::MiniMax)
    );
    assert_eq!(provider_type_slug(ProviderType::MiniMax), "minimax");
    assert_eq!(
        default_base_url_for(ProviderType::MiniMax),
        "https://api.minimax.io/anthropic"
    );
    assert_eq!(default_model_for(ProviderType::MiniMax, &models()), "MiniMax-M2");
    assert_eq!(
        credentials_store_key(ProviderType::MiniMax).as_deref(),
        Some("providers.minimax.api_key")
    );
    assert!(!ProviderType::MiniMax.is_openai_compatible());
    assert_eq!(
        compat_defaults_for(ProviderType::MiniMax).provider_type(),
        "minimax"
    );
}

#[test]
fn v063_tier2_providers_are_openai_compatible() {
    for p in [
        ProviderType::AzureOpenAI,
        ProviderType::Together,
        ProviderType::Fireworks,
        ProviderType::Nvidia,
        ProviderType::Perplexity,
        ProviderType::Cerebras,
    ] {
        assert!(p.is_openai_compatible(), "{p:?} must be OpenAI-compatible");
    }
    assert!(!ProviderType::Anthropic.is_openai_compatible());
    assert!(!ProviderType::Gemini.is_openai_compatible());
}

#[test]
fn test_provider_alias_resolves_to_builtin_provider() {
    let mut providers = StrMap::new();
    providers.insert(
        "my-service".to_string(),
        ProviderConfig {
            provider: Some("openai".to_string()),
            model: Some("custom-model-v1".to_string()),
            api_key: Some("alias-key".to_string()),
            base_url: Some("https://my-service.example.com/v1".to_string()),
            ..Default::default()
        },
    );

    let resolved = resolve_provider_alias(&providers, "my-service", &catalog()).unwrap();
    assert_eq!(resolved.requested_name, "my-service");
    assert_eq!(resolved.provider_type, ProviderType::OpenAI);
    assert_eq!(
        resolved.effective_config.model.as_deref(),
        Some("custom-model-v1")
    );
    assert_eq!(
        resolved.effective_config.api_key.as_deref(),
        Some("alias-key")
    );
    assert_eq!(
        resolved.effective_config.base_url.as_deref(),
        Some("https://my-service.example.com/v1")
    );
}

#[test]
fn catalog_provider_resolves_through_openai_path() {
    let providers = StrMap::new();
    let resolved =
        resolve_provider_alias(&providers, "novita-ai", &catalog()).expect("catalog id resolves");
    assert_eq!(resolved.requested_name, "novita-ai");
    assert_eq!(resolved.provider_type, ProviderType::OpenAI);
    let entry = resolved
        .catalog_entry
        .expect("catalog entry carried through");
    assert_eq!(entry.id, "novita-ai");
    assert_eq!(entry.base_url, "https://api.novita.ai/openai");
}

#[test]
fn unknown_provider_id_errors_cleanly() {
    let providers = StrMap::new();
    let err = resolve_provider_alias(&providers, "definitely-not-a-provider", &catalog())
        .err()
        .expect("an error");
    assert!(
        err.message().contains("Unknown provider"),
        "unexpected error: {err:?}"
    );
}

#[test]
fn native_collision_id_prefers_native_arm_not_catalog() {
    let providers = StrMap::new();
    let resolved = resolve_provider_alias(&providers, "deepseek", &catalog()).expect("deepseek resolves");
    assert_eq!(resolved.provider_type, ProviderType::Deepseek);
    assert!(
        resolved.catalog_entry.is_none(),
        "native arm must win over the catalog for collision ids"
    );
}

#[test]
fn test_provider_alias_overlays_builtin_provider_defaults() {
    let mut providers = StrMap::new();
    providers.insert(
        "openai".to_string(),
        ProviderConfig {
            api_key: Some("builtin-key".to_string()),
            model: Some(OPENAI_GPT4O.to_string()),
            ..Default::default()
        },
    );
    providers.insert(
        "my-service".to_string(),
        ProviderConfig {
            provider: Some("openai".to_string()),
            base_url: Some("https://my-service.example.com/v1".to_string()),
            ..Default::default()
        },
    );

    let resolved = resolve_provider_alias(&providers, "my-service", &catalog()).unwrap();
    assert_eq!(resolved.provider_type, ProviderType::OpenAI);
    assert_eq!(
        resolved.effective_config.api_key.as_deref(),
        Some("builtin-key")
    );
    assert_eq!(
        resolved.effective_config.model.as_deref(),
        Some(OPENAI_GPT4O)
    );
    assert_eq!(
        resolved.effective_config.base_url.as_deref(),
        Some("https://my-service.example.com/v1")
    );
}

#[test]
fn test_provider_alias_requires_underlying_provider_type() {
    let mut providers = StrMap::new();
    providers.insert("my-service".to_string(), ProviderConfig::default());

    let result = resolve_provider_alias(&providers, "my-service", &catalog());
    assert!(result.is_err());
    let msg = result.unwrap_err().message();
    assert!(msg.contains("my-service"));
    assert!(msg.contains("provider"));
    assert!(msg.contains("built-in type"));
}

#[test]
fn council_resolves_each_provider_to_its_own_key() {
    let mut providers = StrMap::new();
    providers.insert(
        "openai".to_string(),
        ProviderConfig {
            api_key: Some("sk-openai-aaa".to_string()),
            ..Default::default()
        },
    );
    providers.insert(
        "anthropic".to_string(),
        ProviderConfig {
            api_key: Some("sk-ant-bbb".to_string()),
            ..Default::default()
        },
    );
    let base = Config::default();

    let (oa, _) = resolve_council_provider(&providers, &base, "openai", &catalog(), &no_keys(), &models()).expect("openai");
    let (an, _) = resolve_council_provider(&providers, &base, "anthropic", &catalog(), &no_keys(), &models()).expect("anthropic");

    assert_eq!(oa.provider, ProviderType::OpenAI);
    assert_eq!(oa.api_key, "sk-openai-aaa");
    assert_eq!(an.provider, ProviderType::Anthropic);
    assert_eq!(an.api_key, "sk-ant-bbb");
    assert_ne!(oa.api_key, an.api_key);
}

#[test]
fn council_pins_model_from_spec() {
    let mut providers = StrMap::new();
    providers.insert(
        "openai".to_string(),
        ProviderConfig {
            api_key: Some("sk-openai".to_string()),
            ..Default::default()
        },
    );
    let base = Config::default();
    let (cfg, model) =
        resolve_council_provider(&providers, &base, "openai:gpt-5.5", &catalog(), &no_keys(), &models()).expect("resolve");
    assert_eq!(cfg.model, "gpt-5.5");
    assert_eq!(model.as_deref(), Some("gpt-5.5"));
}

#[test]
fn council_resolves_out_of_band_provider() {
    let providers = StrMap::new();
    let base = Config::default();
    let (cfg, _model) = resolve_council_provider(&providers, &base, "vertex", &catalog(), &no_keys(), &models())
        .expect("vertex (out-of-band auth) must resolve, not be skipped");
    assert_eq!(cfg.provider, ProviderType::Vertex);
}

#[test]
fn council_skips_genuinely_keyless_provider() {
    let providers = StrMap::new();
    let base = Config::default();
    let err = resolve_council_provider(&providers, &base, "cohere", &catalog(), &no_keys(), &models())
        .err()
        .expect("an error");
    assert!(
        matches!(err, CouncilProviderError::Keyless(_)),
        "got {err:?}"
    );
}

#[test]
fn council_errors_unknown_provider() {
    let providers = StrMap::new();
    let base = Config::default();
    let err = resolve_council_provider(&providers, &base, "definitely-not-a-provider", &catalog(), &no_keys(), &models())
        .err()
        .expect("an error");
    assert!(
        matches!(err, CouncilProviderError::Unknown(_)),
        "got {err:?}"
    );
}

#[test]
fn council_inherits_non_provider_fields_from_base() {
    let mut providers = StrMap::new();
    providers.insert(
        "openai".to_string(),
        ProviderConfig {
            api_key: Some("sk-openai".to_string()),
            ..Default::default()
        },
    );
    let base = Config {
        max_tokens: 4242,
        ..Default::default()
    };
    let (cfg, _) = resolve_council_provider(&providers, &base, "openai", &catalog(), &no_keys(), &models()).expect("resolve");
    assert_eq!(
        cfg.max_tokens, 4242,
        "non-provider field must inherit from base"
    );
}

#[test]
fn test_api_key_from_cli_arg() {
    let result = resolve_api_key(
        Some("cli-key"),
        Some("config-key"),
        ProviderType::Anthropic,
        &no_keys(),
    )
    .unwrap();
    assert_eq!(result, "cli-key");
}

#[test]
fn test_api_key_from_config() {
    let result =
        resolve_api_key(None, Some("config-key"), ProviderType::Anthropic, &no_keys()).unwrap();
    assert_eq!(result, "config-key");
}

#[test]
fn test_api_key_missing_returns_error() {
    let result = resolve_api_key(None, None, ProviderType::Anthropic, &no_keys());

    let e = result.err().expect("no credential anywhere must surface an error");
    assert!(e.message().contains("No API key found"));
}

#[test]
fn test_api_key_bedrock_returns_empty_without_key() {
    let result = resolve_api_key(None, None, ProviderType::Bedrock, &no_keys()).unwrap();
    assert_eq!(result, "");
}

#[test]
fn test_api_key_vertex_returns_empty_without_key() {
    let result = resolve_api_key(None, None, ProviderType::Vertex, &no_keys()).unwrap();
    assert_eq!(result, "");
}

#[test]
fn credentials_store_key_maps_bearer_providers_and_excludes_oob() {
    assert_eq!(credentials_store_key(ProviderType::Bedrock), None);
    assert_eq!(credentials_store_key(ProviderType::Vertex), None);
    assert_eq!(credentials_store_key(ProviderType::OpenAIChatGpt), None);
    assert_eq!(
        credentials_store_key(ProviderType::Anthropic).as_deref(),
        Some("providers.anthropic.api_key")
    );
    assert_eq!(
        credentials_store_key(ProviderType::AzureOpenAI).as_deref(),
        Some("providers.azure-openai.api_key")
    );
    assert_eq!(
        credentials_store_key(ProviderType::FluxRouter).as_deref(),
        Some("providers.flux-router.api_key")
    );
}

#[test]
fn test_merge_provider_configs_overlay_overrides_base() {
    let base = ProviderConfig {
        api_key: Some("base-key".to_string()),
        base_url: Some("https://base.example.com".to_string()),
        model: Some("base-model".to_string()),
        ..Default::default()
    };
    let overlay = ProviderConfig {
        api_key: Some("overlay-key".to_string()),
        model: Some("overlay-model".to_string()),
        ..Default::default()
    };

    let merged = merge_provider_configs(base, overlay);
    assert_eq!(merged.api_key.as_deref(), Some("overlay-key"));
    assert_eq!(merged.model.as_deref(), Some("overlay-model"));
    assert_eq!(merged.base_url.as_deref(), Some("https://base.example.com"));
}

#[test]
fn test_merge_provider_configs_overlay_none_preserves_base() {
    let base = ProviderConfig {
        api_key: Some("base-key".to_string()),
        base_url: Some("https://base.example.com".to_string()),
        model: Some("base-model".to_string()),
        prompt_caching: Some(PromptCachingConfig::Enabled(true)),
        provider: Some("openai".to_string()),
        ..Default::default()
    };
    let overlay = ProviderConfig::default();

    let merged = merge_provider_configs(base, overlay);
    assert_eq!(merged.api_key.as_deref(), Some("base-key"));
    assert_eq!(merged.base_url.as_deref(), Some("https://base.example.com"));
    assert_eq!(merged.model.as_deref(), Some("base-model"));
    assert!(matches!(
        merged.prompt_caching,
        Some(PromptCachingConfig::Enabled(true))
    ));
    assert_eq!(merged.provider.as_deref(), Some("openai"));
}

#[test]
fn test_merge_provider_configs_compat_merges_both() {
    let base = ProviderConfig {
        compat: Some(ProviderCompat {
            merge_assistant_messages: Some(true),
            clean_orphan_tool_calls: Some(true),
            ..Default::default()
        }),
        ..Default::default()
    };
    let overlay = ProviderConfig {
        compat: Some(ProviderCompat {
            merge_assistant_messages: Some(false),
            dedup_tool_results: Some(true),
            ..Default::default()
        }),
        ..Default::default()
    };

    let merged = merge_provider_configs(base, overlay);
    let compat = merged.compat.unwrap();
    assert_eq!(compat.merge_assistant_messages, Some(false));
    assert_eq!(compat.clean_orphan_tool_calls, Some(true));
    assert_eq!(compat.dedup_tool_results, Some(true));
}

#[test]
fn test_merge_provider_configs_both_empty() {
    let merged = merge_provider_configs(ProviderConfig::default(), ProviderConfig::default());
    assert!(merged.api_key.is_none());
    assert!(merged.base_url.is_none());
    assert!(merged.model.is_none());
    assert!(merged.provider.is_none());
    assert!(merged.prompt_caching.is_none());
    assert!(merged.compat.is_none());
}

#[test]
fn test_resolve_builtin_provider_with_config() {
    let mut providers = StrMap::new();
    providers.insert(
        "openai".to_string(),
        ProviderConfig {
            api_key: Some("openai-key".to_string()),
            base_url: Some("https://custom-openai.example.com".to_string()),
            ..Default::default()
        },
    );

    let resolved = resolve_provider_alias(&providers, "openai", &catalog()).unwrap();
    assert_eq!(resolved.requested_name, "openai");
    assert_eq!(resolved.provider_type, ProviderType::OpenAI);
    assert_eq!(
        resolved.effective_config.api_key.as_deref(),
        Some("openai-key")
    );
    assert_eq!(
        resolved.effective_config.base_url.as_deref(),
        Some("https://custom-openai.example.com")
    );
}

#[test]
fn test_resolve_builtin_provider_without_config_entry() {
    let providers = StrMap::new();

    let resolved = resolve_provider_alias(&providers, "anthropic", &catalog()).unwrap();
    assert_eq!(resolved.requested_name, "anthropic");
    assert_eq!(resolved.provider_type, ProviderType::Anthropic);
    assert!(resolved.effective_config.api_key.is_none());
    assert!(resolved.effective_config.base_url.is_none());
    assert!(resolved.effective_config.model.is_none());
}

#[test]
fn test_resolve_alias_maps_to_invalid_builtin_type() {
    let mut providers = StrMap::new();
    providers.insert(
        "my-db".to_string(),
        ProviderConfig {
            provider: Some("mysql".to_string()),
            ..Default::default()
        },
    );

    let result = resolve_provider_alias(&providers, "my-db", &catalog());
    assert!(result.is_err());
    let msg = result.unwrap_err().message();
    assert!(msg.contains("my-db"));
    assert!(msg.contains("mysql"));
    assert!(msg.contains("not a built-in provider"));
}

#[test]
fn test_resolve_alias_not_found_in_providers() {
    let providers = StrMap::new();

    let result = resolve_provider_alias(&providers, "nonexistent", &catalog());
    assert!(result.is_err());
    let msg = result.unwrap_err().message();
    assert!(msg.contains("nonexistent"));
    assert!(msg.contains("built-in provider"));
    assert!(msg.contains("[providers.nonexistent]"));
}

#[test]
fn test_provider_label_is_alias_name_not_underlying_type() {
    let mut providers = StrMap::new();
    providers.insert(
        "my-service".to_string(),
        ProviderConfig {
            provider: Some("openai".to_string()),
            api_key: Some("key".to_string()),
            ..Default::default()
        },
    );

    let resolved = resolve_provider_alias(&providers, "my-service", &catalog()).unwrap();
    assert_eq!(resolved.requested_name, "my-service");
    assert_eq!(resolved.provider_type, ProviderType::OpenAI);
}

#[test]
fn test_provider_label_is_builtin_name_for_builtin() {
    let providers = StrMap::new();

    for (name, expected_type) in [
        ("anthropic", ProviderType::Anthropic),
        ("openai", ProviderType::OpenAI),
        ("bedrock", ProviderType::Bedrock),
        ("vertex", ProviderType::Vertex),
    ] {
        let resolved = resolve_provider_alias(&providers, name, &catalog()).unwrap();
        assert_eq!(resolved.requested_name, name);
        assert_eq!(resolved.provider_type, expected_type);
    }
}

#[test]
fn test_alias_model_available_in_effective_config() {
    let mut providers = StrMap::new();
    providers.insert(
        "my-service".to_string(),
        ProviderConfig {
            provider: Some("openai".to_string()),
            model: Some("alias-model-v1".to_string()),
            ..Default::default()
        },
    );

    let resolved = resolve_provider_alias(&providers, "my-service", &catalog()).unwrap();
    assert_eq!(
        resolved.effective_config.model.as_deref(),
        Some("alias-model-v1")
    );
}

#[test]
fn test_alias_model_inherits_from_underlying_provider() {
    let mut providers = StrMap::new();
    providers.insert(
        "openai".to_string(),
        ProviderConfig {
            model: Some(OPENAI_GPT4O.to_string()),
            ..Default::default()
        },
    );
    providers.insert(
        "my-service".to_string(),
        ProviderConfig {
            provider: Some("openai".to_string()),
            base_url: Some("https://my-service.example.com".to_string()),
            ..Default::default()
        },
    );

    let resolved = resolve_provider_alias(&providers, "my-service", &catalog()).unwrap();
    assert_eq!(
        resolved.effective_config.model.as_deref(),
        Some(OPENAI_GPT4O)
    );
}

#[test]
fn test_alias_model_overrides_underlying_provider_model() {
    let mut providers = StrMap::new();
    providers.insert(
        "openai".to_string(),
        ProviderConfig {
            model: Some("gpt-4o".to_string()),
            ..Default::default()
        },
    );
    providers.insert(
        "my-service".to_string(),
        ProviderConfig {
            provider: Some("openai".to_string()),
            model: Some("custom-model-v2".to_string()),
            ..Default::default()
        },
    );

    let resolved = resolve_provider_alias(&providers, "my-service", &catalog()).unwrap();
    assert_eq!(
        resolved.effective_config.model.as_deref(),
        Some("custom-model-v2")
    );
}

#[test]
fn test_config_default_min_prefix_tokens_floor() {
    assert_eq!(
        Config::default().prompt_caching_min_prefix_tokens,
        DEFAULT_CACHE_MIN_PREFIX_TOKENS
    );
    assert_eq!(DEFAULT_CACHE_MIN_PREFIX_TOKENS, 1024);
}

#[test]
fn config_debug_redacts_api_key() {
    let cfg = Config {
        api_key: "sk-super-secret-LEAK".to_string(),
        model: "gpt-5.5".to_string(),
        ..Default::default()
    };
    let dbg = cfg.debug_text();
    assert!(
        !dbg.contains("sk-super-secret-LEAK"),
        "api_key must not leak via Debug"
    );
    assert!(dbg.contains("<redacted>"));
    assert!(dbg.contains("gpt-5.5"));
}

#[test]
fn config_debug_shows_none_for_empty_api_key() {
    let cfg = Config::default();
    let dbg = cfg.debug_text();
    assert!(dbg.contains("api_key: \"<none>\""));
}

#[test]
fn bedrock_debug_redacts_secrets() {
    let cfg = BedrockConfig {
        region: Some("us-east-1".to_string()),
        access_key_id: Some("AKIAEXAMPLE".to_string()),
        secret_access_key: Some("super-secret-value".to_string()),
        session_token: Some("token-value".to_string()),
        profile: Some("default".to_string()),
    };
    let dbg = cfg.debug_text();
    assert!(dbg.contains("us-east-1"));
    assert!(dbg.contains("default"));
    assert!(dbg.contains("<redacted>"));
    assert!(!dbg.contains("AKIAEXAMPLE"));
    assert!(!dbg.contains("super-secret-value"));
    assert!(!dbg.contains("token-value"));
}

#[test]
fn vertex_debug_redacts_inline_key() {
    let cfg = VertexConfig {
        project_id: Some("my-proj".to_string()),
        region: Some("us-central1".to_string()),
        credentials_file: Some("/path/to/key.json".to_string()),
        service_account_json: Some("{\"private_key\":\"LEAK\"}".to_string()),
    };
    let dbg = cfg.debug_text();
    assert!(dbg.contains("my-proj"));
    assert!(dbg.contains("<redacted>"));
    assert!(!dbg.contains("LEAK"));
}

#[test]
fn stored_key_is_read_back_by_resolution() {
    let mut store = StrMap::new();
    let write_key = credentials_store_key(ProviderType::Deepseek).unwrap();
    store.insert(write_key, "sk-deepseek-secret".to_string());

    let read = lookup_store_api_key(&store, ProviderType::Deepseek);
    assert_eq!(read.as_deref(), Some("sk-deepseek-secret"));

    assert_eq!(lookup_store_api_key(&store, ProviderType::Bedrock), None);
}

#[test]
fn test_prompt_caching_detailed_table_form_parses() {
    let pc = PromptCachingConfig::Detailed(PromptCachingDetail {
        enabled: Some(true),
        min_prefix_tokens: Some(2048),
    });
    assert_eq!(pc.enabled(), Some(true));
    assert_eq!(pc.min_prefix_tokens(), Some(2048));
}

#[test]
fn test_prompt_caching_partial_table_and_bool_accessors() {
    let pc = PromptCachingConfig::Detailed(PromptCachingDetail {
        enabled: None,
        min_prefix_tokens: Some(512),
    });
    assert_eq!(pc.enabled(), None, "enabled omitted → provider default");
    assert_eq!(pc.min_prefix_tokens(), Some(512));

    let legacy = PromptCachingConfig::Enabled(false);
    assert_eq!(legacy.enabled(), Some(false));
    assert_eq!(
        legacy.min_prefix_tokens(),
        None,
        "bool form must defer the floor to DEFAULT_CACHE_MIN_PREFIX_TOKENS"
    );
}

#[test]
fn keys_are_looked_for_in_order() {
    let mut sources = no_keys();
    sources.environment.insert("ANTHROPIC_API_KEY".to_string(), "env".to_string());
    let found = |s: &KeySources| resolve_api_key(None, None, ProviderType::Anthropic, s).unwrap();
    assert_eq!(found(&sources), "env");
    sources.environment.insert("API_KEY".to_string(), "generic".to_string());
    assert_eq!(found(&sources), "generic");
    sources
        .stored
        .insert("providers.anthropic.api_key".to_string(), "stored".to_string());
    assert_eq!(found(&sources), "stored");
}

#[test]
fn provider_errors_tell_what_is_wrong() {
    let mut providers = StrMap::new();
    providers.insert("bare".to_string(), ProviderConfig::default());
    providers.insert(
        "dangling".to_string(),
        ProviderConfig { provider: Some("mysql".to_string()), ..ProviderConfig::default() },
    );
    assert!(matches!(
        resolve_provider_alias(&providers, "bare", &catalog()),
        Err(ProviderResolveError::Unmapped(_))
    ));
    assert!(matches!(
        resolve_provider_alias(&providers, "dangling", &catalog()),
        Err(ProviderResolveError::Dangling { .. })
    ));
    assert!(matches!(
        resolve_provider_alias(&providers, "nothing", &catalog()),
        Err(ProviderResolveError::Unknown(_))
    ));
}

#[test]
fn built_in_names_beat_aliases_of_the_same_name() {
    let mut providers = StrMap::new();
    providers.insert(
        "openai".to_string(),
        ProviderConfig { provider: Some("anthropic".to_string()), ..ProviderConfig::default() },
    );
    let resolved = resolve_provider_alias(&providers, "openai", &catalog()).unwrap();
    assert_eq!(resolved.provider_type, ProviderType::OpenAI);
}

#[test]
fn slugs_parse_back_to_their_provider() {
    let all = [
        ProviderType::Anthropic,
        ProviderType::OpenAI,
        ProviderType::Bedrock,
        ProviderType::Vertex,
        ProviderType::Gemini,
        ProviderType::AzureOpenAI,
        ProviderType::Together,
        ProviderType::Fireworks,
        ProviderType::Nvidia,
        ProviderType::Perplexity,
        ProviderType::Cerebras,
        ProviderType::OpenRouter,
        ProviderType::FluxRouter,
        ProviderType::Deepseek,
        ProviderType::Xai,
        ProviderType::Groq,
        ProviderType::Moonshot,
        ProviderType::Qwen,
        ProviderType::Mistral,
        ProviderType::Cohere,
        ProviderType::OpenAIChatGpt,
        ProviderType::MiniMax,
        ProviderType::Sakana,
    ];
    for (i, p) in all.iter().enumerate() {
        assert_eq!(parse_builtin_provider(provider_type_slug(*p)), Some(*p));
        for q in &all[..i] {
            let (a, b) = (credentials_store_key(*p), credentials_store_key(*q));
            assert!(a.is_none() || a != b, "{p:?} and {q:?} share a slot");
        }
    }
}

#[test]
fn effort_is_for_reasoning_models() {
    assert!(openai_model_accepts_effort("o3-mini"));
    assert!(openai_model_accepts_effort("gpt-5.5"));
    assert!(!openai_model_accepts_effort("gpt-4o"));
}

#[test]
fn council_member_follows_the_catalog() {
    let mut sources = no_keys();
    sources.environment.insert("NOVITA_API_KEY".to_string(), "nk".to_string());
    let (cfg, model) = resolve_council_provider(
        &StrMap::new(),
        &Config::default(),
        "novita-ai:llama",
        &catalog(),
        &sources,
        &models(),
    )
    .unwrap();
    assert_eq!(cfg.api_key, "nk");
    assert_eq!(cfg.base_url, "https://api.novita.ai/openai");
    assert_eq!(cfg.model, "llama");
    assert_eq!(model.as_deref(), Some("llama"));
}

#[test]
fn debug_text_quotes_what_it_shows() {
    let cfg = VertexConfig {
        project_id: Some("a\"b".to_string()),
        region: None,
        credentials_file: None,
        service_account_json: None,
    };
    assert_eq!(
        cfg.debug_text(),
        "VertexConfig { project_id: Some(\"a\\\"b\"), region: None, credentials_file: None, \
         service_account_json: None }"
    );
}

#[test]
fn council_member_inherits_what_is_carried() {
    let mut base = Config::default();
    base.thinking = Some(CarriedSettings { text: "Enabled".to_string() });
    base.debug.text = "trace".to_string();
    let mut sources = no_keys();
    sources.environment.insert("OPENAI_API_KEY".to_string(), "k".to_string());
    let (cfg, _) = resolve_council_provider(
        &StrMap::new(),
        &base,
        "openai",
        &catalog(),
        &sources,
        &models(),
    )
    .unwrap();
    assert_eq!(cfg.thinking.as_ref().unwrap().text, "Enabled");
    assert_eq!(cfg.debug.text, "trace");
    let text = cfg.debug_text();
    assert!(text.contains(", thinking: Some(Enabled), prompt_caching: "), "{text}");
    assert!(text.contains(", debug: trace, observability: "), "{text}");
}
