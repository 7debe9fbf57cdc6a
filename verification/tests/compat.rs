use wcore_config::compat::{compat_defaults_for, ProviderCompat};
use wcore_config::config::{AzureAuthMode, ProviderType};
use wcore_config::float_bits::FloatBits;
use wcore_config::schema::sanitize_json_schema;
use wcore_config::value::Value;

fn amount(f: Option<FloatBits>) -> Option<f64> {
    f.map(|f| f64::from_bits(f.bits))
}

fn parsed(text: &str) -> serde_json::Value {
    serde_json::from_str(text).unwrap()
}

fn tree(v: &serde_json::Value) -> Value {
    match v {
        serde_json::Value::Null => Value::Null,
        serde_json::Value::Bool(b) => Value::Bool(*b),
        serde_json::Value::Number(n) => Value::Atom(n.to_string()),
        serde_json::Value::String(s) => Value::Text(s.clone()),
        serde_json::Value::Array(items) => Value::List(items.iter().map(tree).collect()),
        serde_json::Value::Object(fields) => {
            Value::Table(fields.iter().map(|(k, v)| (k.clone(), tree(v))).collect())
        }
    }
}

fn document(v: &Value) -> serde_json::Value {
    match v {
        Value::Null => serde_json::Value::Null,
        Value::Bool(b) => serde_json::Value::Bool(*b),
        Value::Atom(n) => parsed(n),
        Value::Text(s) => serde_json::Value::String(s.clone()),
        Value::List(items) => serde_json::Value::Array(items.iter().map(document).collect()),
        Value::Table(fields) => serde_json::Value::Object(
            fields.iter().map(|(k, v)| (k.clone(), document(v))).collect(),
        ),
    }
}

#[test]
fn test_anthropic_defaults() {
    let compat = ProviderCompat::anthropic_defaults();
    assert!(compat.ensure_alternation());
    assert!(compat.merge_same_role());
    assert!(compat.auto_tool_id());
    assert!(!compat.sanitize_schema());
    assert!(!compat.merge_assistant_messages());
    assert!(!compat.clean_orphan_tool_calls());
}

#[test]
fn test_bedrock_defaults() {
    let compat = ProviderCompat::bedrock_defaults();
    assert!(compat.ensure_alternation());
    assert!(compat.merge_same_role());
    assert!(compat.auto_tool_id());
    assert!(compat.sanitize_schema());
}

#[test]
fn test_openai_defaults() {
    let compat = ProviderCompat::openai_defaults();
    assert!(compat.merge_assistant_messages());
    assert!(compat.clean_orphan_tool_calls());
    assert!(compat.dedup_tool_results());
    assert_eq!(compat.max_tokens_field.as_deref(), Some("max_tokens"));
    assert!(!compat.ensure_alternation());
}

#[test]
fn openai_compat_v1_base_providers_pin_api_path() {
    for compat in [
        ProviderCompat::together_defaults(),
        ProviderCompat::fireworks_defaults(),
        ProviderCompat::nvidia_defaults(),
        ProviderCompat::perplexity_defaults(),
        ProviderCompat::cerebras_defaults(),
        ProviderCompat::flux_router_defaults(),
        ProviderCompat::xai_defaults(),
        ProviderCompat::mistral_defaults(),
        ProviderCompat::moonshot_defaults(),
        ProviderCompat::qwen_defaults(),
    ] {
        assert_eq!(compat.api_path(), "/chat/completions");
    }
}

#[test]
fn test_merge_user_overrides_defaults() {
    let defaults = ProviderCompat::openai_defaults();
    let user = ProviderCompat {
        max_tokens_field: Some("max_completion_tokens".into()),
        merge_assistant_messages: Some(false),
        ..Default::default()
    };

    let merged = ProviderCompat::merge(defaults, user);
    assert_eq!(
        merged.max_tokens_field.as_deref(),
        Some("max_completion_tokens")
    );
    assert!(!merged.merge_assistant_messages());
    assert!(merged.clean_orphan_tool_calls());
    assert!(merged.dedup_tool_results());
}

#[test]
fn test_merge_empty_user_keeps_defaults() {
    let defaults = ProviderCompat::anthropic_defaults();
    let user = ProviderCompat::default();

    let merged = ProviderCompat::merge(defaults, user);
    assert!(merged.ensure_alternation());
    assert!(merged.merge_same_role());
    assert!(merged.auto_tool_id());
}

#[test]
fn test_sanitize_schema_wraps_non_object_root() {
    let schema = parsed(r#"{"type": "string"}"#);
    let sanitized = document(&sanitize_json_schema(&tree(&schema)));

    assert_eq!(sanitized["type"], "object");
    assert_eq!(sanitized["properties"]["value"]["type"], "string");
}

#[test]
fn test_sanitize_schema_removes_additional_properties() {
    let schema = parsed(r#"{
        "type": "object",
        "properties": {
            "name": {"type": "string", "additionalProperties": false}
        },
        "additionalProperties": false
    }"#);
    let sanitized = document(&sanitize_json_schema(&tree(&schema)));

    assert!(sanitized.get("additionalProperties").is_none());
    assert!(
        sanitized["properties"]["name"]
            .get("additionalProperties")
            .is_none()
    );
}

#[test]
fn test_sanitize_schema_normalizes_array_types() {
    let schema = parsed(r#"{
        "type": "object",
        "properties": {
            "name": {"type": ["string", "null"]}
        }
    }"#);
    let sanitized = document(&sanitize_json_schema(&tree(&schema)));

    assert_eq!(sanitized["properties"]["name"]["type"], "string");
}

#[test]
fn test_sanitize_schema_no_change_for_valid_object() {
    let schema = parsed(r#"{
        "type": "object",
        "properties": {
            "cmd": {"type": "string"}
        },
        "required": ["cmd"]
    }"#);
    let sanitized = document(&sanitize_json_schema(&tree(&schema)));

    assert_eq!(sanitized["type"], "object");
    assert_eq!(sanitized["properties"]["cmd"]["type"], "string");
}

#[test]
fn test_anthropic_defaults_capability_fields() {
    let compat = ProviderCompat::anthropic_defaults();
    assert_eq!(compat.supports_thinking, Some(true));
    assert_eq!(compat.supports_effort, Some(false));
    assert!(compat.effort_levels.is_none());
}

#[test]
fn test_openai_defaults_capability_fields() {
    let compat = ProviderCompat::openai_defaults();
    assert_eq!(compat.supports_thinking, Some(false));
    assert_eq!(compat.supports_effort, Some(true));
    assert_eq!(
        compat.effort_levels,
        Some(vec![
            "low".to_string(),
            "medium".to_string(),
            "high".to_string()
        ])
    );
}

#[test]
fn test_bedrock_defaults_capability_fields() {
    let compat = ProviderCompat::bedrock_defaults();
    assert_eq!(compat.supports_thinking, Some(true));
    assert_eq!(compat.supports_effort, Some(false));
}

#[test]
fn test_merge_capability_fields_user_overrides() {
    let defaults = ProviderCompat::openai_defaults();
    let user = ProviderCompat {
        supports_thinking: Some(true),
        ..Default::default()
    };
    let merged = ProviderCompat::merge(defaults, user);
    assert_eq!(merged.supports_thinking, Some(true));
    assert_eq!(merged.supports_effort, Some(true));
}

#[test]
fn test_capability_accessors() {
    let compat = ProviderCompat::anthropic_defaults();
    assert!(compat.supports_thinking());
    assert!(!compat.supports_effort());
    assert!(compat.effort_levels().is_empty());

    let compat2 = ProviderCompat::openai_defaults();
    assert!(!compat2.supports_thinking());
    assert!(compat2.supports_effort());
    assert_eq!(compat2.effort_levels(), &["low", "medium", "high"]);
}

#[test]
fn anthropic_defaults_enable_cache_message_breakpoints() {
    let compat = ProviderCompat::anthropic_defaults();
    assert_eq!(compat.cache_message_breakpoints, Some(true));
    assert!(compat.cache_message_breakpoints());
}

#[test]
fn bedrock_defaults_enable_cache_message_breakpoints() {
    let compat = ProviderCompat::bedrock_defaults();
    assert_eq!(compat.cache_message_breakpoints, Some(true));
    assert!(compat.cache_message_breakpoints());
}

#[test]
fn openai_defaults_do_not_enable_cache_message_breakpoints() {
    let compat = ProviderCompat::openai_defaults();
    assert_eq!(compat.cache_message_breakpoints, None);
    assert!(!compat.cache_message_breakpoints());
}

#[test]
fn user_can_override_cache_message_breakpoints_via_merge() {
    let defaults = ProviderCompat::anthropic_defaults();
    let user = ProviderCompat {
        cache_message_breakpoints: Some(false),
        ..ProviderCompat::default()
    };
    let merged = ProviderCompat::merge(defaults, user);
    assert_eq!(merged.cache_message_breakpoints, Some(false));
    assert!(!merged.cache_message_breakpoints());
}

#[test]
fn cache_message_breakpoints_accessor_returns_false_when_none() {
    let compat = ProviderCompat::default();
    assert_eq!(compat.cache_message_breakpoints, None);
    assert!(!compat.cache_message_breakpoints());
}

#[test]
fn vertex_provider_type_inherits_anthropic_cache_breakpoints() {

    let resolved = compat_defaults_for(ProviderType::Vertex);
    assert_eq!(
        resolved.cache_message_breakpoints,
        Some(true)
    );
    assert!(resolved.cache_message_breakpoints());
}

#[test]
fn every_default_preset_has_provider_type() {
    assert_eq!(
        ProviderCompat::anthropic_defaults().provider_type(),
        "anthropic"
    );
    assert_eq!(
        ProviderCompat::bedrock_defaults().provider_type(),
        "bedrock"
    );
    assert_eq!(ProviderCompat::openai_defaults().provider_type(), "openai");
    assert_eq!(ProviderCompat::vertex_defaults().provider_type(), "vertex");
    assert_eq!(ProviderCompat::ollama_defaults().provider_type(), "ollama");
}

#[test]
fn anthropic_preset_has_cost_rows() {
    let c = ProviderCompat::anthropic_defaults();
    assert!(amount(c.cost_per_input_token).unwrap_or(0.0) > 0.0);
    assert!(amount(c.cost_per_output_token).unwrap_or(0.0) > 0.0);
    assert!(amount(c.cost_per_cache_read_token).unwrap_or(0.0) > 0.0);
    assert!(amount(c.cost_per_cache_write_token).unwrap_or(0.0) > 0.0);
}

#[test]
fn bedrock_preset_has_cost_rows() {
    let c = ProviderCompat::bedrock_defaults();
    assert!(amount(c.cost_per_input_token).unwrap_or(0.0) > 0.0);
    assert!(amount(c.cost_per_output_token).unwrap_or(0.0) > 0.0);
}

#[test]
fn openai_preset_has_cost_rows() {
    let c = ProviderCompat::openai_defaults();
    assert_eq!(amount(c.cost_per_input_token), Some(0.0));
    assert_eq!(amount(c.cost_per_output_token), Some(0.0));
}

#[test]
fn vertex_inherits_anthropic_cost_rows_with_vertex_type() {
    let v = ProviderCompat::vertex_defaults();
    let a = ProviderCompat::anthropic_defaults();
    assert_eq!(v.provider_type(), "vertex");
    assert_eq!(v.cost_per_input_token, a.cost_per_input_token);
    assert_eq!(v.cost_per_output_token, a.cost_per_output_token);
}

#[test]
fn ollama_preset_is_zero_cost() {
    let c = ProviderCompat::ollama_defaults();
    assert_eq!(amount(c.cost_per_input_token), Some(0.0));
    assert_eq!(amount(c.cost_per_output_token), Some(0.0));
}

#[test]
fn unknown_provider_type_when_not_set() {
    let c = ProviderCompat::default();
    assert_eq!(c.provider_type(), "unknown");
}

#[test]
fn merge_user_cost_overrides_default() {
    let defaults = ProviderCompat::anthropic_defaults();
    let user = ProviderCompat {
        cost_per_input_token: Some(FloatBits { bits: 0.0f64.to_bits() }),
        ..ProviderCompat::default()
    };
    let merged = ProviderCompat::merge(defaults, user);
    assert_eq!(amount(merged.cost_per_input_token), Some(0.0));
    assert!(amount(merged.cost_per_output_token).unwrap_or(0.0) > 0.0);
}

#[test]
fn merge_user_provider_type_overrides_default() {
    let defaults = ProviderCompat::anthropic_defaults();
    let user = ProviderCompat {
        provider_type: Some("custom-fork".into()),
        ..ProviderCompat::default()
    };
    let merged = ProviderCompat::merge(defaults, user);
    assert_eq!(merged.provider_type(), "custom-fork");
}

#[test]
fn tier2_presets_report_their_real_provider_id() {
    assert_eq!(
        ProviderCompat::azure_openai_defaults().provider_type(),
        "azure-openai"
    );
    assert_eq!(
        ProviderCompat::together_defaults().provider_type(),
        "together"
    );
    assert_eq!(
        ProviderCompat::fireworks_defaults().provider_type(),
        "fireworks"
    );
    assert_eq!(ProviderCompat::nvidia_defaults().provider_type(), "nvidia");
    assert_eq!(
        ProviderCompat::perplexity_defaults().provider_type(),
        "perplexity"
    );
    assert_eq!(
        ProviderCompat::cerebras_defaults().provider_type(),
        "cerebras"
    );
}

#[test]
fn tier2_presets_have_no_inline_cost_rows() {
    for c in [
        ProviderCompat::azure_openai_defaults(),
        ProviderCompat::together_defaults(),
        ProviderCompat::fireworks_defaults(),
        ProviderCompat::nvidia_defaults(),
        ProviderCompat::perplexity_defaults(),
        ProviderCompat::cerebras_defaults(),
    ] {
        assert_ne!(
            amount(c.cost_per_input_token),
            Some(8.0 / 1_000_000.0),
            "provider {} must not carry GPT-class input price",
            c.provider_type()
        );
        assert_ne!(
            amount(c.cost_per_output_token),
            Some(32.0 / 1_000_000.0),
            "provider {} must not carry GPT-class output price",
            c.provider_type()
        );
        assert_eq!(
            amount(c.cost_per_input_token),
            Some(0.0),
            "provider {} must use Some(0.0) sentinel for cost attribution",
            c.provider_type()
        );
    }
}

#[test]
fn tier2_presets_keep_openai_wire_behaviour() {
    let c = ProviderCompat::together_defaults();
    assert!(c.merge_assistant_messages());
    assert!(c.clean_orphan_tool_calls());
    assert!(c.dedup_tool_results());
    assert!(c.supports_effort());
    assert_eq!(c.max_tokens_field.as_deref(), Some("max_tokens"));
}

#[test]
fn openai_preset_unchanged() {
    let c = ProviderCompat::openai_defaults();
    assert_eq!(c.provider_type(), "openai");
    assert!(c.cost_per_input_token.is_some());
}

#[test]
fn compact_bash_defaults_on_and_honors_override() {
    let mut c = ProviderCompat::default();
    assert!(c.compact_bash(), "default must be ON");
    c.compact_bash = Some(false);
    assert!(!c.compact_bash());
}

#[test]
fn flux_router_preset_is_router() {
    let c = ProviderCompat::flux_router_defaults();
    assert_eq!(c.input_optimization, Some("router".to_string()));
    assert_eq!(c.input_optimization(), "router");
}

#[test]
fn openrouter_preset_is_router() {
    let c = ProviderCompat::openrouter_defaults();
    assert_eq!(c.input_optimization, Some("router".to_string()));
    assert_eq!(c.input_optimization(), "router");
}

#[test]
fn direct_providers_are_client() {
    let openai = ProviderCompat::openai_defaults();
    assert_eq!(openai.input_optimization, None);
    assert_eq!(openai.input_optimization(), "client");

    let anthropic = ProviderCompat::anthropic_defaults();
    assert_eq!(anthropic.input_optimization, None);
    assert_eq!(anthropic.input_optimization(), "client");
}

#[test]
fn openai_compat_non_routers_are_client() {
    for c in [
        ProviderCompat::together_defaults(),
        ProviderCompat::groq_defaults(),
        ProviderCompat::deepseek_defaults(),
    ] {
        assert_eq!(
            c.input_optimization,
            None,
            "provider {} is a direct provider, not a router",
            c.provider_type()
        );
        assert_eq!(c.input_optimization(), "client");
    }
}

#[test]
fn accessor_defaults_to_client_when_none() {
    let c = ProviderCompat::default();
    assert_eq!(c.input_optimization, None);
    assert_eq!(c.input_optimization(), "client");
}

#[test]
fn merge_user_input_optimization_overrides_default() {
    let defaults = ProviderCompat::openai_defaults();
    let user = ProviderCompat {
        input_optimization: Some("router".to_string()),
        ..ProviderCompat::default()
    };
    let merged = ProviderCompat::merge(defaults, user);
    assert_eq!(merged.input_optimization, Some("router".to_string()));
    assert_eq!(merged.input_optimization(), "router");
}

#[test]
fn merge_empty_user_keeps_router_default() {
    let defaults = ProviderCompat::flux_router_defaults();
    let merged = ProviderCompat::merge(defaults, ProviderCompat::default());
    assert_eq!(merged.input_optimization(), "router");
}

#[test]
fn azure_auth_mode_deserializes_and_merges() {
    assert_eq!(ProviderCompat::default().azure_auth_mode, None);
    let defaults = ProviderCompat {
        azure_auth_mode: Some(AzureAuthMode::ApiKey),
        ..Default::default()
    };
    let user = ProviderCompat {
        azure_auth_mode: Some(AzureAuthMode::AadBearer),
        ..Default::default()
    };
    assert_eq!(
        ProviderCompat::merge(defaults, user).azure_auth_mode,
        Some(AzureAuthMode::AadBearer)
    );
}

#[test]
fn presets_are_named_after_their_provider() {
    let named = [
        (ProviderType::Anthropic, "anthropic"),
        (ProviderType::OpenAI, "openai"),
        (ProviderType::Bedrock, "bedrock"),
        (ProviderType::Vertex, "vertex"),
        (ProviderType::Gemini, "gemini"),
        (ProviderType::Cohere, "cohere"),
        (ProviderType::Groq, "groq"),
        (ProviderType::Sakana, "sakana"),
        (ProviderType::MiniMax, "minimax"),
    ];
    for (provider, name) in named {
        assert_eq!(compat_defaults_for(provider).provider_type(), name);
    }
}

#[test]
fn merging_three_layers_can_start_at_either_end() {
    let a = || ProviderCompat::openai_defaults();
    let b = || ProviderCompat { supports_thinking: Some(true), ..ProviderCompat::default() };
    let c = || ProviderCompat {
        supports_thinking: Some(false),
        api_path: Some("/x".to_string()),
        ..ProviderCompat::default()
    };
    let left = ProviderCompat::merge(ProviderCompat::merge(a(), b()), c());
    let right = ProviderCompat::merge(a(), ProviderCompat::merge(b(), c()));
    assert_eq!(left.supports_thinking, Some(false));
    assert_eq!(left.supports_thinking, right.supports_thinking);
    assert_eq!(left.api_path(), "/x");
    assert_eq!(right.api_path(), "/x");
    assert_eq!(left.max_tokens_field, right.max_tokens_field);
}

#[test]
fn unset_flags_read_as_their_defaults() {
    let c = ProviderCompat::default();
    assert!(!c.merge_assistant_messages());
    assert!(!c.sanitize_schema());
    assert!(!c.supports_thinking());
    assert_eq!(c.api_path(), "/v1/chat/completions");
    assert_eq!(c.uses_responses_api(), None);
    assert!(c.effort_levels().is_empty());
}

#[test]
fn catalog_presets_carry_their_id_and_path() {
    let c = ProviderCompat::from_catalog_entry("acme", Some("/chat"));
    assert_eq!(c.provider_type(), "acme");
    assert_eq!(c.api_path(), "/chat");
}

#[test]
fn sanitized_schema_is_clean_at_every_depth() {
    let schema = parsed(
        r#"{"type": "object", "additionalProperties": true, "anyOf": [
            {"additionalProperties": false, "items": {"type": ["integer", "null"], "additionalProperties": 1}}
        ]}"#,
    );
    let clean = document(&sanitize_json_schema(&tree(&schema)));
    assert!(!clean.to_string().contains("additionalProperties"));
    assert_eq!(clean["type"], "object");
    assert_eq!(clean["anyOf"][0]["items"]["type"], "integer");
}

#[test]
fn sanitizing_again_changes_nothing() {
    let schema = parsed(
        r#"{"type": ["array", "null"], "items": {"type": ["string", "integer", "null"],
            "additionalProperties": true}, "properties": {"x": {"type": ["null", "number"]}}}"#,
    );
    let once = sanitize_json_schema(&tree(&schema));
    let twice = sanitize_json_schema(&once);
    assert_eq!(document(&once), document(&twice));
    let value = &document(&once)["properties"]["value"];
    assert_eq!(value["type"], "array");
    assert_eq!(value["properties"]["x"]["type"], "number");
    assert_eq!(
        value["items"]["type"],
        parsed(r#"["string", "integer", "null"]"#)
    );
}
