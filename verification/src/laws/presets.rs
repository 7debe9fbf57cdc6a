//! What each provider's compatibility preset sets.

use crate::compat::{is_ollama_preset, is_openai_compat, is_preset_of, setting_or, ProviderCompat};
use crate::config::provider::ProviderType;
use crate::float_bits::FloatBits;
use crate::text::texts_are;
use vstd::prelude::*;

verus! {

/// Anthropic, and the providers that speak its protocol, alternate and merge roles, make tool ids,
/// think, take no effort setting, mark messages for the cache, and cost 15 dollars for a million
/// tokens in and 75 out, 1.5 for a cached read and 18.75 for a cached write.
pub proof fn law_anthropic_preset(p: ProviderType, c: ProviderCompat)
    requires
        is_preset_of(p, c),
        p == ProviderType::Anthropic || p == ProviderType::Vertex || p == ProviderType::MiniMax,
    ensures
        c.max_tokens_field is None,
        c.merge_assistant_messages is None,
        c.clean_orphan_tool_calls is None,
        c.dedup_tool_results is None,
        c.ensure_alternation == Some(true),
        c.merge_same_role == Some(true),
        c.sanitize_schema is None,
        c.strip_patterns is None,
        c.auto_tool_id == Some(true),
        c.api_path is None,
        c.supports_thinking == Some(true),
        c.supports_effort == Some(false),
        c.effort_levels is None,
        c.cache_message_breakpoints == Some(true),
        c.cost_per_input_token == Some(FloatBits { bits: 0x3eef75104d551d69 }),
        c.cost_per_output_token == Some(FloatBits { bits: 0x3f13a92a30553261 }),
        c.cost_per_cache_read_token == Some(FloatBits { bits: 0x3eb92a737110e454 }),
        c.cost_per_cache_write_token == Some(FloatBits { bits: 0x3ef3a92a30553261 }),
        c.input_optimization is None,
        c.compact_bash is None,
        c.include_usage_in_stream is None,
        c.uses_responses_api is None,
        c.azure_auth_mode is None,
        p == ProviderType::Anthropic ==> c.provider_type is Some && c.provider_type->0@
            == "anthropic"@,
        p == ProviderType::Vertex ==> c.provider_type is Some && c.provider_type->0@ == "vertex"@,
        p == ProviderType::MiniMax ==> c.provider_type is Some && c.provider_type->0@ == "minimax"@,
{
}

/// Bedrock has what Anthropic has, and sanitises schemas.
pub proof fn law_bedrock_preset(c: ProviderCompat)
    requires
        is_preset_of(ProviderType::Bedrock, c),
    ensures
        c.max_tokens_field is None,
        c.merge_assistant_messages is None,
        c.clean_orphan_tool_calls is None,
        c.dedup_tool_results is None,
        c.ensure_alternation == Some(true),
        c.merge_same_role == Some(true),
        c.sanitize_schema == Some(true),
        c.strip_patterns is None,
        c.auto_tool_id == Some(true),
        c.api_path is None,
        c.supports_thinking == Some(true),
        c.supports_effort == Some(false),
        c.effort_levels is None,
        c.cache_message_breakpoints == Some(true),
        c.provider_type is Some && c.provider_type->0@ == "bedrock"@,
        c.cost_per_input_token == Some(FloatBits { bits: 0x3eef75104d551d69 }),
        c.cost_per_output_token == Some(FloatBits { bits: 0x3f13a92a30553261 }),
        c.cost_per_cache_read_token == Some(FloatBits { bits: 0x3eb92a737110e454 }),
        c.cost_per_cache_write_token == Some(FloatBits { bits: 0x3ef3a92a30553261 }),
        c.input_optimization is None,
        c.compact_bash is None,
        c.include_usage_in_stream is None,
        c.uses_responses_api is None,
        c.azure_auth_mode is None,
{
}

/// Gemini merges roles, takes three levels of effort, and costs 1.25 dollars for a million tokens
/// in, 10 out and 0.3125 for a cached read.
pub proof fn law_gemini_preset(c: ProviderCompat)
    requires
        is_preset_of(ProviderType::Gemini, c),
    ensures
        c.max_tokens_field is None,
        c.merge_assistant_messages is None,
        c.clean_orphan_tool_calls is None,
        c.dedup_tool_results is None,
        c.ensure_alternation == Some(false),
        c.merge_same_role == Some(true),
        c.sanitize_schema is None,
        c.strip_patterns is None,
        c.auto_tool_id == Some(false),
        c.api_path is None,
        c.supports_thinking == Some(false),
        c.supports_effort == Some(true),
        c.effort_levels is Some && texts_are(c.effort_levels->0@, seq!["low"@, "medium"@, "high"@]),
        c.cache_message_breakpoints == Some(false),
        c.provider_type is Some && c.provider_type->0@ == "gemini"@,
        c.cost_per_input_token == Some(FloatBits { bits: 0x3eb4f8b588e368f1 }),
        c.cost_per_output_token == Some(FloatBits { bits: 0x3ee4f8b588e368f1 }),
        c.cost_per_cache_read_token == Some(FloatBits { bits: 0x3e94f8b588e368f1 }),
        c.cost_per_cache_write_token is None,
        c.input_optimization is None,
        c.compact_bash is None,
        c.include_usage_in_stream is None,
        c.uses_responses_api is None,
        c.azure_auth_mode is None,
{
}

/// OpenAI counts output as `max_tokens`, merges assistant messages, cleans and dedups tool results,
/// and takes three levels of effort.
pub proof fn law_openai_preset(c: ProviderCompat)
    requires
        is_preset_of(ProviderType::OpenAI, c),
    ensures
        c.max_tokens_field is Some && c.max_tokens_field->0@ == "max_tokens"@,
        c.merge_assistant_messages == Some(true),
        c.clean_orphan_tool_calls == Some(true),
        c.dedup_tool_results == Some(true),
        c.ensure_alternation is None,
        c.merge_same_role is None,
        c.sanitize_schema is None,
        c.strip_patterns is None,
        c.auto_tool_id is None,
        c.api_path is None,
        c.supports_thinking == Some(false),
        c.supports_effort == Some(true),
        c.effort_levels is Some && texts_are(c.effort_levels->0@, seq!["low"@, "medium"@, "high"@]),
        c.cache_message_breakpoints is None,
        c.provider_type is Some && c.provider_type->0@ == "openai"@,
        c.cost_per_input_token == Some(FloatBits { bits: 0 }),
        c.cost_per_output_token == Some(FloatBits { bits: 0 }),
        c.cost_per_cache_read_token is None,
        c.cost_per_cache_write_token is None,
        c.input_optimization is None,
        c.compact_bash is None,
        c.include_usage_in_stream is None,
        c.uses_responses_api is None,
        c.azure_auth_mode is None,
{
}

/// The providers that speak the OpenAI protocol have what OpenAI has, at their own path where that
/// is not the usual one, with no cost for the cache; the two routers shorten the input themselves.
pub proof fn law_openai_family_preset(p: ProviderType, c: ProviderCompat)
    requires
        is_preset_of(p, c),
        p == ProviderType::AzureOpenAI || p == ProviderType::Together || p
            == ProviderType::Fireworks || p == ProviderType::Nvidia || p
            == ProviderType::Perplexity || p == ProviderType::Cerebras || p
            == ProviderType::OpenRouter || p == ProviderType::FluxRouter || p
            == ProviderType::Deepseek || p == ProviderType::Xai || p == ProviderType::Groq || p
            == ProviderType::Moonshot || p == ProviderType::Qwen || p == ProviderType::Mistral
            || p == ProviderType::Sakana || p == ProviderType::OpenAIChatGpt,
    ensures
        c.max_tokens_field is Some && c.max_tokens_field->0@ == "max_tokens"@,
        c.merge_assistant_messages == Some(true),
        c.clean_orphan_tool_calls == Some(true),
        c.dedup_tool_results == Some(true),
        c.ensure_alternation is None,
        c.merge_same_role is None,
        c.sanitize_schema is None,
        c.strip_patterns is None,
        c.auto_tool_id is None,
        c.supports_thinking == Some(false),
        c.supports_effort == Some(true),
        c.effort_levels is Some && texts_are(c.effort_levels->0@, seq!["low"@, "medium"@, "high"@]),
        c.cache_message_breakpoints is None,
        c.cost_per_input_token == Some(FloatBits { bits: 0 }),
        c.cost_per_output_token == Some(FloatBits { bits: 0 }),
        c.cost_per_cache_read_token == Some(FloatBits { bits: 0 }),
        c.cost_per_cache_write_token == Some(FloatBits { bits: 0 }),
        c.compact_bash is None,
        c.include_usage_in_stream is None,
        c.uses_responses_api is None,
        c.azure_auth_mode is None,
        p == ProviderType::AzureOpenAI ==> c.provider_type is Some && c.provider_type->0@
            == "azure-openai"@,
        p == ProviderType::Together ==> c.provider_type is Some && c.provider_type->0@
            == "together"@,
        p == ProviderType::Fireworks ==> c.provider_type is Some && c.provider_type->0@
            == "fireworks"@,
        p == ProviderType::Nvidia ==> c.provider_type is Some && c.provider_type->0@ == "nvidia"@,
        p == ProviderType::Perplexity ==> c.provider_type is Some && c.provider_type->0@
            == "perplexity"@,
        p == ProviderType::Cerebras ==> c.provider_type is Some && c.provider_type->0@
            == "cerebras"@,
        p == ProviderType::OpenRouter ==> c.provider_type is Some && c.provider_type->0@
            == "openrouter"@,
        p == ProviderType::FluxRouter ==> c.provider_type is Some && c.provider_type->0@
            == "flux-router"@,
        p == ProviderType::Deepseek ==> c.provider_type is Some && c.provider_type->0@
            == "deepseek"@,
        p == ProviderType::Xai ==> c.provider_type is Some && c.provider_type->0@ == "xai"@,
        p == ProviderType::Groq ==> c.provider_type is Some && c.provider_type->0@ == "groq"@,
        p == ProviderType::Moonshot ==> c.provider_type is Some && c.provider_type->0@
            == "moonshot"@,
        p == ProviderType::Qwen ==> c.provider_type is Some && c.provider_type->0@ == "qwen"@,
        p == ProviderType::Mistral ==> c.provider_type is Some && c.provider_type->0@ == "mistral"@,
        p == ProviderType::Sakana ==> c.provider_type is Some && c.provider_type->0@ == "sakana"@,
        p == ProviderType::OpenAIChatGpt ==> c.provider_type is Some && c.provider_type->0@
            == "openai-chatgpt"@,
        p == ProviderType::Together || p == ProviderType::Fireworks || p == ProviderType::Nvidia
            || p == ProviderType::Perplexity || p == ProviderType::Cerebras || p
            == ProviderType::FluxRouter || p == ProviderType::Xai || p == ProviderType::Moonshot
            || p == ProviderType::Qwen || p == ProviderType::Mistral || p == ProviderType::Sakana
            ==> c.api_path is Some && c.api_path->0@ == "/chat/completions"@,
        p == ProviderType::AzureOpenAI || p == ProviderType::OpenRouter || p
            == ProviderType::Deepseek || p == ProviderType::Groq || p
            == ProviderType::OpenAIChatGpt ==> c.api_path is None,
        p == ProviderType::FluxRouter || p == ProviderType::OpenRouter
            ==> c.input_optimization is Some && c.input_optimization->0@ == "router"@,
        p != ProviderType::FluxRouter && p != ProviderType::OpenRouter
            ==> c.input_optimization is None,
{
    reveal_strlit("azure-openai");
    reveal_strlit("together");
    reveal_strlit("fireworks");
    reveal_strlit("nvidia");
    reveal_strlit("perplexity");
    reveal_strlit("cerebras");
    reveal_strlit("openrouter");
    reveal_strlit("flux-router");
    reveal_strlit("deepseek");
    reveal_strlit("xai");
    reveal_strlit("groq");
    reveal_strlit("moonshot");
    reveal_strlit("qwen");
    reveal_strlit("mistral");
    reveal_strlit("sakana");
    reveal_strlit("openai-chatgpt");
    assert("azure-openai"@.len() == 12);
    assert("together"@.len() == 8);
    assert("fireworks"@.len() == 9);
    assert("nvidia"@.len() == 6);
    assert("perplexity"@.len() == 10);
    assert("cerebras"@.len() == 8);
    assert("openrouter"@.len() == 10);
    assert("flux-router"@.len() == 11);
    assert("deepseek"@.len() == 8);
    assert("xai"@.len() == 3);
    assert("groq"@.len() == 4);
    assert("moonshot"@.len() == 8);
    assert("qwen"@.len() == 4);
    assert("mistral"@.len() == 7);
    assert("sakana"@.len() == 6);
    assert("openai-chatgpt"@.len() == 14);
    assert("flux-router"@[0] == 'f');
    assert("openrouter"@[0] == 'o');
    assert("perplexity"@[0] == 'p');
    if p == ProviderType::Perplexity {
        assert("perplexity"@ != "openrouter"@);
    }
}

/// Cohere sets its name and nothing else.
pub proof fn law_cohere_preset(c: ProviderCompat)
    requires
        is_preset_of(ProviderType::Cohere, c),
    ensures
        c.max_tokens_field is None,
        c.merge_assistant_messages is None,
        c.clean_orphan_tool_calls is None,
        c.dedup_tool_results is None,
        c.ensure_alternation is None,
        c.merge_same_role is None,
        c.sanitize_schema is None,
        c.strip_patterns is None,
        c.auto_tool_id is None,
        c.api_path is None,
        c.supports_thinking is None,
        c.supports_effort is None,
        c.effort_levels is None,
        c.cache_message_breakpoints is None,
        c.provider_type is Some && c.provider_type->0@ == "cohere"@,
        c.cost_per_input_token is None,
        c.cost_per_output_token is None,
        c.cost_per_cache_read_token is None,
        c.cost_per_cache_write_token is None,
        c.input_optimization is None,
        c.compact_bash is None,
        c.include_usage_in_stream is None,
        c.uses_responses_api is None,
        c.azure_auth_mode is None,
{
}

/// Ollama costs nothing, and sets nothing else but its name.
pub proof fn law_ollama_preset(c: ProviderCompat)
    requires
        is_ollama_preset(c),
    ensures
        c.max_tokens_field is None,
        c.merge_assistant_messages is None,
        c.clean_orphan_tool_calls is None,
        c.dedup_tool_results is None,
        c.ensure_alternation is None,
        c.merge_same_role is None,
        c.sanitize_schema is None,
        c.strip_patterns is None,
        c.auto_tool_id is None,
        c.api_path is None,
        c.supports_thinking is None,
        c.supports_effort is None,
        c.effort_levels is None,
        c.cache_message_breakpoints is None,
        c.provider_type is Some && c.provider_type->0@ == "ollama"@,
        c.cost_per_input_token == Some(FloatBits { bits: 0 }),
        c.cost_per_output_token == Some(FloatBits { bits: 0 }),
        c.cost_per_cache_read_token == Some(FloatBits { bits: 0 }),
        c.cost_per_cache_write_token == Some(FloatBits { bits: 0 }),
        c.input_optimization is None,
        c.compact_bash is None,
        c.include_usage_in_stream is None,
        c.uses_responses_api is None,
        c.azure_auth_mode is None,
{
}

/// An entry of the catalog has what the providers of the OpenAI protocol have, under its own name and
/// at its own path.
pub proof fn law_catalog_preset(c: ProviderCompat, id: Seq<char>, path: Option<Seq<char>>)
    requires
        is_openai_compat(c, id, path),
    ensures
        c.max_tokens_field is Some && c.max_tokens_field->0@ == "max_tokens"@,
        c.merge_assistant_messages == Some(true),
        c.clean_orphan_tool_calls == Some(true),
        c.dedup_tool_results == Some(true),
        c.ensure_alternation is None,
        c.merge_same_role is None,
        c.sanitize_schema is None,
        c.strip_patterns is None,
        c.auto_tool_id is None,
        c.supports_thinking == Some(false),
        c.supports_effort == Some(true),
        c.effort_levels is Some && texts_are(c.effort_levels->0@, seq!["low"@, "medium"@, "high"@]),
        c.cache_message_breakpoints is None,
        c.cost_per_input_token == Some(FloatBits { bits: 0 }),
        c.cost_per_output_token == Some(FloatBits { bits: 0 }),
        c.cost_per_cache_read_token == Some(FloatBits { bits: 0 }),
        c.cost_per_cache_write_token == Some(FloatBits { bits: 0 }),
        c.compact_bash is None,
        c.include_usage_in_stream is None,
        c.uses_responses_api is None,
        c.azure_auth_mode is None,
        c.provider_type is Some && c.provider_type->0@ == id,
        path is Some ==> c.api_path is Some && c.api_path->0@ == path->0,
        path is None ==> c.api_path is None,
        id == "flux-router"@ || id == "openrouter"@ ==> c.input_optimization is Some
            && c.input_optimization->0@
            == "router"@,
        id != "flux-router"@ && id != "openrouter"@ ==> c.input_optimization is None,
{
}

/// A switch that is set stands; one that is not has its fallback.
pub proof fn law_switches(setting: Option<bool>, fallback: bool)
    ensures
        setting is Some ==> setting_or(setting, fallback) == setting->0,
        setting is None ==> setting_or(setting, fallback) == fallback,
{
}

} // verus!
