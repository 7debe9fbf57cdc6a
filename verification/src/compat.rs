//! Provider compatibility settings.
//!
//! Each provider has a preset; a user overrides single settings on top of it.

pub use crate::schema::sanitize_json_schema;

use crate::config::{AzureAuthMode, ProviderType};
use crate::float_bits::FloatBits;
use crate::replica::{first_of, lemma_first_of_associates, opt_text, or_else, Replica};
use crate::text::{same_text, texts_are};
use vstd::prelude::*;

verus! {

/// Provider-level compatibility settings. An absent setting means "use the preset of the
/// provider type".
#[derive(Debug, Clone)]
pub struct ProviderCompat {
    /// Name of the request field that carries the token limit.
    pub max_tokens_field: Option<String>,
    /// Merge consecutive assistant messages.
    pub merge_assistant_messages: Option<bool>,
    /// Remove tool calls without a matching tool result.
    pub clean_orphan_tool_calls: Option<bool>,
    /// Keep only the last tool result for each tool call id.
    pub dedup_tool_results: Option<bool>,
    /// Make user and assistant messages alternate.
    pub ensure_alternation: Option<bool>,
    /// Merge consecutive messages of the same role.
    pub merge_same_role: Option<bool>,
    /// Sanitise JSON schemas for strict providers.
    pub sanitize_schema: Option<bool>,
    /// Text patterns to strip from the message history.
    pub strip_patterns: Option<Vec<String>>,
    /// Generate missing tool ids.
    pub auto_tool_id: Option<bool>,
    /// Path appended to the base URL for chat completions.
    pub api_path: Option<String>,
    /// Whether the provider supports extended thinking.
    pub supports_thinking: Option<bool>,
    /// Whether the provider supports a reasoning effort.
    pub supports_effort: Option<bool>,
    /// The effort levels on offer; only meaningful with `supports_effort`.
    pub effort_levels: Option<Vec<String>>,
    /// Whether the provider honours cache breakpoints on messages.
    pub cache_message_breakpoints: Option<bool>,
    /// Provider identity for traces and cost attribution.
    pub provider_type: Option<String>,
    /// USD per input token.
    pub cost_per_input_token: Option<FloatBits>,
    /// USD per output token.
    pub cost_per_output_token: Option<FloatBits>,
    /// USD per cached input token read.
    pub cost_per_cache_read_token: Option<FloatBits>,
    /// USD per cached input token written.
    pub cost_per_cache_write_token: Option<FloatBits>,
    /// `router` when the endpoint optimises the input itself, else `client`.
    pub input_optimization: Option<String>,
    /// Compact verbose Bash output before it enters the transcript.
    pub compact_bash: Option<bool>,
    /// Ask for usage accounting in the stream.
    pub include_usage_in_stream: Option<bool>,
    /// Force the responses or the chat completions surface.
    pub uses_responses_api: Option<bool>,
    /// Azure OpenAI authentication mode.
    pub azure_auth_mode: Option<AzureAuthMode>,
}

impl ProviderCompat {
    /// Whether every setting has its built-in value.
    pub open spec fn is_default(self) -> bool {
        &&& self.max_tokens_field is None
        &&& self.merge_assistant_messages is None
        &&& self.clean_orphan_tool_calls is None
        &&& self.dedup_tool_results is None
        &&& self.ensure_alternation is None
        &&& self.merge_same_role is None
        &&& self.sanitize_schema is None
        &&& self.strip_patterns is None
        &&& self.auto_tool_id is None
        &&& self.api_path is None
        &&& self.supports_thinking is None
        &&& self.supports_effort is None
        &&& self.effort_levels is None
        &&& self.cache_message_breakpoints is None
        &&& self.provider_type is None
        &&& self.cost_per_input_token is None
        &&& self.cost_per_output_token is None
        &&& self.cost_per_cache_read_token is None
        &&& self.cost_per_cache_write_token is None
        &&& self.input_optimization is None
        &&& self.compact_bash is None
        &&& self.include_usage_in_stream is None
        &&& self.uses_responses_api is None
        &&& self.azure_auth_mode is None
    }
}

impl Default for ProviderCompat {
    fn default() -> (r: Self)
        ensures
            r.is_default(),
    {
        ProviderCompat {
            max_tokens_field: None,
            merge_assistant_messages: None,
            clean_orphan_tool_calls: None,
            dedup_tool_results: None,
            ensure_alternation: None,
            merge_same_role: None,
            sanitize_schema: None,
            strip_patterns: None,
            auto_tool_id: None,
            api_path: None,
            supports_thinking: None,
            supports_effort: None,
            effort_levels: None,
            cache_message_breakpoints: None,
            provider_type: None,
            cost_per_input_token: None,
            cost_per_output_token: None,
            cost_per_cache_read_token: None,
            cost_per_cache_write_token: None,
            input_optimization: None,
            compact_bash: None,
            include_usage_in_stream: None,
            uses_responses_api: None,
            azure_auth_mode: None,
        }
    }
}

impl Replica for ProviderCompat {
    open spec fn same(self, other: Self) -> bool {
        &&& self.max_tokens_field.same(other.max_tokens_field)
        &&& self.merge_assistant_messages.same(other.merge_assistant_messages)
        &&& self.clean_orphan_tool_calls.same(other.clean_orphan_tool_calls)
        &&& self.dedup_tool_results.same(other.dedup_tool_results)
        &&& self.ensure_alternation.same(other.ensure_alternation)
        &&& self.merge_same_role.same(other.merge_same_role)
        &&& self.sanitize_schema.same(other.sanitize_schema)
        &&& self.strip_patterns.same(other.strip_patterns)
        &&& self.auto_tool_id.same(other.auto_tool_id)
        &&& self.api_path.same(other.api_path)
        &&& self.supports_thinking.same(other.supports_thinking)
        &&& self.supports_effort.same(other.supports_effort)
        &&& self.effort_levels.same(other.effort_levels)
        &&& self.cache_message_breakpoints.same(other.cache_message_breakpoints)
        &&& self.provider_type.same(other.provider_type)
        &&& self.cost_per_input_token.same(other.cost_per_input_token)
        &&& self.cost_per_output_token.same(other.cost_per_output_token)
        &&& self.cost_per_cache_read_token.same(other.cost_per_cache_read_token)
        &&& self.cost_per_cache_write_token.same(other.cost_per_cache_write_token)
        &&& self.input_optimization.same(other.input_optimization)
        &&& self.compact_bash.same(other.compact_bash)
        &&& self.include_usage_in_stream.same(other.include_usage_in_stream)
        &&& self.uses_responses_api.same(other.uses_responses_api)
        &&& self.azure_auth_mode.same(other.azure_auth_mode)
    }

    fn replicate(&self) -> (r: Self) {
        ProviderCompat {
            max_tokens_field: self.max_tokens_field.replicate(),
            merge_assistant_messages: self.merge_assistant_messages.replicate(),
            clean_orphan_tool_calls: self.clean_orphan_tool_calls.replicate(),
            dedup_tool_results: self.dedup_tool_results.replicate(),
            ensure_alternation: self.ensure_alternation.replicate(),
            merge_same_role: self.merge_same_role.replicate(),
            sanitize_schema: self.sanitize_schema.replicate(),
            strip_patterns: self.strip_patterns.replicate(),
            auto_tool_id: self.auto_tool_id.replicate(),
            api_path: self.api_path.replicate(),
            supports_thinking: self.supports_thinking.replicate(),
            supports_effort: self.supports_effort.replicate(),
            effort_levels: self.effort_levels.replicate(),
            cache_message_breakpoints: self.cache_message_breakpoints.replicate(),
            provider_type: self.provider_type.replicate(),
            cost_per_input_token: self.cost_per_input_token.replicate(),
            cost_per_output_token: self.cost_per_output_token.replicate(),
            cost_per_cache_read_token: self.cost_per_cache_read_token.replicate(),
            cost_per_cache_write_token: self.cost_per_cache_write_token.replicate(),
            input_optimization: self.input_optimization.replicate(),
            compact_bash: self.compact_bash.replicate(),
            include_usage_in_stream: self.include_usage_in_stream.replicate(),
            uses_responses_api: self.uses_responses_api.replicate(),
            azure_auth_mode: self.azure_auth_mode.replicate(),
        }
    }

    fn agrees(&self, other: &Self) -> (b: bool) {
        self.max_tokens_field.agrees(&other.max_tokens_field)
            && self.merge_assistant_messages.agrees(&other.merge_assistant_messages)
            && self.clean_orphan_tool_calls.agrees(&other.clean_orphan_tool_calls)
            && self.dedup_tool_results.agrees(&other.dedup_tool_results)
            && self.ensure_alternation.agrees(&other.ensure_alternation)
            && self.merge_same_role.agrees(&other.merge_same_role)
            && self.sanitize_schema.agrees(&other.sanitize_schema)
            && self.strip_patterns.agrees(&other.strip_patterns)
            && self.auto_tool_id.agrees(&other.auto_tool_id)
            && self.api_path.agrees(&other.api_path)
            && self.supports_thinking.agrees(&other.supports_thinking)
            && self.supports_effort.agrees(&other.supports_effort)
            && self.effort_levels.agrees(&other.effort_levels)
            && self.cache_message_breakpoints.agrees(&other.cache_message_breakpoints)
            && self.provider_type.agrees(&other.provider_type)
            && self.cost_per_input_token.agrees(&other.cost_per_input_token)
            && self.cost_per_output_token.agrees(&other.cost_per_output_token)
            && self.cost_per_cache_read_token.agrees(&other.cost_per_cache_read_token)
            && self.cost_per_cache_write_token.agrees(&other.cost_per_cache_write_token)
            && self.input_optimization.agrees(&other.input_optimization)
            && self.compact_bash.agrees(&other.compact_bash)
            && self.include_usage_in_stream.agrees(&other.include_usage_in_stream)
            && self.uses_responses_api.agrees(&other.uses_responses_api)
            && self.azure_auth_mode.agrees(&other.azure_auth_mode)
    }

    proof fn same_as_itself(self) {
        self.max_tokens_field.same_as_itself();
        self.merge_assistant_messages.same_as_itself();
        self.clean_orphan_tool_calls.same_as_itself();
        self.dedup_tool_results.same_as_itself();
        self.ensure_alternation.same_as_itself();
        self.merge_same_role.same_as_itself();
        self.sanitize_schema.same_as_itself();
        self.strip_patterns.same_as_itself();
        self.auto_tool_id.same_as_itself();
        self.api_path.same_as_itself();
        self.supports_thinking.same_as_itself();
        self.supports_effort.same_as_itself();
        self.effort_levels.same_as_itself();
        self.cache_message_breakpoints.same_as_itself();
        self.provider_type.same_as_itself();
        self.cost_per_input_token.same_as_itself();
        self.cost_per_output_token.same_as_itself();
        self.cost_per_cache_read_token.same_as_itself();
        self.cost_per_cache_write_token.same_as_itself();
        self.input_optimization.same_as_itself();
        self.compact_bash.same_as_itself();
        self.include_usage_in_stream.same_as_itself();
        self.uses_responses_api.same_as_itself();
        self.azure_auth_mode.same_as_itself();
    }

    proof fn same_through(self, middle: Self, other: Self) {
        self.max_tokens_field.same_through(middle.max_tokens_field, other.max_tokens_field);
        self.merge_assistant_messages.same_through(middle.merge_assistant_messages, other.merge_assistant_messages);
        self.clean_orphan_tool_calls.same_through(middle.clean_orphan_tool_calls, other.clean_orphan_tool_calls);
        self.dedup_tool_results.same_through(middle.dedup_tool_results, other.dedup_tool_results);
        self.ensure_alternation.same_through(middle.ensure_alternation, other.ensure_alternation);
        self.merge_same_role.same_through(middle.merge_same_role, other.merge_same_role);
        self.sanitize_schema.same_through(middle.sanitize_schema, other.sanitize_schema);
        self.strip_patterns.same_through(middle.strip_patterns, other.strip_patterns);
        self.auto_tool_id.same_through(middle.auto_tool_id, other.auto_tool_id);
        self.api_path.same_through(middle.api_path, other.api_path);
        self.supports_thinking.same_through(middle.supports_thinking, other.supports_thinking);
        self.supports_effort.same_through(middle.supports_effort, other.supports_effort);
        self.effort_levels.same_through(middle.effort_levels, other.effort_levels);
        self.cache_message_breakpoints.same_through(middle.cache_message_breakpoints, other.cache_message_breakpoints);
        self.provider_type.same_through(middle.provider_type, other.provider_type);
        self.cost_per_input_token.same_through(middle.cost_per_input_token, other.cost_per_input_token);
        self.cost_per_output_token.same_through(middle.cost_per_output_token, other.cost_per_output_token);
        self.cost_per_cache_read_token.same_through(middle.cost_per_cache_read_token, other.cost_per_cache_read_token);
        self.cost_per_cache_write_token.same_through(middle.cost_per_cache_write_token, other.cost_per_cache_write_token);
        self.input_optimization.same_through(middle.input_optimization, other.input_optimization);
        self.compact_bash.same_through(middle.compact_bash, other.compact_bash);
        self.include_usage_in_stream.same_through(middle.include_usage_in_stream, other.include_usage_in_stream);
        self.uses_responses_api.same_through(middle.uses_responses_api, other.uses_responses_api);
        self.azure_auth_mode.same_through(middle.azure_auth_mode, other.azure_auth_mode);
    }
}

/// Bit pattern of 15 USD per million tokens, as USD per token.
pub const USD_15_PER_MILLION: u64 = 0x3eef75104d551d69;

/// Bit pattern of 75 USD per million tokens, as USD per token.
pub const USD_75_PER_MILLION: u64 = 0x3f13a92a30553261;

/// Bit pattern of 1.5 USD per million tokens, as USD per token.
pub const USD_1_5_PER_MILLION: u64 = 0x3eb92a737110e454;

/// Bit pattern of 18.75 USD per million tokens, as USD per token.
pub const USD_18_75_PER_MILLION: u64 = 0x3ef3a92a30553261;

/// Bit pattern of 1.25 USD per million tokens, as USD per token.
pub const USD_1_25_PER_MILLION: u64 = 0x3eb4f8b588e368f1;

/// Bit pattern of 10 USD per million tokens, as USD per token.
pub const USD_10_PER_MILLION: u64 = 0x3ee4f8b588e368f1;

/// Bit pattern of 0.3125 USD per million tokens, as USD per token.
pub const USD_0_3125_PER_MILLION: u64 = 0x3e94f8b588e368f1;

/// Bit pattern of a zero price: cost is reported, and its rate comes from the
/// pricing catalog.
pub const USD_ZERO: u64 = 0;

/// The effort levels `low`, `medium` and `high`.
pub open spec fn is_three_levels(levels: Option<Vec<String>>) -> bool {
    levels matches Some(v) && texts_are(v@, seq!["low"@, "medium"@, "high"@])
}

/// `router` for the endpoints that route server-side.
pub open spec fn routing_of(id: Seq<char>) -> Option<Seq<char>> {
    if id == "flux-router"@ || id == "openrouter"@ {
        Some("router"@)
    } else {
        None
    }
}

/// The preset of the Anthropic family, under the provider identity `id`.
pub open spec fn is_anthropic_family(c: ProviderCompat, id: Seq<char>) -> bool {
    &&& c.max_tokens_field is None
    &&& c.merge_assistant_messages is None
    &&& c.clean_orphan_tool_calls is None
    &&& c.dedup_tool_results is None
    &&& c.ensure_alternation == Some(true)
    &&& c.merge_same_role == Some(true)
    &&& c.sanitize_schema is None
    &&& c.strip_patterns is None
    &&& c.auto_tool_id == Some(true)
    &&& c.api_path is None
    &&& c.supports_thinking == Some(true)
    &&& c.supports_effort == Some(false)
    &&& c.effort_levels is None
    &&& c.cache_message_breakpoints == Some(true)
    &&& opt_text(c.provider_type) == Some(id)
    &&& c.cost_per_input_token == Some(FloatBits { bits: USD_15_PER_MILLION })
    &&& c.cost_per_output_token == Some(FloatBits { bits: USD_75_PER_MILLION })
    &&& c.cost_per_cache_read_token == Some(FloatBits { bits: USD_1_5_PER_MILLION })
    &&& c.cost_per_cache_write_token == Some(FloatBits { bits: USD_18_75_PER_MILLION })
    &&& c.input_optimization is None
    &&& c.compact_bash is None
    &&& c.include_usage_in_stream is None
    &&& c.uses_responses_api is None
    &&& c.azure_auth_mode is None
}

/// The Bedrock preset: the Anthropic family with schema sanitising.
pub open spec fn is_bedrock_preset(c: ProviderCompat) -> bool {
    &&& c.max_tokens_field is None
    &&& c.merge_assistant_messages is None
    &&& c.clean_orphan_tool_calls is None
    &&& c.dedup_tool_results is None
    &&& c.ensure_alternation == Some(true)
    &&& c.merge_same_role == Some(true)
    &&& c.sanitize_schema == Some(true)
    &&& c.strip_patterns is None
    &&& c.auto_tool_id == Some(true)
    &&& c.api_path is None
    &&& c.supports_thinking == Some(true)
    &&& c.supports_effort == Some(false)
    &&& c.effort_levels is None
    &&& c.cache_message_breakpoints == Some(true)
    &&& opt_text(c.provider_type) == Some("bedrock"@)
    &&& c.cost_per_input_token == Some(FloatBits { bits: USD_15_PER_MILLION })
    &&& c.cost_per_output_token == Some(FloatBits { bits: USD_75_PER_MILLION })
    &&& c.cost_per_cache_read_token == Some(FloatBits { bits: USD_1_5_PER_MILLION })
    &&& c.cost_per_cache_write_token == Some(FloatBits { bits: USD_18_75_PER_MILLION })
    &&& c.input_optimization is None
    &&& c.compact_bash is None
    &&& c.include_usage_in_stream is None
    &&& c.uses_responses_api is None
    &&& c.azure_auth_mode is None
}

/// The native Gemini preset.
pub open spec fn is_gemini_preset(c: ProviderCompat) -> bool {
    &&& c.max_tokens_field is None
    &&& c.merge_assistant_messages is None
    &&& c.clean_orphan_tool_calls is None
    &&& c.dedup_tool_results is None
    &&& c.ensure_alternation == Some(false)
    &&& c.merge_same_role == Some(true)
    &&& c.sanitize_schema is None
    &&& c.strip_patterns is None
    &&& c.auto_tool_id == Some(false)
    &&& c.api_path is None
    &&& c.supports_thinking == Some(false)
    &&& c.supports_effort == Some(true)
    &&& is_three_levels(c.effort_levels)
    &&& c.cache_message_breakpoints == Some(false)
    &&& opt_text(c.provider_type) == Some("gemini"@)
    &&& c.cost_per_input_token == Some(FloatBits { bits: USD_1_25_PER_MILLION })
    &&& c.cost_per_output_token == Some(FloatBits { bits: USD_10_PER_MILLION })
    &&& c.cost_per_cache_read_token == Some(FloatBits { bits: USD_0_3125_PER_MILLION })
    &&& c.cost_per_cache_write_token is None
    &&& c.input_optimization is None
    &&& c.compact_bash is None
    &&& c.include_usage_in_stream is None
    &&& c.uses_responses_api is None
    &&& c.azure_auth_mode is None
}

/// The OpenAI preset.
pub open spec fn is_openai_preset(c: ProviderCompat) -> bool {
    &&& opt_text(c.max_tokens_field) == Some("max_tokens"@)
    &&& c.merge_assistant_messages == Some(true)
    &&& c.clean_orphan_tool_calls == Some(true)
    &&& c.dedup_tool_results == Some(true)
    &&& c.ensure_alternation is None
    &&& c.merge_same_role is None
    &&& c.sanitize_schema is None
    &&& c.strip_patterns is None
    &&& c.auto_tool_id is None
    &&& c.api_path is None
    &&& c.supports_thinking == Some(false)
    &&& c.supports_effort == Some(true)
    &&& is_three_levels(c.effort_levels)
    &&& c.cache_message_breakpoints is None
    &&& opt_text(c.provider_type) == Some("openai"@)
    &&& c.cost_per_input_token == Some(FloatBits { bits: USD_ZERO })
    &&& c.cost_per_output_token == Some(FloatBits { bits: USD_ZERO })
    &&& c.cost_per_cache_read_token is None
    &&& c.cost_per_cache_write_token is None
    &&& c.input_optimization is None
    &&& c.compact_bash is None
    &&& c.include_usage_in_stream is None
    &&& c.uses_responses_api is None
    &&& c.azure_auth_mode is None
}

/// The preset of an OpenAI-wire-compatible provider: OpenAI behaviour under the identity
/// `id`, zero cost rows, and the API path `path`.
pub open spec fn is_openai_compat(c: ProviderCompat, id: Seq<char>, path: Option<Seq<char>>) -> bool {
    &&& opt_text(c.max_tokens_field) == Some("max_tokens"@)
    &&& c.merge_assistant_messages == Some(true)
    &&& c.clean_orphan_tool_calls == Some(true)
    &&& c.dedup_tool_results == Some(true)
    &&& c.ensure_alternation is None
    &&& c.merge_same_role is None
    &&& c.sanitize_schema is None
    &&& c.strip_patterns is None
    &&& c.auto_tool_id is None
    &&& opt_text(c.api_path) == path
    &&& c.supports_thinking == Some(false)
    &&& c.supports_effort == Some(true)
    &&& is_three_levels(c.effort_levels)
    &&& c.cache_message_breakpoints is None
    &&& opt_text(c.provider_type) == Some(id)
    &&& c.cost_per_input_token == Some(FloatBits { bits: USD_ZERO })
    &&& c.cost_per_output_token == Some(FloatBits { bits: USD_ZERO })
    &&& c.cost_per_cache_read_token == Some(FloatBits { bits: USD_ZERO })
    &&& c.cost_per_cache_write_token == Some(FloatBits { bits: USD_ZERO })
    &&& opt_text(c.input_optimization) == routing_of(id)
    &&& c.compact_bash is None
    &&& c.include_usage_in_stream is None
    &&& c.uses_responses_api is None
    &&& c.azure_auth_mode is None
}

/// The Cohere preset: an identity and no cost rows.
pub open spec fn is_cohere_preset(c: ProviderCompat) -> bool {
    &&& c.max_tokens_field is None
    &&& c.merge_assistant_messages is None
    &&& c.clean_orphan_tool_calls is None
    &&& c.dedup_tool_results is None
    &&& c.ensure_alternation is None
    &&& c.merge_same_role is None
    &&& c.sanitize_schema is None
    &&& c.strip_patterns is None
    &&& c.auto_tool_id is None
    &&& c.api_path is None
    &&& c.supports_thinking is None
    &&& c.supports_effort is None
    &&& c.effort_levels is None
    &&& c.cache_message_breakpoints is None
    &&& opt_text(c.provider_type) == Some("cohere"@)
    &&& c.cost_per_input_token is None
    &&& c.cost_per_output_token is None
    &&& c.cost_per_cache_read_token is None
    &&& c.cost_per_cache_write_token is None
    &&& c.input_optimization is None
    &&& c.compact_bash is None
    &&& c.include_usage_in_stream is None
    &&& c.uses_responses_api is None
    &&& c.azure_auth_mode is None
}

/// The Ollama preset: local and free.
pub open spec fn is_ollama_preset(c: ProviderCompat) -> bool {
    &&& c.max_tokens_field is None
    &&& c.merge_assistant_messages is None
    &&& c.clean_orphan_tool_calls is None
    &&& c.dedup_tool_results is None
    &&& c.ensure_alternation is None
    &&& c.merge_same_role is None
    &&& c.sanitize_schema is None
    &&& c.strip_patterns is None
    &&& c.auto_tool_id is None
    &&& c.api_path is None
    &&& c.supports_thinking is None
    &&& c.supports_effort is None
    &&& c.effort_levels is None
    &&& c.cache_message_breakpoints is None
    &&& opt_text(c.provider_type) == Some("ollama"@)
    &&& c.cost_per_input_token == Some(FloatBits { bits: USD_ZERO })
    &&& c.cost_per_output_token == Some(FloatBits { bits: USD_ZERO })
    &&& c.cost_per_cache_read_token == Some(FloatBits { bits: USD_ZERO })
    &&& c.cost_per_cache_write_token == Some(FloatBits { bits: USD_ZERO })
    &&& c.input_optimization is None
    &&& c.compact_bash is None
    &&& c.include_usage_in_stream is None
    &&& c.uses_responses_api is None
    &&& c.azure_auth_mode is None
}

/// The effort levels `low`, `medium` and `high`.
fn three_levels() -> (r: Vec<String>)
    ensures
        texts_are(r@, seq!["low"@, "medium"@, "high"@]),
{
    vec!["low".to_owned(), "medium".to_owned(), "high".to_owned()]
}

impl ProviderCompat {
    /// The Anthropic-family preset under the provider identity `id`.
    fn anthropic_family(id: &str) -> (r: Self)
        ensures
            is_anthropic_family(r, id@),
    {
        ProviderCompat {
            max_tokens_field: None,
            merge_assistant_messages: None,
            clean_orphan_tool_calls: None,
            dedup_tool_results: None,
            ensure_alternation: Some(true),
            merge_same_role: Some(true),
            sanitize_schema: None,
            strip_patterns: None,
            auto_tool_id: Some(true),
            api_path: None,
            supports_thinking: Some(true),
            supports_effort: Some(false),
            effort_levels: None,
            cache_message_breakpoints: Some(true),
            provider_type: Some(id.to_owned()),
            cost_per_input_token: Some(FloatBits { bits: USD_15_PER_MILLION }),
            cost_per_output_token: Some(FloatBits { bits: USD_75_PER_MILLION }),
            cost_per_cache_read_token: Some(FloatBits { bits: USD_1_5_PER_MILLION }),
            cost_per_cache_write_token: Some(FloatBits { bits: USD_18_75_PER_MILLION }),
            input_optimization: None,
            compact_bash: None,
            include_usage_in_stream: None,
            uses_responses_api: None,
            azure_auth_mode: None,
        }
    }

    /// Preset for Anthropic.
    pub fn anthropic_defaults() -> (r: Self)
        ensures
            is_anthropic_family(r, "anthropic"@),
    {
        Self::anthropic_family("anthropic")
    }

    /// Preset for AWS Bedrock.
    pub fn bedrock_defaults() -> (r: Self)
        ensures
            is_bedrock_preset(r),
    {
        ProviderCompat {
            max_tokens_field: None,
            merge_assistant_messages: None,
            clean_orphan_tool_calls: None,
            dedup_tool_results: None,
            ensure_alternation: Some(true),
            merge_same_role: Some(true),
            sanitize_schema: Some(true),
            strip_patterns: None,
            auto_tool_id: Some(true),
            api_path: None,
            supports_thinking: Some(true),
            supports_effort: Some(false),
            effort_levels: None,
            cache_message_breakpoints: Some(true),
            provider_type: Some("bedrock".to_owned()),
            cost_per_input_token: Some(FloatBits { bits: USD_15_PER_MILLION }),
            cost_per_output_token: Some(FloatBits { bits: USD_75_PER_MILLION }),
            cost_per_cache_read_token: Some(FloatBits { bits: USD_1_5_PER_MILLION }),
            cost_per_cache_write_token: Some(FloatBits { bits: USD_18_75_PER_MILLION }),
            input_optimization: None,
            compact_bash: None,
            include_usage_in_stream: None,
            uses_responses_api: None,
            azure_auth_mode: None,
        }
    }

    /// Preset for Anthropic models on Vertex AI.
    pub fn vertex_defaults() -> (r: Self)
        ensures
            is_anthropic_family(r, "vertex"@),
    {
        Self::anthropic_family("vertex")
    }

    /// Preset for MiniMax, which speaks the Anthropic wire format.
    pub fn minimax_defaults() -> (r: Self)
        ensures
            is_anthropic_family(r, "minimax"@),
    {
        Self::anthropic_family("minimax")
    }

    /// Preset for native Gemini.
    pub fn gemini_defaults() -> (r: Self)
        ensures
            is_gemini_preset(r),
    {
        ProviderCompat {
            max_tokens_field: None,
            merge_assistant_messages: None,
            clean_orphan_tool_calls: None,
            dedup_tool_results: None,
            ensure_alternation: Some(false),
            merge_same_role: Some(true),
            sanitize_schema: None,
            strip_patterns: None,
            auto_tool_id: Some(false),
            api_path: None,
            supports_thinking: Some(false),
            supports_effort: Some(true),
            effort_levels: Some(three_levels()),
            cache_message_breakpoints: Some(false),
            provider_type: Some("gemini".to_owned()),
            cost_per_input_token: Some(FloatBits { bits: USD_1_25_PER_MILLION }),
            cost_per_output_token: Some(FloatBits { bits: USD_10_PER_MILLION }),
            cost_per_cache_read_token: Some(FloatBits { bits: USD_0_3125_PER_MILLION }),
            cost_per_cache_write_token: None,
            input_optimization: None,
            compact_bash: None,
            include_usage_in_stream: None,
            uses_responses_api: None,
            azure_auth_mode: None,
        }
    }

    /// Preset for OpenAI.
    pub fn openai_defaults() -> (r: Self)
        ensures
            is_openai_preset(r),
    {
        ProviderCompat {
            max_tokens_field: Some("max_tokens".to_owned()),
            merge_assistant_messages: Some(true),
            clean_orphan_tool_calls: Some(true),
            dedup_tool_results: Some(true),
            ensure_alternation: None,
            merge_same_role: None,
            sanitize_schema: None,
            strip_patterns: None,
            auto_tool_id: None,
            api_path: None,
            supports_thinking: Some(false),
            supports_effort: Some(true),
            effort_levels: Some(three_levels()),
            cache_message_breakpoints: None,
            provider_type: Some("openai".to_owned()),
            cost_per_input_token: Some(FloatBits { bits: USD_ZERO }),
            cost_per_output_token: Some(FloatBits { bits: USD_ZERO }),
            cost_per_cache_read_token: None,
            cost_per_cache_write_token: None,
            input_optimization: None,
            compact_bash: None,
            include_usage_in_stream: None,
            uses_responses_api: None,
            azure_auth_mode: None,
        }
    }

    /// Preset for an OpenAI-wire-compatible provider. The real identity keys its cost
    /// attribution; the zero cost rows leave the rates to the pricing catalog. Routing
    /// layers are marked as such, so that client-side input optimisation is deferred to
    /// them.
    pub fn openai_compat_provider(provider_id: &str, api_path: Option<&str>) -> (r: Self)
        ensures
            is_openai_compat(r, provider_id@, opt_chars(api_path)),
    {
        let input_optimization = if same_text(provider_id, "flux-router") || same_text(
            provider_id,
            "openrouter",
        ) {
            Some("router".to_owned())
        } else {
            None
        };
        let path = match api_path {
            Some(p) => Some(p.to_owned()),
            None => None,
        };
        ProviderCompat {
            max_tokens_field: Some("max_tokens".to_owned()),
            merge_assistant_messages: Some(true),
            clean_orphan_tool_calls: Some(true),
            dedup_tool_results: Some(true),
            ensure_alternation: None,
            merge_same_role: None,
            sanitize_schema: None,
            strip_patterns: None,
            auto_tool_id: None,
            api_path: path,
            supports_thinking: Some(false),
            supports_effort: Some(true),
            effort_levels: Some(three_levels()),
            cache_message_breakpoints: None,
            provider_type: Some(provider_id.to_owned()),
            cost_per_input_token: Some(FloatBits { bits: USD_ZERO }),
            cost_per_output_token: Some(FloatBits { bits: USD_ZERO }),
            cost_per_cache_read_token: Some(FloatBits { bits: USD_ZERO }),
            cost_per_cache_write_token: Some(FloatBits { bits: USD_ZERO }),
            input_optimization: input_optimization,
            compact_bash: None,
            include_usage_in_stream: None,
            uses_responses_api: None,
            azure_auth_mode: None,
        }
    }

    /// Preset for Azure OpenAI.
    pub fn azure_openai_defaults() -> (r: Self)
        ensures
            is_openai_compat(r, "azure-openai"@, None),
    {
        Self::openai_compat_provider("azure-openai", None)
    }

    /// Preset for Together AI. The base URL already carries the version, so the path does
    /// not.
    pub fn together_defaults() -> (r: Self)
        ensures
            is_openai_compat(r, "together"@, Some("/chat/completions"@)),
    {
        Self::openai_compat_provider("together", Some("/chat/completions"))
    }

    /// Preset for Fireworks AI. The base URL already carries the version, so the path
    /// does not.
    pub fn fireworks_defaults() -> (r: Self)
        ensures
            is_openai_compat(r, "fireworks"@, Some("/chat/completions"@)),
    {
        Self::openai_compat_provider("fireworks", Some("/chat/completions"))
    }

    /// Preset for NVIDIA NIM. The base URL already carries the version, so the path does
    /// not.
    pub fn nvidia_defaults() -> (r: Self)
        ensures
            is_openai_compat(r, "nvidia"@, Some("/chat/completions"@)),
    {
        Self::openai_compat_provider("nvidia", Some("/chat/completions"))
    }

    /// Preset for Perplexity. The base URL already carries the version, so the path does
    /// not.
    pub fn perplexity_defaults() -> (r: Self)
        ensures
            is_openai_compat(r, "perplexity"@, Some("/chat/completions"@)),
    {
        Self::openai_compat_provider("perplexity", Some("/chat/completions"))
    }

    /// Preset for Cerebras. The base URL already carries the version, so the path does
    /// not.
    pub fn cerebras_defaults() -> (r: Self)
        ensures
            is_openai_compat(r, "cerebras"@, Some("/chat/completions"@)),
    {
        Self::openai_compat_provider("cerebras", Some("/chat/completions"))
    }

    /// Preset for OpenRouter.
    pub fn openrouter_defaults() -> (r: Self)
        ensures
            is_openai_compat(r, "openrouter"@, None),
    {
        Self::openai_compat_provider("openrouter", None)
    }

    /// Preset for Flux Router. The base URL already carries the version, so the path does
    /// not.
    pub fn flux_router_defaults() -> (r: Self)
        ensures
            is_openai_compat(r, "flux-router"@, Some("/chat/completions"@)),
    {
        Self::openai_compat_provider("flux-router", Some("/chat/completions"))
    }

    /// Preset for DeepSeek.
    pub fn deepseek_defaults() -> (r: Self)
        ensures
            is_openai_compat(r, "deepseek"@, None),
    {
        Self::openai_compat_provider("deepseek", None)
    }

    /// Preset for xAI (Grok). The base URL already carries the version, so the path does
    /// not.
    pub fn xai_defaults() -> (r: Self)
        ensures
            is_openai_compat(r, "xai"@, Some("/chat/completions"@)),
    {
        Self::openai_compat_provider("xai", Some("/chat/completions"))
    }

    /// Preset for Groq.
    pub fn groq_defaults() -> (r: Self)
        ensures
            is_openai_compat(r, "groq"@, None),
    {
        Self::openai_compat_provider("groq", None)
    }

    /// Preset for Moonshot (Kimi). The base URL already carries the version, so the path
    /// does not.
    pub fn moonshot_defaults() -> (r: Self)
        ensures
            is_openai_compat(r, "moonshot"@, Some("/chat/completions"@)),
    {
        Self::openai_compat_provider("moonshot", Some("/chat/completions"))
    }

    /// Preset for Alibaba Qwen. The base URL already carries the version, so the path
    /// does not.
    pub fn qwen_defaults() -> (r: Self)
        ensures
            is_openai_compat(r, "qwen"@, Some("/chat/completions"@)),
    {
        Self::openai_compat_provider("qwen", Some("/chat/completions"))
    }

    /// Preset for Mistral AI. The base URL already carries the version, so the path does
    /// not.
    pub fn mistral_defaults() -> (r: Self)
        ensures
            is_openai_compat(r, "mistral"@, Some("/chat/completions"@)),
    {
        Self::openai_compat_provider("mistral", Some("/chat/completions"))
    }

    /// Preset for Sakana AI. The base URL already carries the version, so the path does
    /// not.
    pub fn sakana_defaults() -> (r: Self)
        ensures
            is_openai_compat(r, "sakana"@, Some("/chat/completions"@)),
    {
        Self::openai_compat_provider("sakana", Some("/chat/completions"))
    }

    /// Preset for the ChatGPT Codex backend.
    pub fn chatgpt_defaults() -> (r: Self)
        ensures
            is_openai_compat(r, "openai-chatgpt"@, None),
    {
        Self::openai_compat_provider("openai-chatgpt", None)
    }

    /// Preset for an entry of the provider catalog.
    pub fn from_catalog_entry(id: &str, api_path: Option<&str>) -> (r: Self)
        ensures
            is_openai_compat(r, id@, opt_chars(api_path)),
    {
        Self::openai_compat_provider(id, api_path)
    }

    /// Preset for Cohere; its pricing comes from the catalog.
    pub fn cohere_defaults() -> (r: Self)
        ensures
            is_cohere_preset(r),
    {
        ProviderCompat {
            max_tokens_field: None,
            merge_assistant_messages: None,
            clean_orphan_tool_calls: None,
            dedup_tool_results: None,
            ensure_alternation: None,
            merge_same_role: None,
            sanitize_schema: None,
            strip_patterns: None,
            auto_tool_id: None,
            api_path: None,
            supports_thinking: None,
            supports_effort: None,
            effort_levels: None,
            cache_message_breakpoints: None,
            provider_type: Some("cohere".to_owned()),
            cost_per_input_token: None,
            cost_per_output_token: None,
            cost_per_cache_read_token: None,
            cost_per_cache_write_token: None,
            input_optimization: None,
            compact_bash: None,
            include_usage_in_stream: None,
            uses_responses_api: None,
            azure_auth_mode: None,
        }
    }

    /// Preset for Ollama: local, at no cost.
    pub fn ollama_defaults() -> (r: Self)
        ensures
            is_ollama_preset(r),
    {
        ProviderCompat {
            max_tokens_field: None,
            merge_assistant_messages: None,
            clean_orphan_tool_calls: None,
            dedup_tool_results: None,
            ensure_alternation: None,
            merge_same_role: None,
            sanitize_schema: None,
            strip_patterns: None,
            auto_tool_id: None,
            api_path: None,
            supports_thinking: None,
            supports_effort: None,
            effort_levels: None,
            cache_message_breakpoints: None,
            provider_type: Some("ollama".to_owned()),
            cost_per_input_token: Some(FloatBits { bits: USD_ZERO }),
            cost_per_output_token: Some(FloatBits { bits: USD_ZERO }),
            cost_per_cache_read_token: Some(FloatBits { bits: USD_ZERO }),
            cost_per_cache_write_token: Some(FloatBits { bits: USD_ZERO }),
            input_optimization: None,
            compact_bash: None,
            include_usage_in_stream: None,
            uses_responses_api: None,
            azure_auth_mode: None,
        }
    }

    /// The settings of `user` on top of `defaults`: a setting that `user` has wins.
    pub fn merge(defaults: Self, user: Self) -> (r: Self)
        ensures
            r == merged_compat(defaults, user),
    {
        ProviderCompat {
            max_tokens_field: or_else(user.max_tokens_field, defaults.max_tokens_field),
            merge_assistant_messages: or_else(user.merge_assistant_messages, defaults.merge_assistant_messages),
            clean_orphan_tool_calls: or_else(user.clean_orphan_tool_calls, defaults.clean_orphan_tool_calls),
            dedup_tool_results: or_else(user.dedup_tool_results, defaults.dedup_tool_results),
            ensure_alternation: or_else(user.ensure_alternation, defaults.ensure_alternation),
            merge_same_role: or_else(user.merge_same_role, defaults.merge_same_role),
            sanitize_schema: or_else(user.sanitize_schema, defaults.sanitize_schema),
            strip_patterns: or_else(user.strip_patterns, defaults.strip_patterns),
            auto_tool_id: or_else(user.auto_tool_id, defaults.auto_tool_id),
            api_path: or_else(user.api_path, defaults.api_path),
            supports_thinking: or_else(user.supports_thinking, defaults.supports_thinking),
            supports_effort: or_else(user.supports_effort, defaults.supports_effort),
            effort_levels: or_else(user.effort_levels, defaults.effort_levels),
            cache_message_breakpoints: or_else(user.cache_message_breakpoints, defaults.cache_message_breakpoints),
            provider_type: or_else(user.provider_type, defaults.provider_type),
            cost_per_input_token: or_else(user.cost_per_input_token, defaults.cost_per_input_token),
            cost_per_output_token: or_else(user.cost_per_output_token, defaults.cost_per_output_token),
            cost_per_cache_read_token: or_else(user.cost_per_cache_read_token, defaults.cost_per_cache_read_token),
            cost_per_cache_write_token: or_else(user.cost_per_cache_write_token, defaults.cost_per_cache_write_token),
            input_optimization: or_else(user.input_optimization, defaults.input_optimization),
            compact_bash: or_else(user.compact_bash, defaults.compact_bash),
            include_usage_in_stream: or_else(user.include_usage_in_stream, defaults.include_usage_in_stream),
            uses_responses_api: or_else(user.uses_responses_api, defaults.uses_responses_api),
            azure_auth_mode: or_else(user.azure_auth_mode, defaults.azure_auth_mode),
        }
    }

    /// The setting, or `false` when it is absent.
    pub fn merge_assistant_messages(&self) -> (r: bool)
        ensures
            r == setting_or(self.merge_assistant_messages, false),
    {
        self.merge_assistant_messages.unwrap_or(false)
    }

    /// The setting, or `false` when it is absent.
    pub fn clean_orphan_tool_calls(&self) -> (r: bool)
        ensures
            r == setting_or(self.clean_orphan_tool_calls, false),
    {
        self.clean_orphan_tool_calls.unwrap_or(false)
    }

    /// The setting, or `false` when it is absent.
    pub fn dedup_tool_results(&self) -> (r: bool)
        ensures
            r == setting_or(self.dedup_tool_results, false),
    {
        self.dedup_tool_results.unwrap_or(false)
    }

    /// The setting, or `false` when it is absent.
    pub fn ensure_alternation(&self) -> (r: bool)
        ensures
            r == setting_or(self.ensure_alternation, false),
    {
        self.ensure_alternation.unwrap_or(false)
    }

    /// The setting, or `false` when it is absent.
    pub fn merge_same_role(&self) -> (r: bool)
        ensures
            r == setting_or(self.merge_same_role, false),
    {
        self.merge_same_role.unwrap_or(false)
    }

    /// The setting, or `false` when it is absent.
    pub fn sanitize_schema(&self) -> (r: bool)
        ensures
            r == setting_or(self.sanitize_schema, false),
    {
        self.sanitize_schema.unwrap_or(false)
    }

    /// The setting, or `false` when it is absent.
    pub fn auto_tool_id(&self) -> (r: bool)
        ensures
            r == setting_or(self.auto_tool_id, false),
    {
        self.auto_tool_id.unwrap_or(false)
    }

    /// The setting, or `false` when it is absent.
    pub fn supports_thinking(&self) -> (r: bool)
        ensures
            r == setting_or(self.supports_thinking, false),
    {
        self.supports_thinking.unwrap_or(false)
    }

    /// The setting, or `false` when it is absent.
    pub fn supports_effort(&self) -> (r: bool)
        ensures
            r == setting_or(self.supports_effort, false),
    {
        self.supports_effort.unwrap_or(false)
    }

    /// The setting, or `false` when it is absent.
    pub fn cache_message_breakpoints(&self) -> (r: bool)
        ensures
            r == setting_or(self.cache_message_breakpoints, false),
    {
        self.cache_message_breakpoints.unwrap_or(false)
    }

    /// The setting, or `true` when it is absent.
    pub fn compact_bash(&self) -> (r: bool)
        ensures
            r == setting_or(self.compact_bash, true),
    {
        self.compact_bash.unwrap_or(true)
    }

    /// The setting, or `true` when it is absent.
    pub fn include_usage_in_stream(&self) -> (r: bool)
        ensures
            r == setting_or(self.include_usage_in_stream, true),
    {
        self.include_usage_in_stream.unwrap_or(true)
    }

    /// The setting, or `/v1/chat/completions` when it is absent.
    pub fn api_path(&self) -> (r: &str)
        ensures
            r@ == match opt_text(self.api_path) {
                Some(s) => s,
                None => "/v1/chat/completions"@,
            },
    {
        match &self.api_path {
            Some(s) => s.as_str(),
            None => "/v1/chat/completions",
        }
    }

    /// The setting, or `unknown` when it is absent.
    pub fn provider_type(&self) -> (r: &str)
        ensures
            r@ == match opt_text(self.provider_type) {
                Some(s) => s,
                None => "unknown"@,
            },
    {
        match &self.provider_type {
            Some(s) => s.as_str(),
            None => "unknown",
        }
    }

    /// The setting, or `client` when it is absent.
    pub fn input_optimization(&self) -> (r: &str)
        ensures
            r@ == match opt_text(self.input_optimization) {
                Some(s) => s,
                None => "client"@,
            },
    {
        match &self.input_optimization {
            Some(s) => s.as_str(),
            None => "client",
        }
    }

    /// The effort levels on offer; none when the setting is absent.
    pub fn effort_levels(&self) -> (r: &[String])
        ensures
            r@ == match self.effort_levels {
                Some(v) => v@,
                None => Seq::<String>::empty(),
            },
    {
        match &self.effort_levels {
            Some(v) => v.as_slice(),
            None => &[],
        }
    }

    /// The override of the chat-or-responses surface, if any.
    pub fn uses_responses_api(&self) -> (r: Option<bool>)
        ensures
            r == self.uses_responses_api,
    {
        self.uses_responses_api
    }
}

/// A setting, or its fallback when it is absent.
pub open spec fn setting_or(setting: Option<bool>, fallback: bool) -> bool {
    match setting {
        Some(b) => b,
        None => fallback,
    }
}

/// The characters of an optional string slice.
pub open spec fn opt_chars(o: Option<&str>) -> Option<Seq<char>> {
    match o {
        Some(s) => Some(s@),
        None => None,
    }
}

/// The settings of `user` on top of `defaults`: a setting that `user` has wins.
pub open spec fn merged_compat(defaults: ProviderCompat, user: ProviderCompat) -> ProviderCompat {
    ProviderCompat {
        max_tokens_field: first_of(user.max_tokens_field, defaults.max_tokens_field),
        merge_assistant_messages: first_of(user.merge_assistant_messages, defaults.merge_assistant_messages),
        clean_orphan_tool_calls: first_of(user.clean_orphan_tool_calls, defaults.clean_orphan_tool_calls),
        dedup_tool_results: first_of(user.dedup_tool_results, defaults.dedup_tool_results),
        ensure_alternation: first_of(user.ensure_alternation, defaults.ensure_alternation),
        merge_same_role: first_of(user.merge_same_role, defaults.merge_same_role),
        sanitize_schema: first_of(user.sanitize_schema, defaults.sanitize_schema),
        strip_patterns: first_of(user.strip_patterns, defaults.strip_patterns),
        auto_tool_id: first_of(user.auto_tool_id, defaults.auto_tool_id),
        api_path: first_of(user.api_path, defaults.api_path),
        supports_thinking: first_of(user.supports_thinking, defaults.supports_thinking),
        supports_effort: first_of(user.supports_effort, defaults.supports_effort),
        effort_levels: first_of(user.effort_levels, defaults.effort_levels),
        cache_message_breakpoints: first_of(user.cache_message_breakpoints, defaults.cache_message_breakpoints),
        provider_type: first_of(user.provider_type, defaults.provider_type),
        cost_per_input_token: first_of(user.cost_per_input_token, defaults.cost_per_input_token),
        cost_per_output_token: first_of(user.cost_per_output_token, defaults.cost_per_output_token),
        cost_per_cache_read_token: first_of(user.cost_per_cache_read_token, defaults.cost_per_cache_read_token),
        cost_per_cache_write_token: first_of(user.cost_per_cache_write_token, defaults.cost_per_cache_write_token),
        input_optimization: first_of(user.input_optimization, defaults.input_optimization),
        compact_bash: first_of(user.compact_bash, defaults.compact_bash),
        include_usage_in_stream: first_of(user.include_usage_in_stream, defaults.include_usage_in_stream),
        uses_responses_api: first_of(user.uses_responses_api, defaults.uses_responses_api),
        azure_auth_mode: first_of(user.azure_auth_mode, defaults.azure_auth_mode),
    }
}

/// The preset of the built-in provider `p`.
pub open spec fn is_preset_of(p: ProviderType, c: ProviderCompat) -> bool {
    match p {
        ProviderType::Anthropic => is_anthropic_family(c, "anthropic"@),
        ProviderType::Bedrock => is_bedrock_preset(c),
        ProviderType::Vertex => is_anthropic_family(c, "vertex"@),
        ProviderType::Gemini => is_gemini_preset(c),
        ProviderType::OpenAI => is_openai_preset(c),
        ProviderType::AzureOpenAI => is_openai_compat(c, "azure-openai"@, None),
        ProviderType::Together => is_openai_compat(c, "together"@, Some("/chat/completions"@)),
        ProviderType::Fireworks => is_openai_compat(c, "fireworks"@, Some("/chat/completions"@)),
        ProviderType::Nvidia => is_openai_compat(c, "nvidia"@, Some("/chat/completions"@)),
        ProviderType::Perplexity => is_openai_compat(c, "perplexity"@, Some("/chat/completions"@)),
        ProviderType::Cerebras => is_openai_compat(c, "cerebras"@, Some("/chat/completions"@)),
        ProviderType::OpenRouter => is_openai_compat(c, "openrouter"@, None),
        ProviderType::FluxRouter => is_openai_compat(c, "flux-router"@, Some("/chat/completions"@)),
        ProviderType::Sakana => is_openai_compat(c, "sakana"@, Some("/chat/completions"@)),
        ProviderType::Deepseek => is_openai_compat(c, "deepseek"@, None),
        ProviderType::Xai => is_openai_compat(c, "xai"@, Some("/chat/completions"@)),
        ProviderType::Groq => is_openai_compat(c, "groq"@, None),
        ProviderType::Moonshot => is_openai_compat(c, "moonshot"@, Some("/chat/completions"@)),
        ProviderType::Qwen => is_openai_compat(c, "qwen"@, Some("/chat/completions"@)),
        ProviderType::Mistral => is_openai_compat(c, "mistral"@, Some("/chat/completions"@)),
        ProviderType::Cohere => is_cohere_preset(c),
        ProviderType::OpenAIChatGpt => is_openai_compat(c, "openai-chatgpt"@, None),
        ProviderType::MiniMax => is_anthropic_family(c, "minimax"@),
    }
}

/// The preset of the built-in provider `provider`.
pub fn compat_defaults_for(provider: ProviderType) -> (r: ProviderCompat)
    ensures
        is_preset_of(provider, r),
{
    match provider {
        ProviderType::Anthropic => ProviderCompat::anthropic_defaults(),
        ProviderType::Bedrock => ProviderCompat::bedrock_defaults(),
        ProviderType::Vertex => ProviderCompat::vertex_defaults(),
        ProviderType::Gemini => ProviderCompat::gemini_defaults(),
        ProviderType::OpenAI => ProviderCompat::openai_defaults(),
        ProviderType::AzureOpenAI => ProviderCompat::azure_openai_defaults(),
        ProviderType::Together => ProviderCompat::together_defaults(),
        ProviderType::Fireworks => ProviderCompat::fireworks_defaults(),
        ProviderType::Nvidia => ProviderCompat::nvidia_defaults(),
        ProviderType::Perplexity => ProviderCompat::perplexity_defaults(),
        ProviderType::Cerebras => ProviderCompat::cerebras_defaults(),
        ProviderType::OpenRouter => ProviderCompat::openrouter_defaults(),
        ProviderType::FluxRouter => ProviderCompat::flux_router_defaults(),
        ProviderType::Sakana => ProviderCompat::sakana_defaults(),
        ProviderType::Deepseek => ProviderCompat::deepseek_defaults(),
        ProviderType::Xai => ProviderCompat::xai_defaults(),
        ProviderType::Groq => ProviderCompat::groq_defaults(),
        ProviderType::Moonshot => ProviderCompat::moonshot_defaults(),
        ProviderType::Qwen => ProviderCompat::qwen_defaults(),
        ProviderType::Mistral => ProviderCompat::mistral_defaults(),
        ProviderType::Cohere => ProviderCompat::cohere_defaults(),
        ProviderType::OpenAIChatGpt => ProviderCompat::chatgpt_defaults(),
        ProviderType::MiniMax => ProviderCompat::minimax_defaults(),
    }
}

/// Merging in settings that are all absent changes nothing, from either side.
pub proof fn law_merge_with_blank(c: ProviderCompat, blank: ProviderCompat)
    requires
        blank.is_default(),
    ensures
        merged_compat(c, blank) == c,
        merged_compat(blank, c) == c,
{
}

/// Merging three layers gives the same settings in either grouping.
pub proof fn law_merge_is_associative(a: ProviderCompat, b: ProviderCompat, c: ProviderCompat)
    ensures
        merged_compat(merged_compat(a, b), c) == merged_compat(a, merged_compat(b, c)),
{
    lemma_first_of_associates(c.max_tokens_field, b.max_tokens_field, a.max_tokens_field);
    lemma_first_of_associates(c.merge_assistant_messages, b.merge_assistant_messages, a.merge_assistant_messages);
    lemma_first_of_associates(c.clean_orphan_tool_calls, b.clean_orphan_tool_calls, a.clean_orphan_tool_calls);
    lemma_first_of_associates(c.dedup_tool_results, b.dedup_tool_results, a.dedup_tool_results);
    lemma_first_of_associates(c.ensure_alternation, b.ensure_alternation, a.ensure_alternation);
    lemma_first_of_associates(c.merge_same_role, b.merge_same_role, a.merge_same_role);
    lemma_first_of_associates(c.sanitize_schema, b.sanitize_schema, a.sanitize_schema);
    lemma_first_of_associates(c.strip_patterns, b.strip_patterns, a.strip_patterns);
    lemma_first_of_associates(c.auto_tool_id, b.auto_tool_id, a.auto_tool_id);
    lemma_first_of_associates(c.api_path, b.api_path, a.api_path);
    lemma_first_of_associates(c.supports_thinking, b.supports_thinking, a.supports_thinking);
    lemma_first_of_associates(c.supports_effort, b.supports_effort, a.supports_effort);
    lemma_first_of_associates(c.effort_levels, b.effort_levels, a.effort_levels);
    lemma_first_of_associates(c.cache_message_breakpoints, b.cache_message_breakpoints, a.cache_message_breakpoints);
    lemma_first_of_associates(c.provider_type, b.provider_type, a.provider_type);
    lemma_first_of_associates(c.cost_per_input_token, b.cost_per_input_token, a.cost_per_input_token);
    lemma_first_of_associates(c.cost_per_output_token, b.cost_per_output_token, a.cost_per_output_token);
    lemma_first_of_associates(c.cost_per_cache_read_token, b.cost_per_cache_read_token, a.cost_per_cache_read_token);
    lemma_first_of_associates(c.cost_per_cache_write_token, b.cost_per_cache_write_token, a.cost_per_cache_write_token);
    lemma_first_of_associates(c.input_optimization, b.input_optimization, a.input_optimization);
    lemma_first_of_associates(c.compact_bash, b.compact_bash, a.compact_bash);
    lemma_first_of_associates(c.include_usage_in_stream, b.include_usage_in_stream, a.include_usage_in_stream);
    lemma_first_of_associates(c.uses_responses_api, b.uses_responses_api, a.uses_responses_api);
    lemma_first_of_associates(c.azure_auth_mode, b.azure_auth_mode, a.azure_auth_mode);
}

/// Every built-in provider is attributed under its own canonical name.
pub proof fn law_presets_carry_their_identity(p: ProviderType, c: ProviderCompat)
    requires
        is_preset_of(p, c),
    ensures
        opt_text(c.provider_type) == Some(crate::config::provider::slug_of(p)),
{
}

} // verus!
