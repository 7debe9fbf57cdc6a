//! The text that diagnostics show of a configuration.
//!
//! It is what the derived `Debug` form of the types would be, but for the secrets: of those
//! only their presence is shown.

use vstd::prelude::*;

use crate::browser::{BrowserConfig, BrowserPolicyConfig};
use crate::budget::BudgetConfig;
use crate::compact::{CompactConfig, CompactionLevel, ToolCallArgsConfig};
use crate::compat::ProviderCompat;
use crate::config::provider::ProviderType;
use crate::config::types::{
    ApprovalMode, AzureAuthMode, BedrockConfig, CarriedSettings, Config, EmbedderBackend,
    EmbedderConfig, InboundWebhookConfig, McpConfig, McpCurationPolicy, McpServerConfig,
    MemoryConfig, ObservabilityConfig, ProviderChainConfig, SecurityConfig, SessionConfig,
    SkillsPermissionConfig, StorageConfig, ToolsConfig, TransportType, VertexConfig,
};
use crate::credentials::{CredentialsBackend, CredentialsStorageConfig};
use crate::file_cache::FileCacheConfig;
use crate::float_bits::FloatBits;
use crate::hooks::{HookDef, HooksConfig};
use crate::numbers::{decimal, digits};
use crate::plan::PlanConfig;
use crate::quote::{quote, quoted};
use crate::text::concat;

verus! {

/// A value that diagnostics can show.
pub trait DebugText {
    /// The text that is shown.
    spec fn shown(self) -> Seq<char> where Self: Sized;

    /// The text that is shown.
    fn debug_text(&self) -> (r: String) where Self: Sized
        ensures
            r@ == self.shown(),
    ;
}

/// `head` followed by `tail`.
pub(crate) fn then(head: String, tail: &str) -> (r: String)
    ensures
        r@ == head@ + tail@,
{
    concat(head.as_str(), tail)
}

impl DebugText for String {
    open spec fn shown(self) -> Seq<char> {
        quoted(self@)
    }

    fn debug_text(&self) -> (r: String) {
        quote(self.as_str())
    }
}

impl DebugText for bool {
    open spec fn shown(self) -> Seq<char> {
        if self {
            "true"@
        } else {
            "false"@
        }
    }

    fn debug_text(&self) -> (r: String) {
        if *self {
            "true".to_owned()
        } else {
            "false".to_owned()
        }
    }
}

impl DebugText for u32 {
    open spec fn shown(self) -> Seq<char> {
        digits(self as nat, 10)
    }

    fn debug_text(&self) -> (r: String) {
        decimal(*self as u64)
    }
}

impl DebugText for u64 {
    open spec fn shown(self) -> Seq<char> {
        digits(self as nat, 10)
    }

    fn debug_text(&self) -> (r: String) {
        decimal(*self)
    }
}

impl DebugText for usize {
    open spec fn shown(self) -> Seq<char> {
        digits(self as nat, 10)
    }

    fn debug_text(&self) -> (r: String) {
        decimal(*self as u64)
    }
}

impl DebugText for FloatBits {
    open spec fn shown(self) -> Seq<char> {
        "FloatBits { bits: "@ + digits(self.bits as nat, 10) + " }"@
    }

    fn debug_text(&self) -> (r: String) {
        let out = then("FloatBits { bits: ".to_owned(), decimal(self.bits).as_str());
        then(out, " }")
    }
}

impl<T: DebugText> DebugText for Option<T> {
    open spec fn shown(self) -> Seq<char> {
        match self {
            Some(x) => "Some("@ + x.shown() + ")"@,
            None => "None"@,
        }
    }

    fn debug_text(&self) -> (r: String) {
        match self {
            Some(x) => {
                let out = then("Some(".to_owned(), x.debug_text().as_str());
                then(out, ")")
            },
            None => "None".to_owned(),
        }
    }
}

/// The items of a list, with commas between them.
pub open spec fn items_shown<T: DebugText>(items: Seq<T>) -> Seq<char>
    decreases items.len(),
{
    if items.len() == 0 {
        Seq::empty()
    } else if items.len() == 1 {
        items[0].shown()
    } else {
        items_shown(items.drop_last()) + ", "@ + items.last().shown()
    }
}

impl<T: DebugText> DebugText for Vec<T> {
    open spec fn shown(self) -> Seq<char> {
        "["@ + items_shown(self@) + "]"@
    }

    fn debug_text(&self) -> (r: String) {
        let mut out = String::new();
        let mut i: usize = 0;
        proof {
            assert(self@.take(0) =~= Seq::empty());
        }
        while i < self.len()
            invariant
                i <= self@.len(),
                out@ == items_shown(self@.take(i as int)),
            decreases self.len() - i,
        {
            proof {
                let next = self@.take(i as int + 1);
                assert(next.drop_last() =~= self@.take(i as int));
                assert(next.last() == self@[i as int]);
            }
            let item = self[i].debug_text();
            if i == 0 {
                out = item;
            } else {
                out = then(then(out, ", "), item.as_str());
            }
            i = i + 1;
        }
        proof {
            assert(self@.take(self@.len() as int) =~= self@);
        }
        then(then("[".to_owned(), out.as_str()), "]")
    }
}

/// What is shown of an optional secret: whether there is one.
pub open spec fn presence(o: Option<String>) -> Seq<char> {
    match o {
        Some(_) => "Some(\"<redacted>\")"@,
        None => "None"@,
    }
}

fn show_presence(o: &Option<String>) -> (r: String)
    ensures
        r@ == presence(*o),
{
    match o {
        Some(_) => "Some(\"<redacted>\")".to_owned(),
        None => "None".to_owned(),
    }
}

/// What is shown of an API key: whether there is one.
pub open spec fn key_presence(key: Seq<char>) -> Seq<char> {
    if key.len() == 0 {
        "\"<none>\""@
    } else {
        "\"<redacted>\""@
    }
}

fn show_key_presence(key: &str) -> (r: String)
    ensures
        r@ == key_presence(key@),
{
    if key.is_empty() {
        "\"<none>\"".to_owned()
    } else {
        "\"<redacted>\"".to_owned()
    }
}

impl DebugText for ProviderType {
    open spec fn shown(self) -> Seq<char> {
        match self {
            ProviderType::Anthropic => "Anthropic"@,
            ProviderType::OpenAI => "OpenAI"@,
            ProviderType::Bedrock => "Bedrock"@,
            ProviderType::Vertex => "Vertex"@,
            ProviderType::Gemini => "Gemini"@,
            ProviderType::AzureOpenAI => "AzureOpenAI"@,
            ProviderType::Together => "Together"@,
            ProviderType::Fireworks => "Fireworks"@,
            ProviderType::Nvidia => "Nvidia"@,
            ProviderType::Perplexity => "Perplexity"@,
            ProviderType::Cerebras => "Cerebras"@,
            ProviderType::OpenRouter => "OpenRouter"@,
            ProviderType::FluxRouter => "FluxRouter"@,
            ProviderType::Deepseek => "Deepseek"@,
            ProviderType::Xai => "Xai"@,
            ProviderType::Groq => "Groq"@,
            ProviderType::Moonshot => "Moonshot"@,
            ProviderType::Qwen => "Qwen"@,
            ProviderType::Mistral => "Mistral"@,
            ProviderType::Cohere => "Cohere"@,
            ProviderType::OpenAIChatGpt => "OpenAIChatGpt"@,
            ProviderType::MiniMax => "MiniMax"@,
            ProviderType::Sakana => "Sakana"@,
        }
    }

    fn debug_text(&self) -> (r: String) {
        match self {
            ProviderType::Anthropic => "Anthropic".to_owned(),
            ProviderType::OpenAI => "OpenAI".to_owned(),
            ProviderType::Bedrock => "Bedrock".to_owned(),
            ProviderType::Vertex => "Vertex".to_owned(),
            ProviderType::Gemini => "Gemini".to_owned(),
            ProviderType::AzureOpenAI => "AzureOpenAI".to_owned(),
            ProviderType::Together => "Together".to_owned(),
            ProviderType::Fireworks => "Fireworks".to_owned(),
            ProviderType::Nvidia => "Nvidia".to_owned(),
            ProviderType::Perplexity => "Perplexity".to_owned(),
            ProviderType::Cerebras => "Cerebras".to_owned(),
            ProviderType::OpenRouter => "OpenRouter".to_owned(),
            ProviderType::FluxRouter => "FluxRouter".to_owned(),
            ProviderType::Deepseek => "Deepseek".to_owned(),
            ProviderType::Xai => "Xai".to_owned(),
            ProviderType::Groq => "Groq".to_owned(),
            ProviderType::Moonshot => "Moonshot".to_owned(),
            ProviderType::Qwen => "Qwen".to_owned(),
            ProviderType::Mistral => "Mistral".to_owned(),
            ProviderType::Cohere => "Cohere".to_owned(),
            ProviderType::OpenAIChatGpt => "OpenAIChatGpt".to_owned(),
            ProviderType::MiniMax => "MiniMax".to_owned(),
            ProviderType::Sakana => "Sakana".to_owned(),
        }
    }
}

impl DebugText for CompactionLevel {
    open spec fn shown(self) -> Seq<char> {
        match self {
            CompactionLevel::Off => "Off"@,
            CompactionLevel::Safe => "Safe"@,
            CompactionLevel::Full => "Full"@,
        }
    }

    fn debug_text(&self) -> (r: String) {
        match self {
            CompactionLevel::Off => "Off".to_owned(),
            CompactionLevel::Safe => "Safe".to_owned(),
            CompactionLevel::Full => "Full".to_owned(),
        }
    }
}

impl DebugText for AzureAuthMode {
    open spec fn shown(self) -> Seq<char> {
        match self {
            AzureAuthMode::ApiKey => "ApiKey"@,
            AzureAuthMode::AadBearer => "AadBearer"@,
        }
    }

    fn debug_text(&self) -> (r: String) {
        match self {
            AzureAuthMode::ApiKey => "ApiKey".to_owned(),
            AzureAuthMode::AadBearer => "AadBearer".to_owned(),
        }
    }
}

impl DebugText for TransportType {
    open spec fn shown(self) -> Seq<char> {
        match self {
            TransportType::Stdio => "Stdio"@,
            TransportType::Sse => "Sse"@,
            TransportType::StreamableHttp => "StreamableHttp"@,
        }
    }

    fn debug_text(&self) -> (r: String) {
        match self {
            TransportType::Stdio => "Stdio".to_owned(),
            TransportType::Sse => "Sse".to_owned(),
            TransportType::StreamableHttp => "StreamableHttp".to_owned(),
        }
    }
}

impl DebugText for McpCurationPolicy {
    open spec fn shown(self) -> Seq<char> {
        match self {
            McpCurationPolicy::Off => "Off"@,
            McpCurationPolicy::TopK { k } => "TopK { k: "@ + k.shown() + " }"@,
        }
    }

    fn debug_text(&self) -> (r: String) {
        match self {
            McpCurationPolicy::Off => "Off".to_owned(),
            McpCurationPolicy::TopK { k } => {
                let out = then("TopK { k: ".to_owned(), k.debug_text().as_str());
                then(out, " }")
            },
        }
    }
}

impl DebugText for EmbedderBackend {
    open spec fn shown(self) -> Seq<char> {
        match self {
            EmbedderBackend::Hashed => "Hashed"@,
            EmbedderBackend::OpenAi => "OpenAi"@,
            EmbedderBackend::Voyage => "Voyage"@,
            EmbedderBackend::LocalBge => "LocalBge"@,
        }
    }

    fn debug_text(&self) -> (r: String) {
        match self {
            EmbedderBackend::Hashed => "Hashed".to_owned(),
            EmbedderBackend::OpenAi => "OpenAi".to_owned(),
            EmbedderBackend::Voyage => "Voyage".to_owned(),
            EmbedderBackend::LocalBge => "LocalBge".to_owned(),
        }
    }
}

impl DebugText for ApprovalMode {
    open spec fn shown(self) -> Seq<char> {
        match self {
            ApprovalMode::Default => "Default"@,
            ApprovalMode::AutoEdit => "AutoEdit"@,
            ApprovalMode::Force => "Force"@,
        }
    }

    fn debug_text(&self) -> (r: String) {
        match self {
            ApprovalMode::Default => "Default".to_owned(),
            ApprovalMode::AutoEdit => "AutoEdit".to_owned(),
            ApprovalMode::Force => "Force".to_owned(),
        }
    }
}

impl DebugText for CredentialsBackend {
    open spec fn shown(self) -> Seq<char> {
        match self {
            CredentialsBackend::Auto => "Auto"@,
            CredentialsBackend::Plaintext => "Plaintext"@,
            CredentialsBackend::Keyring => "Keyring"@,
            CredentialsBackend::EncryptedFile { cipher_path, key_params_path } =>
                "EncryptedFile { cipher_path: "@ + cipher_path.shown() + ", key_params_path: "@
                + key_params_path.shown() + " }"@,
        }
    }

    fn debug_text(&self) -> (r: String) {
        match self {
            CredentialsBackend::Auto => "Auto".to_owned(),
            CredentialsBackend::Plaintext => "Plaintext".to_owned(),
            CredentialsBackend::Keyring => "Keyring".to_owned(),
            CredentialsBackend::EncryptedFile { cipher_path, key_params_path } => {
                let out = "EncryptedFile { cipher_path: ".to_owned();
                let out = then(out, cipher_path.debug_text().as_str());
                let out = then(out, ", key_params_path: ");
                let out = then(out, key_params_path.debug_text().as_str());
                then(out, " }")
            },
        }
    }
}

impl DebugText for ToolCallArgsConfig {
    open spec fn shown(self) -> Seq<char> {
        "ToolCallArgsConfig { enabled: "@
            + self.enabled.shown()
            + ", keep_recent_turns: "@
            + self.keep_recent_turns.shown()
            + ", min_args_bytes: "@
            + self.min_args_bytes.shown()
            + ", epoch_turns: "@
            + self.epoch_turns.shown()
            + " }"@
    }

    fn debug_text(&self) -> (r: String) {
        let out = "ToolCallArgsConfig { enabled: ".to_owned();
        let out = then(out, self.enabled.debug_text().as_str());
        let out = then(out, ", keep_recent_turns: ");
        let out = then(out, self.keep_recent_turns.debug_text().as_str());
        let out = then(out, ", min_args_bytes: ");
        let out = then(out, self.min_args_bytes.debug_text().as_str());
        let out = then(out, ", epoch_turns: ");
        let out = then(out, self.epoch_turns.debug_text().as_str());
        then(out, " }")
    }
}

impl DebugText for CompactConfig {
    open spec fn shown(self) -> Seq<char> {
        "CompactConfig { context_window: "@
            + self.context_window.shown()
            + ", output_reserve: "@
            + self.output_reserve.shown()
            + ", autocompact_buffer: "@
            + self.autocompact_buffer.shown()
            + ", emergency_buffer: "@
            + self.emergency_buffer.shown()
            + ", max_failures: "@
            + self.max_failures.shown()
            + ", micro_keep_recent: "@
            + self.micro_keep_recent.shown()
            + ", micro_gap_seconds: "@
            + self.micro_gap_seconds.shown()
            + ", compactable_tools: "@
            + self.compactable_tools.shown()
            + ", enabled: "@
            + self.enabled.shown()
            + ", cache_diagnostics: "@
            + self.cache_diagnostics.shown()
            + ", compaction: "@
            + self.compaction.shown()
            + ", toon: "@
            + self.toon.shown()
            + ", compaction_model: "@
            + self.compaction_model.shown()
            + ", smart_enabled: "@
            + self.smart_enabled.shown()
            + ", smart_trigger_fraction: "@
            + self.smart_trigger_fraction.shown()
            + ", smart_release_fraction: "@
            + self.smart_release_fraction.shown()
            + ", smart_cooldown_turns: "@
            + self.smart_cooldown_turns.shown()
            + ", smart_min_shrink_tokens: "@
            + self.smart_min_shrink_tokens.shown()
            + ", smart_handoff_to_memory: "@
            + self.smart_handoff_to_memory.shown()
            + ", tool_call_args: "@
            + self.tool_call_args.shown()
            + " }"@
    }

    fn debug_text(&self) -> (r: String) {
        let out = "CompactConfig { context_window: ".to_owned();
        let out = then(out, self.context_window.debug_text().as_str());
        let out = then(out, ", output_reserve: ");
        let out = then(out, self.output_reserve.debug_text().as_str());
        let out = then(out, ", autocompact_buffer: ");
        let out = then(out, self.autocompact_buffer.debug_text().as_str());
        let out = then(out, ", emergency_buffer: ");
        let out = then(out, self.emergency_buffer.debug_text().as_str());
        let out = then(out, ", max_failures: ");
        let out = then(out, self.max_failures.debug_text().as_str());
        let out = then(out, ", micro_keep_recent: ");
        let out = then(out, self.micro_keep_recent.debug_text().as_str());
        let out = then(out, ", micro_gap_seconds: ");
        let out = then(out, self.micro_gap_seconds.debug_text().as_str());
        let out = then(out, ", compactable_tools: ");
        let out = then(out, self.compactable_tools.debug_text().as_str());
        let out = then(out, ", enabled: ");
        let out = then(out, self.enabled.debug_text().as_str());
        let out = then(out, ", cache_diagnostics: ");
        let out = then(out, self.cache_diagnostics.debug_text().as_str());
        let out = then(out, ", compaction: ");
        let out = then(out, self.compaction.debug_text().as_str());
        let out = then(out, ", toon: ");
        let out = then(out, self.toon.debug_text().as_str());
        let out = then(out, ", compaction_model: ");
        let out = then(out, self.compaction_model.debug_text().as_str());
        let out = then(out, ", smart_enabled: ");
        let out = then(out, self.smart_enabled.debug_text().as_str());
        let out = then(out, ", smart_trigger_fraction: ");
        let out = then(out, self.smart_trigger_fraction.debug_text().as_str());
        let out = then(out, ", smart_release_fraction: ");
        let out = then(out, self.smart_release_fraction.debug_text().as_str());
        let out = then(out, ", smart_cooldown_turns: ");
        let out = then(out, self.smart_cooldown_turns.debug_text().as_str());
        let out = then(out, ", smart_min_shrink_tokens: ");
        let out = then(out, self.smart_min_shrink_tokens.debug_text().as_str());
        let out = then(out, ", smart_handoff_to_memory: ");
        let out = then(out, self.smart_handoff_to_memory.debug_text().as_str());
        let out = then(out, ", tool_call_args: ");
        let out = then(out, self.tool_call_args.debug_text().as_str());
        then(out, " }")
    }
}

impl DebugText for BrowserPolicyConfig {
    open spec fn shown(self) -> Seq<char> {
        "BrowserPolicyConfig { default_action: "@
            + self.default_action.shown()
            + ", allowed_origins: "@
            + self.allowed_origins.shown()
            + ", denied_origins: "@
            + self.denied_origins.shown()
            + " }"@
    }

    fn debug_text(&self) -> (r: String) {
        let out = "BrowserPolicyConfig { default_action: ".to_owned();
        let out = then(out, self.default_action.debug_text().as_str());
        let out = then(out, ", allowed_origins: ");
        let out = then(out, self.allowed_origins.debug_text().as_str());
        let out = then(out, ", denied_origins: ");
        let out = then(out, self.denied_origins.debug_text().as_str());
        then(out, " }")
    }
}

impl DebugText for BrowserConfig {
    open spec fn shown(self) -> Seq<char> {
        "BrowserConfig { policy: "@
            + self.policy.shown()
            + " }"@
    }

    fn debug_text(&self) -> (r: String) {
        let out = "BrowserConfig { policy: ".to_owned();
        let out = then(out, self.policy.debug_text().as_str());
        then(out, " }")
    }
}

impl DebugText for BudgetConfig {
    open spec fn shown(self) -> Seq<char> {
        "BudgetConfig { max_wall_time_secs: "@
            + self.max_wall_time_secs.shown()
            + ", max_tool_runtime_secs: "@
            + self.max_tool_runtime_secs.shown()
            + ", max_processes: "@
            + self.max_processes.shown()
            + ", max_agent_depth: "@
            + self.max_agent_depth.shown()
            + ", max_tokens_in: "@
            + self.max_tokens_in.shown()
            + ", max_tokens_out: "@
            + self.max_tokens_out.shown()
            + ", max_cost_usd: "@
            + self.max_cost_usd.shown()
            + " }"@
    }

    fn debug_text(&self) -> (r: String) {
        let out = "BudgetConfig { max_wall_time_secs: ".to_owned();
        let out = then(out, self.max_wall_time_secs.debug_text().as_str());
        let out = then(out, ", max_tool_runtime_secs: ");
        let out = then(out, self.max_tool_runtime_secs.debug_text().as_str());
        let out = then(out, ", max_processes: ");
        let out = then(out, self.max_processes.debug_text().as_str());
        let out = then(out, ", max_agent_depth: ");
        let out = then(out, self.max_agent_depth.debug_text().as_str());
        let out = then(out, ", max_tokens_in: ");
        let out = then(out, self.max_tokens_in.debug_text().as_str());
        let out = then(out, ", max_tokens_out: ");
        let out = then(out, self.max_tokens_out.debug_text().as_str());
        let out = then(out, ", max_cost_usd: ");
        let out = then(out, self.max_cost_usd.debug_text().as_str());
        then(out, " }")
    }
}

impl DebugText for PlanConfig {
    open spec fn shown(self) -> Seq<char> {
        "PlanConfig { enabled: "@
            + self.enabled.shown()
            + ", plan_directory: "@
            + self.plan_directory.shown()
            + ", plan_first: "@
            + self.plan_first.shown()
            + " }"@
    }

    fn debug_text(&self) -> (r: String) {
        let out = "PlanConfig { enabled: ".to_owned();
        let out = then(out, self.enabled.debug_text().as_str());
        let out = then(out, ", plan_directory: ");
        let out = then(out, self.plan_directory.debug_text().as_str());
        let out = then(out, ", plan_first: ");
        let out = then(out, self.plan_first.debug_text().as_str());
        then(out, " }")
    }
}

impl DebugText for FileCacheConfig {
    open spec fn shown(self) -> Seq<char> {
        "FileCacheConfig { max_entries: "@
            + self.max_entries.shown()
            + ", max_size_bytes: "@
            + self.max_size_bytes.shown()
            + ", enabled: "@
            + self.enabled.shown()
            + " }"@
    }

    fn debug_text(&self) -> (r: String) {
        let out = "FileCacheConfig { max_entries: ".to_owned();
        let out = then(out, self.max_entries.debug_text().as_str());
        let out = then(out, ", max_size_bytes: ");
        let out = then(out, self.max_size_bytes.debug_text().as_str());
        let out = then(out, ", enabled: ");
        let out = then(out, self.enabled.debug_text().as_str());
        then(out, " }")
    }
}

impl DebugText for ProviderCompat {
    open spec fn shown(self) -> Seq<char> {
        "ProviderCompat { max_tokens_field: "@
            + self.max_tokens_field.shown()
            + ", merge_assistant_messages: "@
            + self.merge_assistant_messages.shown()
            + ", clean_orphan_tool_calls: "@
            + self.clean_orphan_tool_calls.shown()
            + ", dedup_tool_results: "@
            + self.dedup_tool_results.shown()
            + ", ensure_alternation: "@
            + self.ensure_alternation.shown()
            + ", merge_same_role: "@
            + self.merge_same_role.shown()
            + ", sanitize_schema: "@
            + self.sanitize_schema.shown()
            + ", strip_patterns: "@
            + self.strip_patterns.shown()
            + ", auto_tool_id: "@
            + self.auto_tool_id.shown()
            + ", api_path: "@
            + self.api_path.shown()
            + ", supports_thinking: "@
            + self.supports_thinking.shown()
            + ", supports_effort: "@
            + self.supports_effort.shown()
            + ", effort_levels: "@
            + self.effort_levels.shown()
            + ", cache_message_breakpoints: "@
            + self.cache_message_breakpoints.shown()
            + ", provider_type: "@
            + self.provider_type.shown()
            + ", cost_per_input_token: "@
            + self.cost_per_input_token.shown()
            + ", cost_per_output_token: "@
            + self.cost_per_output_token.shown()
            + ", cost_per_cache_read_token: "@
            + self.cost_per_cache_read_token.shown()
            + ", cost_per_cache_write_token: "@
            + self.cost_per_cache_write_token.shown()
            + ", input_optimization: "@
            + self.input_optimization.shown()
            + ", compact_bash: "@
            + self.compact_bash.shown()
            + ", include_usage_in_stream: "@
            + self.include_usage_in_stream.shown()
            + ", uses_responses_api: "@
            + self.uses_responses_api.shown()
            + ", azure_auth_mode: "@
            + self.azure_auth_mode.shown()
            + " }"@
    }

    fn debug_text(&self) -> (r: String) {
        let out = "ProviderCompat { max_tokens_field: ".to_owned();
        let out = then(out, self.max_tokens_field.debug_text().as_str());
        let out = then(out, ", merge_assistant_messages: ");
        let out = then(out, self.merge_assistant_messages.debug_text().as_str());
        let out = then(out, ", clean_orphan_tool_calls: ");
        let out = then(out, self.clean_orphan_tool_calls.debug_text().as_str());
        let out = then(out, ", dedup_tool_results: ");
        let out = then(out, self.dedup_tool_results.debug_text().as_str());
        let out = then(out, ", ensure_alternation: ");
        let out = then(out, self.ensure_alternation.debug_text().as_str());
        let out = then(out, ", merge_same_role: ");
        let out = then(out, self.merge_same_role.debug_text().as_str());
        let out = then(out, ", sanitize_schema: ");
        let out = then(out, self.sanitize_schema.debug_text().as_str());
        let out = then(out, ", strip_patterns: ");
        let out = then(out, self.strip_patterns.debug_text().as_str());
        let out = then(out, ", auto_tool_id: ");
        let out = then(out, self.auto_tool_id.debug_text().as_str());
        let out = then(out, ", api_path: ");
        let out = then(out, self.api_path.debug_text().as_str());
        let out = then(out, ", supports_thinking: ");
        let out = then(out, self.supports_thinking.debug_text().as_str());
        let out = then(out, ", supports_effort: ");
        let out = then(out, self.supports_effort.debug_text().as_str());
        let out = then(out, ", effort_levels: ");
        let out = then(out, self.effort_levels.debug_text().as_str());
        let out = then(out, ", cache_message_breakpoints: ");
        let out = then(out, self.cache_message_breakpoints.debug_text().as_str());
        let out = then(out, ", provider_type: ");
        let out = then(out, self.provider_type.debug_text().as_str());
        let out = then(out, ", cost_per_input_token: ");
        let out = then(out, self.cost_per_input_token.debug_text().as_str());
        let out = then(out, ", cost_per_output_token: ");
        let out = then(out, self.cost_per_output_token.debug_text().as_str());
        let out = then(out, ", cost_per_cache_read_token: ");
        let out = then(out, self.cost_per_cache_read_token.debug_text().as_str());
        let out = then(out, ", cost_per_cache_write_token: ");
        let out = then(out, self.cost_per_cache_write_token.debug_text().as_str());
        let out = then(out, ", input_optimization: ");
        let out = then(out, self.input_optimization.debug_text().as_str());
        let out = then(out, ", compact_bash: ");
        let out = then(out, self.compact_bash.debug_text().as_str());
        let out = then(out, ", include_usage_in_stream: ");
        let out = then(out, self.include_usage_in_stream.debug_text().as_str());
        let out = then(out, ", uses_responses_api: ");
        let out = then(out, self.uses_responses_api.debug_text().as_str());
        let out = then(out, ", azure_auth_mode: ");
        let out = then(out, self.azure_auth_mode.debug_text().as_str());
        then(out, " }")
    }
}

impl DebugText for HookDef {
    open spec fn shown(self) -> Seq<char> {
        "HookDef { name: "@
            + self.name.shown()
            + ", tool_match: "@
            + self.tool_match.shown()
            + ", file_match: "@
            + self.file_match.shown()
            + ", command: "@
            + self.command.shown()
            + ", timeout_ms: "@
            + self.timeout_ms.shown()
            + " }"@
    }

    fn debug_text(&self) -> (r: String) {
        let out = "HookDef { name: ".to_owned();
        let out = then(out, self.name.debug_text().as_str());
        let out = then(out, ", tool_match: ");
        let out = then(out, self.tool_match.debug_text().as_str());
        let out = then(out, ", file_match: ");
        let out = then(out, self.file_match.debug_text().as_str());
        let out = then(out, ", command: ");
        let out = then(out, self.command.debug_text().as_str());
        let out = then(out, ", timeout_ms: ");
        let out = then(out, self.timeout_ms.debug_text().as_str());
        then(out, " }")
    }
}

impl DebugText for HooksConfig {
    open spec fn shown(self) -> Seq<char> {
        "HooksConfig { pre_tool_use: "@
            + self.pre_tool_use.shown()
            + ", post_tool_use: "@
            + self.post_tool_use.shown()
            + ", stop: "@
            + self.stop.shown()
            + ", dispatch_enabled: "@
            + self.dispatch_enabled.shown()
            + ", trust_project_hooks: "@
            + self.trust_project_hooks.shown()
            + " }"@
    }

    fn debug_text(&self) -> (r: String) {
        let out = "HooksConfig { pre_tool_use: ".to_owned();
        let out = then(out, self.pre_tool_use.debug_text().as_str());
        let out = then(out, ", post_tool_use: ");
        let out = then(out, self.post_tool_use.debug_text().as_str());
        let out = then(out, ", stop: ");
        let out = then(out, self.stop.debug_text().as_str());
        let out = then(out, ", dispatch_enabled: ");
        let out = then(out, self.dispatch_enabled.debug_text().as_str());
        let out = then(out, ", trust_project_hooks: ");
        let out = then(out, self.trust_project_hooks.debug_text().as_str());
        then(out, " }")
    }
}

impl DebugText for CredentialsStorageConfig {
    open spec fn shown(self) -> Seq<char> {
        "CredentialsStorageConfig { backend: "@
            + self.backend.shown()
            + ", service_name: "@
            + self.service_name.shown()
            + " }"@
    }

    fn debug_text(&self) -> (r: String) {
        let out = "CredentialsStorageConfig { backend: ".to_owned();
        let out = then(out, self.backend.debug_text().as_str());
        let out = then(out, ", service_name: ");
        let out = then(out, self.service_name.debug_text().as_str());
        then(out, " }")
    }
}

impl DebugText for McpServerConfig {
    open spec fn shown(self) -> Seq<char> {
        "McpServerConfig { transport: "@
            + self.transport.shown()
            + ", command: "@
            + self.command.shown()
            + ", args: "@
            + self.args.shown()
            + ", env: "@
            + self.env.shown()
            + ", url: "@
            + self.url.shown()
            + ", headers: "@
            + self.headers.shown()
            + ", deferred: "@
            + self.deferred.shown()
            + ", allow_local: "@
            + self.allow_local.shown()
            + ", only_for_assistant: "@
            + self.only_for_assistant.shown()
            + " }"@
    }

    fn debug_text(&self) -> (r: String) {
        let out = "McpServerConfig { transport: ".to_owned();
        let out = then(out, self.transport.debug_text().as_str());
        let out = then(out, ", command: ");
        let out = then(out, self.command.debug_text().as_str());
        let out = then(out, ", args: ");
        let out = then(out, self.args.debug_text().as_str());
        let out = then(out, ", env: ");
        let out = then(out, self.env.debug_text().as_str());
        let out = then(out, ", url: ");
        let out = then(out, self.url.debug_text().as_str());
        let out = then(out, ", headers: ");
        let out = then(out, self.headers.debug_text().as_str());
        let out = then(out, ", deferred: ");
        let out = then(out, self.deferred.debug_text().as_str());
        let out = then(out, ", allow_local: ");
        let out = then(out, self.allow_local.debug_text().as_str());
        let out = then(out, ", only_for_assistant: ");
        let out = then(out, self.only_for_assistant.debug_text().as_str());
        then(out, " }")
    }
}

impl DebugText for McpConfig {
    open spec fn shown(self) -> Seq<char> {
        "McpConfig { servers: "@
            + self.servers.shown()
            + ", curation: "@
            + self.curation.shown()
            + " }"@
    }

    fn debug_text(&self) -> (r: String) {
        let out = "McpConfig { servers: ".to_owned();
        let out = then(out, self.servers.debug_text().as_str());
        let out = then(out, ", curation: ");
        let out = then(out, self.curation.debug_text().as_str());
        then(out, " }")
    }
}

impl DebugText for SecurityConfig {
    open spec fn shown(self) -> Seq<char> {
        "SecurityConfig { enabled: "@
            + self.enabled.shown()
            + ", egress_allow: "@
            + self.egress_allow.shown()
            + " }"@
    }

    fn debug_text(&self) -> (r: String) {
        let out = "SecurityConfig { enabled: ".to_owned();
        let out = then(out, self.enabled.debug_text().as_str());
        let out = then(out, ", egress_allow: ");
        let out = then(out, self.egress_allow.debug_text().as_str());
        then(out, " }")
    }
}

impl DebugText for StorageConfig {
    open spec fn shown(self) -> Seq<char> {
        "StorageConfig { credentials: "@
            + self.credentials.shown()
            + " }"@
    }

    fn debug_text(&self) -> (r: String) {
        let out = "StorageConfig { credentials: ".to_owned();
        let out = then(out, self.credentials.debug_text().as_str());
        then(out, " }")
    }
}

impl DebugText for EmbedderConfig {
    open spec fn shown(self) -> Seq<char> {
        "EmbedderConfig { backend: "@
            + self.backend.shown()
            + ", api_key_env: "@
            + self.api_key_env.shown()
            + ", model: "@
            + self.model.shown()
            + " }"@
    }

    fn debug_text(&self) -> (r: String) {
        let out = "EmbedderConfig { backend: ".to_owned();
        let out = then(out, self.backend.debug_text().as_str());
        let out = then(out, ", api_key_env: ");
        let out = then(out, self.api_key_env.debug_text().as_str());
        let out = then(out, ", model: ");
        let out = then(out, self.model.debug_text().as_str());
        then(out, " }")
    }
}

impl DebugText for MemoryConfig {
    open spec fn shown(self) -> Seq<char> {
        "MemoryConfig { enabled: "@
            + self.enabled.shown()
            + ", dream_cycle_throttle_secs: "@
            + self.dream_cycle_throttle_secs.shown()
            + ", decay_interval_secs: "@
            + self.decay_interval_secs.shown()
            + ", embedder: "@
            + self.embedder.shown()
            + " }"@
    }

    fn debug_text(&self) -> (r: String) {
        let out = "MemoryConfig { enabled: ".to_owned();
        let out = then(out, self.enabled.debug_text().as_str());
        let out = then(out, ", dream_cycle_throttle_secs: ");
        let out = then(out, self.dream_cycle_throttle_secs.debug_text().as_str());
        let out = then(out, ", decay_interval_secs: ");
        let out = then(out, self.decay_interval_secs.debug_text().as_str());
        let out = then(out, ", embedder: ");
        let out = then(out, self.embedder.debug_text().as_str());
        then(out, " }")
    }
}

impl DebugText for ProviderChainConfig {
    open spec fn shown(self) -> Seq<char> {
        "ProviderChainConfig { enabled: "@
            + self.enabled.shown()
            + ", failure_threshold: "@
            + self.failure_threshold.shown()
            + ", recovery_timeout_secs: "@
            + self.recovery_timeout_secs.shown()
            + ", fallback_models: "@
            + self.fallback_models.shown()
            + " }"@
    }

    fn debug_text(&self) -> (r: String) {
        let out = "ProviderChainConfig { enabled: ".to_owned();
        let out = then(out, self.enabled.debug_text().as_str());
        let out = then(out, ", failure_threshold: ");
        let out = then(out, self.failure_threshold.debug_text().as_str());
        let out = then(out, ", recovery_timeout_secs: ");
        let out = then(out, self.recovery_timeout_secs.debug_text().as_str());
        let out = then(out, ", fallback_models: ");
        let out = then(out, self.fallback_models.debug_text().as_str());
        then(out, " }")
    }
}

impl DebugText for ObservabilityConfig {
    open spec fn shown(self) -> Seq<char> {
        "ObservabilityConfig { structured_traces: "@
            + self.structured_traces.shown()
            + ", skills_lifecycle: "@
            + self.skills_lifecycle.shown()
            + ", online_evolution: "@
            + self.online_evolution.shown()
            + ", workflow_detection_enabled: "@
            + self.workflow_detection_enabled.shown()
            + ", workflow_live_mode: "@
            + self.workflow_live_mode.shown()
            + " }"@
    }

    fn debug_text(&self) -> (r: String) {
        let out = "ObservabilityConfig { structured_traces: ".to_owned();
        let out = then(out, self.structured_traces.debug_text().as_str());
        let out = then(out, ", skills_lifecycle: ");
        let out = then(out, self.skills_lifecycle.debug_text().as_str());
        let out = then(out, ", online_evolution: ");
        let out = then(out, self.online_evolution.debug_text().as_str());
        let out = then(out, ", workflow_detection_enabled: ");
        let out = then(out, self.workflow_detection_enabled.debug_text().as_str());
        let out = then(out, ", workflow_live_mode: ");
        let out = then(out, self.workflow_live_mode.debug_text().as_str());
        then(out, " }")
    }
}

impl DebugText for SkillsPermissionConfig {
    open spec fn shown(self) -> Seq<char> {
        "SkillsPermissionConfig { deny: "@
            + self.deny.shown()
            + ", allow: "@
            + self.allow.shown()
            + " }"@
    }

    fn debug_text(&self) -> (r: String) {
        let out = "SkillsPermissionConfig { deny: ".to_owned();
        let out = then(out, self.deny.debug_text().as_str());
        let out = then(out, ", allow: ");
        let out = then(out, self.allow.debug_text().as_str());
        then(out, " }")
    }
}

impl DebugText for ToolsConfig {
    open spec fn shown(self) -> Seq<char> {
        "ToolsConfig { auto_approve: "@
            + self.auto_approve.shown()
            + ", allow_list: "@
            + self.allow_list.shown()
            + ", skills: "@
            + self.skills.shown()
            + ", verify_edits: "@
            + self.verify_edits.shown()
            + ", windows_shell: "@
            + self.windows_shell.shown()
            + ", env_passthrough: "@
            + self.env_passthrough.shown()
            + ", sandbox: "@
            + self.sandbox.shown()
            + ", allow_no_sandbox: "@
            + self.allow_no_sandbox.shown()
            + " }"@
    }

    fn debug_text(&self) -> (r: String) {
        let out = "ToolsConfig { auto_approve: ".to_owned();
        let out = then(out, self.auto_approve.debug_text().as_str());
        let out = then(out, ", allow_list: ");
        let out = then(out, self.allow_list.debug_text().as_str());
        let out = then(out, ", skills: ");
        let out = then(out, self.skills.debug_text().as_str());
        let out = then(out, ", verify_edits: ");
        let out = then(out, self.verify_edits.debug_text().as_str());
        let out = then(out, ", windows_shell: ");
        let out = then(out, self.windows_shell.debug_text().as_str());
        let out = then(out, ", env_passthrough: ");
        let out = then(out, self.env_passthrough.debug_text().as_str());
        let out = then(out, ", sandbox: ");
        let out = then(out, self.sandbox.debug_text().as_str());
        let out = then(out, ", allow_no_sandbox: ");
        let out = then(out, self.allow_no_sandbox.debug_text().as_str());
        then(out, " }")
    }
}

impl DebugText for SessionConfig {
    open spec fn shown(self) -> Seq<char> {
        "SessionConfig { enabled: "@
            + self.enabled.shown()
            + ", directory: "@
            + self.directory.shown()
            + ", max_sessions: "@
            + self.max_sessions.shown()
            + " }"@
    }

    fn debug_text(&self) -> (r: String) {
        let out = "SessionConfig { enabled: ".to_owned();
        let out = then(out, self.enabled.debug_text().as_str());
        let out = then(out, ", directory: ");
        let out = then(out, self.directory.debug_text().as_str());
        let out = then(out, ", max_sessions: ");
        let out = then(out, self.max_sessions.debug_text().as_str());
        then(out, " }")
    }
}

impl DebugText for InboundWebhookConfig {
    open spec fn shown(self) -> Seq<char> {
        "InboundWebhookConfig { enabled: "@
            + self.enabled.shown()
            + ", bind: "@
            + self.bind.shown()
            + ", public_base_url: "@
            + self.public_base_url.shown()
            + " }"@
    }

    fn debug_text(&self) -> (r: String) {
        let out = "InboundWebhookConfig { enabled: ".to_owned();
        let out = then(out, self.enabled.debug_text().as_str());
        let out = then(out, ", bind: ");
        let out = then(out, self.bind.debug_text().as_str());
        let out = then(out, ", public_base_url: ");
        let out = then(out, self.public_base_url.debug_text().as_str());
        then(out, " }")
    }
}

impl DebugText for BedrockConfig {
    open spec fn shown(self) -> Seq<char> {
        "BedrockConfig { region: "@
            + self.region.shown()
            + ", access_key_id: "@
            + presence(self.access_key_id)
            + ", secret_access_key: "@
            + presence(self.secret_access_key)
            + ", session_token: "@
            + presence(self.session_token)
            + ", profile: "@
            + self.profile.shown()
            + " }"@
    }

    fn debug_text(&self) -> (r: String) {
        let out = "BedrockConfig { region: ".to_owned();
        let out = then(out, self.region.debug_text().as_str());
        let out = then(out, ", access_key_id: ");
        let out = then(out, show_presence(&self.access_key_id).as_str());
        let out = then(out, ", secret_access_key: ");
        let out = then(out, show_presence(&self.secret_access_key).as_str());
        let out = then(out, ", session_token: ");
        let out = then(out, show_presence(&self.session_token).as_str());
        let out = then(out, ", profile: ");
        let out = then(out, self.profile.debug_text().as_str());
        then(out, " }")
    }
}

impl DebugText for VertexConfig {
    open spec fn shown(self) -> Seq<char> {
        "VertexConfig { project_id: "@
            + self.project_id.shown()
            + ", region: "@
            + self.region.shown()
            + ", credentials_file: "@
            + self.credentials_file.shown()
            + ", service_account_json: "@
            + presence(self.service_account_json)
            + " }"@
    }

    fn debug_text(&self) -> (r: String) {
        let out = "VertexConfig { project_id: ".to_owned();
        let out = then(out, self.project_id.debug_text().as_str());
        let out = then(out, ", region: ");
        let out = then(out, self.region.debug_text().as_str());
        let out = then(out, ", credentials_file: ");
        let out = then(out, self.credentials_file.debug_text().as_str());
        let out = then(out, ", service_account_json: ");
        let out = then(out, show_presence(&self.service_account_json).as_str());
        then(out, " }")
    }
}

impl DebugText for CarriedSettings {
    open spec fn shown(self) -> Seq<char> {
        self.text@
    }

    fn debug_text(&self) -> (r: String) {
        self.text.clone()
    }
}

impl DebugText for Config {
    open spec fn shown(self) -> Seq<char> {
        "Config { provider_label: "@
            + self.provider_label.shown()
            + ", provider: "@
            + self.provider.shown()
            + ", api_key: "@
            + key_presence(self.api_key@)
            + ", base_url: "@
            + self.base_url.shown()
            + ", security: "@
            + self.security.shown()
            + ", model: "@
            + self.model.shown()
            + ", max_tokens: "@
            + self.max_tokens.shown()
            + ", max_tokens_explicit: "@
            + self.max_tokens_explicit.shown()
            + ", temperature: "@
            + self.temperature.shown()
            + ", max_turns: "@
            + self.max_turns.shown()
            + ", approval_mode: "@
            + self.approval_mode.shown()
            + ", system_prompt: "@
            + self.system_prompt.shown()
            + ", thinking: "@
            + self.thinking.shown()
            + ", prompt_caching: "@
            + self.prompt_caching.shown()
            + ", prompt_caching_min_prefix_tokens: "@
            + self.prompt_caching_min_prefix_tokens.shown()
            + ", compat: "@
            + self.compat.shown()
            + ", tools: "@
            + self.tools.shown()
            + ", builtin_tools: "@
            + self.builtin_tools.shown()
            + ", advertised_capabilities: "@
            + self.advertised_capabilities.shown()
            + ", session: "@
            + self.session.shown()
            + ", inbound_webhook: "@
            + self.inbound_webhook.shown()
            + ", compact: "@
            + self.compact.shown()
            + ", plan: "@
            + self.plan.shown()
            + ", file_cache: "@
            + self.file_cache.shown()
            + ", hooks: "@
            + self.hooks.shown()
            + ", bedrock: "@
            + self.bedrock.shown()
            + ", vertex: "@
            + self.vertex.shown()
            + ", mcp: "@
            + self.mcp.shown()
            + ", debug: "@
            + self.debug.shown()
            + ", observability: "@
            + self.observability.shown()
            + ", provider_chain: "@
            + self.provider_chain.shown()
            + ", budget: "@
            + self.budget.shown()
            + ", storage: "@
            + self.storage.shown()
            + ", memory: "@
            + self.memory.shown()
            + ", browser: "@
            + self.browser.shown()
            + ", session_cap: "@
            + self.session_cap.shown()
            + " }"@
    }

    fn debug_text(&self) -> (r: String) {
        let out = "Config { provider_label: ".to_owned();
        let out = then(out, self.provider_label.debug_text().as_str());
        let out = then(out, ", provider: ");
        let out = then(out, self.provider.debug_text().as_str());
        let out = then(out, ", api_key: ");
        let out = then(out, show_key_presence(self.api_key.as_str()).as_str());
        let out = then(out, ", base_url: ");
        let out = then(out, self.base_url.debug_text().as_str());
        let out = then(out, ", security: ");
        let out = then(out, self.security.debug_text().as_str());
        let out = then(out, ", model: ");
        let out = then(out, self.model.debug_text().as_str());
        let out = then(out, ", max_tokens: ");
        let out = then(out, self.max_tokens.debug_text().as_str());
        let out = then(out, ", max_tokens_explicit: ");
        let out = then(out, self.max_tokens_explicit.debug_text().as_str());
        let out = then(out, ", temperature: ");
        let out = then(out, self.temperature.debug_text().as_str());
        let out = then(out, ", max_turns: ");
        let out = then(out, self.max_turns.debug_text().as_str());
        let out = then(out, ", approval_mode: ");
        let out = then(out, self.approval_mode.debug_text().as_str());
        let out = then(out, ", system_prompt: ");
        let out = then(out, self.system_prompt.debug_text().as_str());
        let out = then(out, ", thinking: ");
        let out = then(out, self.thinking.debug_text().as_str());
        let out = then(out, ", prompt_caching: ");
        let out = then(out, self.prompt_caching.debug_text().as_str());
        let out = then(out, ", prompt_caching_min_prefix_tokens: ");
        let out = then(out, self.prompt_caching_min_prefix_tokens.debug_text().as_str());
        let out = then(out, ", compat: ");
        let out = then(out, self.compat.debug_text().as_str());
        let out = then(out, ", tools: ");
        let out = then(out, self.tools.debug_text().as_str());
        let out = then(out, ", builtin_tools: ");
        let out = then(out, self.builtin_tools.debug_text().as_str());
        let out = then(out, ", advertised_capabilities: ");
        let out = then(out, self.advertised_capabilities.debug_text().as_str());
        let out = then(out, ", session: ");
        let out = then(out, self.session.debug_text().as_str());
        let out = then(out, ", inbound_webhook: ");
        let out = then(out, self.inbound_webhook.debug_text().as_str());
        let out = then(out, ", compact: ");
        let out = then(out, self.compact.debug_text().as_str());
        let out = then(out, ", plan: ");
        let out = then(out, self.plan.debug_text().as_str());
        let out = then(out, ", file_cache: ");
        let out = then(out, self.file_cache.debug_text().as_str());
        let out = then(out, ", hooks: ");
        let out = then(out, self.hooks.debug_text().as_str());
        let out = then(out, ", bedrock: ");
        let out = then(out, self.bedrock.debug_text().as_str());
        let out = then(out, ", vertex: ");
        let out = then(out, self.vertex.debug_text().as_str());
        let out = then(out, ", mcp: ");
        let out = then(out, self.mcp.debug_text().as_str());
        let out = then(out, ", debug: ");
        let out = then(out, self.debug.debug_text().as_str());
        let out = then(out, ", observability: ");
        let out = then(out, self.observability.debug_text().as_str());
        let out = then(out, ", provider_chain: ");
        let out = then(out, self.provider_chain.debug_text().as_str());
        let out = then(out, ", budget: ");
        let out = then(out, self.budget.debug_text().as_str());
        let out = then(out, ", storage: ");
        let out = then(out, self.storage.debug_text().as_str());
        let out = then(out, ", memory: ");
        let out = then(out, self.memory.debug_text().as_str());
        let out = then(out, ", browser: ");
        let out = then(out, self.browser.debug_text().as_str());
        let out = then(out, ", session_cap: ");
        let out = then(out, self.session_cap.debug_text().as_str());
        then(out, " }")
    }
}

/// What is shown of Bedrock credentials does not depend on the secrets among them.
pub proof fn law_bedrock_secrets_are_not_shown(
    a: BedrockConfig,
    access_key_id: String,
    secret_access_key: String,
    session_token: String,
)
    requires
        a.access_key_id is Some,
        a.secret_access_key is Some,
        a.session_token is Some,
    ensures
        a.shown() == (BedrockConfig {
            access_key_id: Some(access_key_id),
            secret_access_key: Some(secret_access_key),
            session_token: Some(session_token),
            ..a
        }).shown(),
{
}

/// What is shown of Vertex authentication does not depend on an inline key.
pub proof fn law_vertex_key_is_not_shown(a: VertexConfig, service_account_json: String)
    requires
        a.service_account_json is Some,
    ensures
        a.shown() == (VertexConfig {
            service_account_json: Some(service_account_json),
            ..a
        }).shown(),
{
}

/// What is shown of a session does not depend on its API key, but for whether there is one.
pub proof fn law_api_key_is_not_shown(a: Config, api_key: String)
    requires
        a.api_key@.len() == 0 <==> api_key@.len() == 0,
    ensures
        a.shown() == (Config { api_key, ..a }).shown(),
{
}

} // verus!
