//! The built-in value of every setting.

use crate::browser::{BrowserConfig, BrowserPolicyConfig};
use crate::budget::BudgetConfig;
use crate::compact::{CompactConfig, CompactionLevel, ToolCallArgsConfig};
use crate::compat::ProviderCompat;
use crate::config::provider::ProviderType;
use crate::config::types::{
    ApprovalMode, BedrockConfig, CarriedSettings, CliArgs, Config, ConfigFile, DefaultConfig,
    EmbedderBackend, EmbedderConfig, InboundWebhookConfig, McpConfig, McpCurationPolicy,
    McpServerConfig, MemoryConfig, ObservabilityConfig, ProfileConfig, PromptCachingDetail,
    ProviderChainConfig, ProviderConfig, SecurityConfig, SessionConfig, SkillsPermissionConfig,
    StorageConfig, ToolsConfig, VertexConfig,
};
use crate::credentials::CredentialsStorageConfig;
use crate::crucible::CrucibleConfig;
use crate::file_cache::FileCacheConfig;
use crate::hooks::HooksConfig;
use crate::plan::PlanConfig;
use crate::text::texts_are;
use vstd::prelude::*;

verus! {

/// The built-in settings of [`BedrockConfig`].
pub proof fn law_stock_bedrock_config(c: BedrockConfig)
    requires
        c.is_default(),
    ensures
        c.region is None,
        c.access_key_id is None,
        c.secret_access_key is None,
        c.session_token is None,
        c.profile is None,
{
}

/// The built-in settings of [`VertexConfig`].
pub proof fn law_stock_vertex_config(c: VertexConfig)
    requires
        c.is_default(),
    ensures
        c.project_id is None,
        c.region is None,
        c.credentials_file is None,
        c.service_account_json is None,
{
}

/// The built-in settings of [`McpConfig`].
pub proof fn law_stock_mcp_config(c: McpConfig)
    requires
        c.is_default(),
    ensures
        c.servers@ == Map::<Seq<char>, McpServerConfig>::empty(),
        c.curation == (McpCurationPolicy::TopK { k: 15 }),
{
}

/// The built-in settings of [`SecurityConfig`].
pub proof fn law_stock_security_config(c: SecurityConfig)
    requires
        c.is_default(),
    ensures
        c.enabled,
        c.egress_allow@.len() == 0,
{
}

/// The built-in settings of [`StorageConfig`].
pub proof fn law_stock_storage_config(c: StorageConfig)
    requires
        c.is_default(),
    ensures
        c.credentials.is_default(),
{
}

/// The built-in settings of [`EmbedderConfig`].
pub proof fn law_stock_embedder_config(c: EmbedderConfig)
    requires
        c.is_default(),
    ensures
        c.backend == EmbedderBackend::Hashed,
        c.api_key_env is None,
        c.model is None,
{
}

/// The built-in settings of [`MemoryConfig`].
pub proof fn law_stock_memory_config(c: MemoryConfig)
    requires
        c.is_default(),
    ensures
        c.enabled,
        c.dream_cycle_throttle_secs == 1800,
        c.decay_interval_secs == 3600,
        c.embedder.is_default(),
{
}

/// The built-in settings of [`ProviderChainConfig`].
pub proof fn law_stock_provider_chain_config(c: ProviderChainConfig)
    requires
        c.is_default(),
    ensures
        !c.enabled,
        c.failure_threshold == 3,
        c.recovery_timeout_secs == 30,
        c.fallback_models@.len() == 0,
{
}

/// The built-in settings of [`ObservabilityConfig`].
pub proof fn law_stock_observability_config(c: ObservabilityConfig)
    requires
        c.is_default(),
    ensures
        !c.structured_traces,
        c.skills_lifecycle,
        !c.online_evolution,
        !c.workflow_detection_enabled,
        !c.workflow_live_mode,
{
}

/// The built-in settings of [`DefaultConfig`].
pub proof fn law_stock_default_config(c: DefaultConfig)
    requires
        c.is_default(),
    ensures
        c.provider@ == "anthropic"@,
        c.model is None,
        c.max_tokens == 64000,
        c.max_turns is None,
        c.approval_mode == ApprovalMode::Default,
        c.system_prompt is None,
        c.user is None,
        !c.read_only,
{
}

/// The built-in settings of [`PromptCachingDetail`].
pub proof fn law_stock_prompt_caching_detail(c: PromptCachingDetail)
    requires
        c.is_default(),
    ensures
        c.enabled is None,
        c.min_prefix_tokens is None,
{
}

/// The built-in settings of [`ProviderConfig`].
pub proof fn law_stock_provider_config(c: ProviderConfig)
    requires
        c.is_default(),
    ensures
        c.provider is None,
        c.model is None,
        c.api_key is None,
        c.base_url is None,
        c.prompt_caching is None,
        c.compat is None,
{
}

/// The built-in settings of [`ProfileConfig`].
pub proof fn law_stock_profile_config(c: ProfileConfig)
    requires
        c.is_default(),
    ensures
        c.provider is None,
        c.model is None,
        c.api_key is None,
        c.base_url is None,
        c.max_tokens is None,
        c.max_turns is None,
        c.extends is None,
        c.mcp_servers is None,
        c.compat is None,
{
}

/// The built-in settings of [`SkillsPermissionConfig`].
pub proof fn law_stock_skills_permission_config(c: SkillsPermissionConfig)
    requires
        c.is_default(),
    ensures
        c.deny@.len() == 0,
        c.allow@.len() == 0,
{
}

/// The built-in settings of [`ToolsConfig`].
pub proof fn law_stock_tools_config(c: ToolsConfig)
    requires
        c.is_default(),
    ensures
        !c.auto_approve,
        texts_are(c.allow_list@, seq!["Read"@, "Grep"@, "Glob"@, "web"@, "WebFetch"@,
            "vision_analyze"@, "transcribe_audio"@, "ToolSearch"@, "Skill"@, "genesis_status"@,
            "genesis_telemetry_query"@]),
        c.skills.is_default(),
        !c.verify_edits,
        c.windows_shell is None,
        c.env_passthrough@.len() == 0,
        c.sandbox is None,
        c.allow_no_sandbox is None,
{
}

/// The built-in settings of [`SessionConfig`].
pub proof fn law_stock_session_config(c: SessionConfig)
    requires
        c.is_default(),
    ensures
        c.enabled,
        c.directory@ == "genesis-core/genesis-core/sessions"@,
        c.max_sessions == 20,
{
}

/// The built-in settings of [`InboundWebhookConfig`].
pub proof fn law_stock_inbound_webhook_config(c: InboundWebhookConfig)
    requires
        c.is_default(),
    ensures
        !c.enabled,
        c.bind@ == "127.0.0.1:8787"@,
        c.public_base_url is None,
{
}

/// The built-in settings of [`CarriedSettings`].
pub proof fn law_stock_carried_settings(c: CarriedSettings)
    requires
        c.is_default(),
    ensures
        c.text@.len() == 0,
{
}

/// The built-in settings of [`ConfigFile`].
pub proof fn law_stock_config_file(c: ConfigFile)
    requires
        c.is_default(),
    ensures
        c.default.is_default(),
        c.security.is_default(),
        c.providers@ == Map::<Seq<char>, ProviderConfig>::empty(),
        c.profiles@ == Map::<Seq<char>, ProfileConfig>::empty(),
        c.tools.is_default(),
        c.session.is_default(),
        c.inbound_webhook.is_default(),
        c.compact.is_default(),
        c.plan.is_default(),
        c.file_cache.is_default(),
        c.hooks.is_default(),
        c.bedrock is None,
        c.vertex is None,
        c.mcp.is_default(),
        c.debug.is_default(),
        c.observability.is_default(),
        c.provider_chain.is_default(),
        c.budget.is_default(),
        c.storage.is_default(),
        c.memory is None,
        c.browser.is_default(),
        c.session_cap is None,
        c.crucible.is_default(),
{
}

/// The built-in settings of [`Config`].
pub proof fn law_stock_config(c: Config)
    requires
        c.is_default(),
    ensures
        c.provider_label@ == "anthropic"@,
        c.provider == ProviderType::Anthropic,
        c.api_key@ == ""@,
        c.base_url@ == ""@,
        c.security.is_default(),
        c.model@ == ""@,
        c.max_tokens == 64000,
        !c.max_tokens_explicit,
        c.temperature is None,
        c.max_turns is None,
        c.approval_mode == ApprovalMode::Default,
        c.system_prompt is None,
        c.thinking is None,
        !c.prompt_caching,
        c.prompt_caching_min_prefix_tokens == 1024,
        c.compat.is_default(),
        c.tools.is_default(),
        c.builtin_tools.is_default(),
        c.advertised_capabilities.is_default(),
        c.session.is_default(),
        c.inbound_webhook.is_default(),
        c.compact.is_default(),
        c.plan.is_default(),
        c.file_cache.is_default(),
        c.hooks.is_default(),
        c.bedrock is None,
        c.vertex is None,
        c.mcp.is_default(),
        c.debug.is_default(),
        c.observability.is_default(),
        c.provider_chain.is_default(),
        c.budget.is_default(),
        c.storage.is_default(),
        c.memory.is_default(),
        c.browser.is_default(),
        c.session_cap is None,
        c.crucible.is_default(),
{
}

/// The built-in settings of [`ToolCallArgsConfig`].
pub proof fn law_stock_tool_call_args_config(c: ToolCallArgsConfig)
    requires
        c.is_default(),
    ensures
        c.enabled,
        c.keep_recent_turns == 2,
        c.min_args_bytes == 768,
        c.epoch_turns == 4,
{
}

/// The built-in settings of [`CompactConfig`].
pub proof fn law_stock_compact_config(c: CompactConfig)
    requires
        c.is_default(),
    ensures
        c.context_window == 200000,
        c.output_reserve == 20000,
        c.autocompact_buffer == 13000,
        c.emergency_buffer == 3000,
        c.max_failures == 3,
        c.micro_keep_recent == 5,
        c.micro_gap_seconds == 3600,
        texts_are(c.compactable_tools@, seq!["Read"@, "Bash"@, "Grep"@, "Glob"@, "Write"@,
            "Edit"@]),
        c.enabled,
        !c.cache_diagnostics,
        c.compaction == CompactionLevel::Safe,
        !c.toon,
        c.compaction_model is None,
        !c.smart_enabled,
        c.smart_trigger_fraction.bits == 0x3fe4cccccccccccd,
        c.smart_release_fraction.bits == 0x3fe0000000000000,
        c.smart_cooldown_turns == 2,
        c.smart_min_shrink_tokens == 2000,
        c.smart_handoff_to_memory,
        c.tool_call_args.is_default(),
{
}

/// The built-in settings of [`PlanConfig`].
pub proof fn law_stock_plan_config(c: PlanConfig)
    requires
        c.is_default(),
    ensures
        c.enabled,
        c.plan_directory@ == ".genesis-core/plans"@,
        !c.plan_first,
{
}

/// The built-in settings of [`FileCacheConfig`].
pub proof fn law_stock_file_cache_config(c: FileCacheConfig)
    requires
        c.is_default(),
    ensures
        c.max_entries == 100,
        c.max_size_bytes == 26214400,
        c.enabled,
{
}

/// The built-in settings of [`CrucibleConfig`].
pub proof fn law_stock_crucible_config(c: CrucibleConfig)
    requires
        c.is_default(),
    ensures
        !c.enabled,
        c.proposers@.len() == 0,
{
}

/// The built-in settings of [`BrowserPolicyConfig`].
pub proof fn law_stock_browser_policy_config(c: BrowserPolicyConfig)
    requires
        c.is_default(),
    ensures
        c.default_action@ == "deny"@,
        c.allowed_origins@.len() == 0,
        c.denied_origins@.len() == 0,
{
}

/// The built-in settings of [`BrowserConfig`].
pub proof fn law_stock_browser_config(c: BrowserConfig)
    requires
        c.is_default(),
    ensures
        c.policy.is_default(),
{
}

/// The built-in settings of [`BudgetConfig`].
pub proof fn law_stock_budget_config(c: BudgetConfig)
    requires
        c.is_default(),
    ensures
        c.max_wall_time_secs is None,
        c.max_tool_runtime_secs is None,
        c.max_processes is None,
        c.max_agent_depth is None,
        c.max_tokens_in is None,
        c.max_tokens_out is None,
        c.max_cost_usd is None,
{
}

/// The built-in settings of [`HooksConfig`].
pub proof fn law_stock_hooks_config(c: HooksConfig)
    requires
        c.is_default(),
    ensures
        c.pre_tool_use@.len() == 0,
        c.post_tool_use@.len() == 0,
        c.stop@.len() == 0,
        c.dispatch_enabled,
        !c.trust_project_hooks,
{
}

/// The built-in settings of [`CredentialsStorageConfig`].
pub proof fn law_stock_credentials_storage_config(c: CredentialsStorageConfig)
    requires
        c.is_default(),
    ensures
        c.backend is Auto,
        c.service_name is None,
{
}

/// The built-in settings of [`ProviderCompat`].
pub proof fn law_stock_provider_compat(c: ProviderCompat)
    requires
        c.is_default(),
    ensures
        c.max_tokens_field is None,
        c.merge_assistant_messages is None,
        c.clean_orphan_tool_calls is None,
        c.dedup_tool_results is None,
        c.ensure_alternation is None,
        c.merge_same_role is None,
        c.sanitize_schema is None,
        c.strip_patterns is None,
        c.auto_tool_id is None,
        c.api_path is None,
        c.supports_thinking is None,
        c.supports_effort is None,
        c.effort_levels is None,
        c.cache_message_breakpoints is None,
        c.provider_type is None,
        c.cost_per_input_token is None,
        c.cost_per_output_token is None,
        c.cost_per_cache_read_token is None,
        c.cost_per_cache_write_token is None,
        c.input_optimization is None,
        c.compact_bash is None,
        c.include_usage_in_stream is None,
        c.uses_responses_api is None,
        c.azure_auth_mode is None,
{
}

/// The built-in settings of [`CliArgs`].
pub proof fn law_stock_cli_args(c: CliArgs)
    requires
        c.is_default(),
    ensures
        c.provider is None,
        c.api_key is None,
        c.base_url is None,
        c.model is None,
        c.max_tokens is None,
        c.max_turns is None,
        c.system_prompt is None,
        c.profile is None,
        !c.auto_approve,
        c.project_dir is None,
{
}

} // verus!
