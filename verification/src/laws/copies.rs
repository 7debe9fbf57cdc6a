//! What it means that two settings hold the same contents: nothing of them may be lost in a copy.

use crate::browser::{BrowserConfig, BrowserPolicyConfig};
use crate::budget::BudgetConfig;
use crate::catalog::CatalogEntry;
use crate::compact::{CompactConfig, ToolCallArgsConfig};
use crate::compat::ProviderCompat;
use crate::config::types::{
    BedrockConfig, CarriedSettings, Config, ConfigFile, DefaultConfig, EmbedderConfig,
    InboundWebhookConfig, McpConfig, McpServerConfig, MemoryConfig, ObservabilityConfig, ProfileConfig,
    PromptCachingConfig, PromptCachingDetail, ProviderChainConfig, ProviderConfig, SecurityConfig,
    SessionConfig, SkillsPermissionConfig, StorageConfig, ToolsConfig, VertexConfig,
};
use crate::credentials::{CredentialsBackend, CredentialsStorageConfig};
use crate::crucible::CrucibleConfig;
use crate::file_cache::FileCacheConfig;
use crate::hooks::{HookDef, HooksConfig};
use crate::plan::PlanConfig;
use crate::replica::Replica;
use crate::table::{texts_in, StrMap};
use vstd::prelude::*;

verus! {

/// The texts of a list of strings.
pub open spec fn texts(list: Seq<String>) -> Seq<Seq<char>> {
    list.map_values(|s: String| s@)
}

proof fn lemma_same_texts(a: Vec<String>, b: Vec<String>)
    requires
        a.same(b),
    ensures
        texts(a@) == texts(b@),
{
    assert(texts(a@) =~= texts(b@)) by {
        assert forall|i: int| 0 <= i < a@.len() implies texts(a@)[i] == texts(b@)[i] by {
            assert(a@[i].same(b@[i]));
        }
    }
}

proof fn lemma_same_text_map(a: StrMap<String>, b: StrMap<String>)
    requires
        a.same(b),
    ensures
        texts_in(a@) == texts_in(b@),
{
    assert(texts_in(a@) =~= texts_in(b@)) by {
        assert forall|k: Seq<char>| #[trigger] texts_in(a@).contains_key(k) implies texts_in(a@)[k]
            == texts_in(b@)[k] by {
            assert(a@.contains_key(k));
            assert(a@[k].same(b@[k]));
        }
        assert(texts_in(a@).dom() =~= texts_in(b@).dom());
    }
}

/// The same of the two forms of a caching switch, and of the choices of a credentials store.
pub proof fn law_same_choices(
    a: PromptCachingConfig,
    b: PromptCachingConfig,
    c: CredentialsBackend,
    d: CredentialsBackend,
)
    requires
        a.same(b),
        c.same(d),
    ensures
        a matches PromptCachingConfig::Enabled(x) ==> b == PromptCachingConfig::Enabled(x),
        a matches PromptCachingConfig::Detailed(x) ==> b == PromptCachingConfig::Detailed(x),
        c is Auto ==> d is Auto,
        c is Plaintext ==> d is Plaintext,
        c is Keyring ==> d is Keyring,
        c matches CredentialsBackend::EncryptedFile { cipher_path, key_params_path } ==> (d
            matches CredentialsBackend::EncryptedFile { cipher_path: x, key_params_path: y } && x@
            == cipher_path@ && y@ == key_params_path@),
{
}

/// Two values of [`BedrockConfig`] hold the same contents only where each setting of the one is that of the
/// other.
pub proof fn law_same_bedrock_config(a: BedrockConfig, b: BedrockConfig)
    requires
        a.same(b),
    ensures
        a.region is Some <==> b.region is Some,
        a.region is Some ==> a.region->0@ == b.region->0@,
        a.access_key_id is Some <==> b.access_key_id is Some,
        a.access_key_id is Some ==> a.access_key_id->0@ == b.access_key_id->0@,
        a.secret_access_key is Some <==> b.secret_access_key is Some,
        a.secret_access_key is Some ==> a.secret_access_key->0@ == b.secret_access_key->0@,
        a.session_token is Some <==> b.session_token is Some,
        a.session_token is Some ==> a.session_token->0@ == b.session_token->0@,
        a.profile is Some <==> b.profile is Some,
        a.profile is Some ==> a.profile->0@ == b.profile->0@,
{
}

/// Two values of [`VertexConfig`] hold the same contents only where each setting of the one is that of the
/// other.
pub proof fn law_same_vertex_config(a: VertexConfig, b: VertexConfig)
    requires
        a.same(b),
    ensures
        a.project_id is Some <==> b.project_id is Some,
        a.project_id is Some ==> a.project_id->0@ == b.project_id->0@,
        a.region is Some <==> b.region is Some,
        a.region is Some ==> a.region->0@ == b.region->0@,
        a.credentials_file is Some <==> b.credentials_file is Some,
        a.credentials_file is Some ==> a.credentials_file->0@ == b.credentials_file->0@,
        a.service_account_json is Some <==> b.service_account_json is Some,
        a.service_account_json is Some ==> a.service_account_json->0@ == b.service_account_json->0@,
{
}

/// Two values of [`McpServerConfig`] hold the same contents only where each setting of the one is that of the
/// other.
pub proof fn law_same_mcp_server_config(a: McpServerConfig, b: McpServerConfig)
    requires
        a.same(b),
    ensures
        a.transport == b.transport,
        a.command is Some <==> b.command is Some,
        a.command is Some ==> a.command->0@ == b.command->0@,
        a.args is Some <==> b.args is Some,
        a.args is Some ==> texts(a.args->0@) == texts(b.args->0@),
        a.env is Some <==> b.env is Some,
        a.env is Some ==> texts_in(a.env->0@) == texts_in(b.env->0@),
        a.url is Some <==> b.url is Some,
        a.url is Some ==> a.url->0@ == b.url->0@,
        a.headers is Some <==> b.headers is Some,
        a.headers is Some ==> texts_in(a.headers->0@) == texts_in(b.headers->0@),
        a.deferred == b.deferred,
        a.allow_local == b.allow_local,
        a.only_for_assistant is Some <==> b.only_for_assistant is Some,
        a.only_for_assistant is Some ==> texts(a.only_for_assistant->0@)
            == texts(b.only_for_assistant->0@),
{
    if a.args is Some {
        lemma_same_texts(a.args->0, b.args->0);
    }
    if a.env is Some {
        lemma_same_text_map(a.env->0, b.env->0);
    }
    if a.headers is Some {
        lemma_same_text_map(a.headers->0, b.headers->0);
    }
    if a.only_for_assistant is Some {
        lemma_same_texts(a.only_for_assistant->0, b.only_for_assistant->0);
    }
}

/// Two values of [`McpConfig`] hold the same contents only where each setting of the one is that of the
/// other.
pub proof fn law_same_mcp_config(a: McpConfig, b: McpConfig)
    requires
        a.same(b),
    ensures
        a.servers@.dom() == b.servers@.dom(),
        forall|k: Seq<char>| a.servers@.contains_key(k)
            ==> (#[trigger] a.servers@[k]).same(b.servers@[k]),
        a.curation == b.curation,
{
}

/// Two values of [`SecurityConfig`] hold the same contents only where each setting of the one is that of the
/// other.
pub proof fn law_same_security_config(a: SecurityConfig, b: SecurityConfig)
    requires
        a.same(b),
    ensures
        a.enabled == b.enabled,
        texts(a.egress_allow@) == texts(b.egress_allow@),
{
    lemma_same_texts(a.egress_allow, b.egress_allow);
}

/// Two values of [`StorageConfig`] hold the same contents only where each setting of the one is that of the
/// other.
pub proof fn law_same_storage_config(a: StorageConfig, b: StorageConfig)
    requires
        a.same(b),
    ensures
        a.credentials.same(b.credentials),
{
}

/// Two values of [`EmbedderConfig`] hold the same contents only where each setting of the one is that of the
/// other.
pub proof fn law_same_embedder_config(a: EmbedderConfig, b: EmbedderConfig)
    requires
        a.same(b),
    ensures
        a.backend == b.backend,
        a.api_key_env is Some <==> b.api_key_env is Some,
        a.api_key_env is Some ==> a.api_key_env->0@ == b.api_key_env->0@,
        a.model is Some <==> b.model is Some,
        a.model is Some ==> a.model->0@ == b.model->0@,
{
}

/// Two values of [`MemoryConfig`] hold the same contents only where each setting of the one is that of the
/// other.
pub proof fn law_same_memory_config(a: MemoryConfig, b: MemoryConfig)
    requires
        a.same(b),
    ensures
        a.enabled == b.enabled,
        a.dream_cycle_throttle_secs == b.dream_cycle_throttle_secs,
        a.decay_interval_secs == b.decay_interval_secs,
        a.embedder.same(b.embedder),
{
}

/// Two values of [`ProviderChainConfig`] hold the same contents only where each setting of the one is that of the
/// other.
pub proof fn law_same_provider_chain_config(a: ProviderChainConfig, b: ProviderChainConfig)
    requires
        a.same(b),
    ensures
        a.enabled == b.enabled,
        a.failure_threshold == b.failure_threshold,
        a.recovery_timeout_secs == b.recovery_timeout_secs,
        texts(a.fallback_models@) == texts(b.fallback_models@),
{
    lemma_same_texts(a.fallback_models, b.fallback_models);
}

/// Two values of [`ObservabilityConfig`] hold the same contents only where each setting of the one is that of the
/// other.
pub proof fn law_same_observability_config(a: ObservabilityConfig, b: ObservabilityConfig)
    requires
        a.same(b),
    ensures
        a.structured_traces == b.structured_traces,
        a.skills_lifecycle == b.skills_lifecycle,
        a.online_evolution == b.online_evolution,
        a.workflow_detection_enabled == b.workflow_detection_enabled,
        a.workflow_live_mode == b.workflow_live_mode,
{
}

/// Two values of [`DefaultConfig`] hold the same contents only where each setting of the one is that of the
/// other.
pub proof fn law_same_default_config(a: DefaultConfig, b: DefaultConfig)
    requires
        a.same(b),
    ensures
        a.provider@ == b.provider@,
        a.model is Some <==> b.model is Some,
        a.model is Some ==> a.model->0@ == b.model->0@,
        a.max_tokens == b.max_tokens,
        a.max_turns == b.max_turns,
        a.approval_mode == b.approval_mode,
        a.system_prompt is Some <==> b.system_prompt is Some,
        a.system_prompt is Some ==> a.system_prompt->0@ == b.system_prompt->0@,
        a.user is Some <==> b.user is Some,
        a.user is Some ==> a.user->0@ == b.user->0@,
        a.read_only == b.read_only,
{
}

/// Two values of [`PromptCachingDetail`] hold the same contents only where each setting of the one is that of the
/// other.
pub proof fn law_same_prompt_caching_detail(a: PromptCachingDetail, b: PromptCachingDetail)
    requires
        a.same(b),
    ensures
        a.enabled == b.enabled,
        a.min_prefix_tokens == b.min_prefix_tokens,
{
}

/// Two values of [`ProviderConfig`] hold the same contents only where each setting of the one is that of the
/// other.
pub proof fn law_same_provider_config(a: ProviderConfig, b: ProviderConfig)
    requires
        a.same(b),
    ensures
        a.provider is Some <==> b.provider is Some,
        a.provider is Some ==> a.provider->0@ == b.provider->0@,
        a.model is Some <==> b.model is Some,
        a.model is Some ==> a.model->0@ == b.model->0@,
        a.api_key is Some <==> b.api_key is Some,
        a.api_key is Some ==> a.api_key->0@ == b.api_key->0@,
        a.base_url is Some <==> b.base_url is Some,
        a.base_url is Some ==> a.base_url->0@ == b.base_url->0@,
        a.prompt_caching is Some <==> b.prompt_caching is Some,
        a.prompt_caching is Some ==> a.prompt_caching->0.same(b.prompt_caching->0),
        a.compat is Some <==> b.compat is Some,
        a.compat is Some ==> a.compat->0.same(b.compat->0),
{
}

/// Two values of [`ProfileConfig`] hold the same contents only where each setting of the one is that of the
/// other.
pub proof fn law_same_profile_config(a: ProfileConfig, b: ProfileConfig)
    requires
        a.same(b),
    ensures
        a.provider is Some <==> b.provider is Some,
        a.provider is Some ==> a.provider->0@ == b.provider->0@,
        a.model is Some <==> b.model is Some,
        a.model is Some ==> a.model->0@ == b.model->0@,
        a.api_key is Some <==> b.api_key is Some,
        a.api_key is Some ==> a.api_key->0@ == b.api_key->0@,
        a.base_url is Some <==> b.base_url is Some,
        a.base_url is Some ==> a.base_url->0@ == b.base_url->0@,
        a.max_tokens == b.max_tokens,
        a.max_turns == b.max_turns,
        a.extends is Some <==> b.extends is Some,
        a.extends is Some ==> a.extends->0@ == b.extends->0@,
        a.mcp_servers is Some <==> b.mcp_servers is Some,
        a.mcp_servers is Some ==> texts(a.mcp_servers->0@) == texts(b.mcp_servers->0@),
        a.compat is Some <==> b.compat is Some,
        a.compat is Some ==> a.compat->0.same(b.compat->0),
{
    if a.mcp_servers is Some {
        lemma_same_texts(a.mcp_servers->0, b.mcp_servers->0);
    }
}

/// Two values of [`SkillsPermissionConfig`] hold the same contents only where each setting of the one is that of the
/// other.
pub proof fn law_same_skills_permission_config(a: SkillsPermissionConfig, b: SkillsPermissionConfig)
    requires
        a.same(b),
    ensures
        texts(a.deny@) == texts(b.deny@),
        texts(a.allow@) == texts(b.allow@),
{
    lemma_same_texts(a.deny, b.deny);
    lemma_same_texts(a.allow, b.allow);
}

/// Two values of [`ToolsConfig`] hold the same contents only where each setting of the one is that of the
/// other.
pub proof fn law_same_tools_config(a: ToolsConfig, b: ToolsConfig)
    requires
        a.same(b),
    ensures
        a.auto_approve == b.auto_approve,
        texts(a.allow_list@) == texts(b.allow_list@),
        a.skills.same(b.skills),
        a.verify_edits == b.verify_edits,
        a.windows_shell is Some <==> b.windows_shell is Some,
        a.windows_shell is Some ==> a.windows_shell->0@ == b.windows_shell->0@,
        texts(a.env_passthrough@) == texts(b.env_passthrough@),
        a.sandbox is Some <==> b.sandbox is Some,
        a.sandbox is Some ==> a.sandbox->0@ == b.sandbox->0@,
        a.allow_no_sandbox == b.allow_no_sandbox,
{
    lemma_same_texts(a.allow_list, b.allow_list);
    lemma_same_texts(a.env_passthrough, b.env_passthrough);
}

/// Two values of [`SessionConfig`] hold the same contents only where each setting of the one is that of the
/// other.
pub proof fn law_same_session_config(a: SessionConfig, b: SessionConfig)
    requires
        a.same(b),
    ensures
        a.enabled == b.enabled,
        a.directory@ == b.directory@,
        a.max_sessions == b.max_sessions,
{
}

/// Two values of [`InboundWebhookConfig`] hold the same contents only where each setting of the one is that of the
/// other.
pub proof fn law_same_inbound_webhook_config(a: InboundWebhookConfig, b: InboundWebhookConfig)
    requires
        a.same(b),
    ensures
        a.enabled == b.enabled,
        a.bind@ == b.bind@,
        a.public_base_url is Some <==> b.public_base_url is Some,
        a.public_base_url is Some ==> a.public_base_url->0@ == b.public_base_url->0@,
{
}

/// Two values of [`CarriedSettings`] hold the same contents only where each setting of the one is that of the
/// other.
pub proof fn law_same_carried_settings(a: CarriedSettings, b: CarriedSettings)
    requires
        a.same(b),
    ensures
        a.text@ == b.text@,
{
}

/// Two values of [`ConfigFile`] hold the same contents only where each setting of the one is that of the
/// other.
pub proof fn law_same_config_file(a: ConfigFile, b: ConfigFile)
    requires
        a.same(b),
    ensures
        a.default.same(b.default),
        a.security.same(b.security),
        a.providers@.dom() == b.providers@.dom(),
        forall|k: Seq<char>| a.providers@.contains_key(k)
            ==> (#[trigger] a.providers@[k]).same(b.providers@[k]),
        a.profiles@.dom() == b.profiles@.dom(),
        forall|k: Seq<char>| a.profiles@.contains_key(k)
            ==> (#[trigger] a.profiles@[k]).same(b.profiles@[k]),
        a.tools.same(b.tools),
        a.session.same(b.session),
        a.inbound_webhook.same(b.inbound_webhook),
        a.compact.same(b.compact),
        a.plan.same(b.plan),
        a.file_cache.same(b.file_cache),
        a.hooks.same(b.hooks),
        a.bedrock is Some <==> b.bedrock is Some,
        a.bedrock is Some ==> a.bedrock->0.same(b.bedrock->0),
        a.vertex is Some <==> b.vertex is Some,
        a.vertex is Some ==> a.vertex->0.same(b.vertex->0),
        a.mcp.same(b.mcp),
        a.debug.same(b.debug),
        a.observability.same(b.observability),
        a.provider_chain.same(b.provider_chain),
        a.budget.same(b.budget),
        a.storage.same(b.storage),
        a.memory is Some <==> b.memory is Some,
        a.memory is Some ==> a.memory->0.same(b.memory->0),
        a.browser.same(b.browser),
        a.session_cap is Some <==> b.session_cap is Some,
        a.session_cap is Some ==> a.session_cap->0.same(b.session_cap->0),
        a.crucible.same(b.crucible),
{
}

/// Two values of [`Config`] hold the same contents only where each setting of the one is that of the
/// other.
pub proof fn law_same_config(a: Config, b: Config)
    requires
        a.same(b),
    ensures
        a.provider_label@ == b.provider_label@,
        a.provider == b.provider,
        a.api_key@ == b.api_key@,
        a.base_url@ == b.base_url@,
        a.security.same(b.security),
        a.model@ == b.model@,
        a.max_tokens == b.max_tokens,
        a.max_tokens_explicit == b.max_tokens_explicit,
        a.temperature == b.temperature,
        a.max_turns == b.max_turns,
        a.approval_mode == b.approval_mode,
        a.system_prompt is Some <==> b.system_prompt is Some,
        a.system_prompt is Some ==> a.system_prompt->0@ == b.system_prompt->0@,
        a.thinking is Some <==> b.thinking is Some,
        a.thinking is Some ==> a.thinking->0.same(b.thinking->0),
        a.prompt_caching == b.prompt_caching,
        a.prompt_caching_min_prefix_tokens == b.prompt_caching_min_prefix_tokens,
        a.compat.same(b.compat),
        a.tools.same(b.tools),
        a.builtin_tools.same(b.builtin_tools),
        a.advertised_capabilities.same(b.advertised_capabilities),
        a.session.same(b.session),
        a.inbound_webhook.same(b.inbound_webhook),
        a.compact.same(b.compact),
        a.plan.same(b.plan),
        a.file_cache.same(b.file_cache),
        a.hooks.same(b.hooks),
        a.bedrock is Some <==> b.bedrock is Some,
        a.bedrock is Some ==> a.bedrock->0.same(b.bedrock->0),
        a.vertex is Some <==> b.vertex is Some,
        a.vertex is Some ==> a.vertex->0.same(b.vertex->0),
        a.mcp.same(b.mcp),
        a.debug.same(b.debug),
        a.observability.same(b.observability),
        a.provider_chain.same(b.provider_chain),
        a.budget.same(b.budget),
        a.storage.same(b.storage),
        a.memory.same(b.memory),
        a.browser.same(b.browser),
        a.session_cap is Some <==> b.session_cap is Some,
        a.session_cap is Some ==> a.session_cap->0.same(b.session_cap->0),
        a.crucible.same(b.crucible),
{
}

/// Two values of [`ToolCallArgsConfig`] hold the same contents only where each setting of the one is that of the
/// other.
pub proof fn law_same_tool_call_args_config(a: ToolCallArgsConfig, b: ToolCallArgsConfig)
    requires
        a.same(b),
    ensures
        a.enabled == b.enabled,
        a.keep_recent_turns == b.keep_recent_turns,
        a.min_args_bytes == b.min_args_bytes,
        a.epoch_turns == b.epoch_turns,
{
}

/// Two values of [`CompactConfig`] hold the same contents only where each setting of the one is that of the
/// other.
pub proof fn law_same_compact_config(a: CompactConfig, b: CompactConfig)
    requires
        a.same(b),
    ensures
        a.context_window == b.context_window,
        a.output_reserve == b.output_reserve,
        a.autocompact_buffer == b.autocompact_buffer,
        a.emergency_buffer == b.emergency_buffer,
        a.max_failures == b.max_failures,
        a.micro_keep_recent == b.micro_keep_recent,
        a.micro_gap_seconds == b.micro_gap_seconds,
        texts(a.compactable_tools@) == texts(b.compactable_tools@),
        a.enabled == b.enabled,
        a.cache_diagnostics == b.cache_diagnostics,
        a.compaction == b.compaction,
        a.toon == b.toon,
        a.compaction_model is Some <==> b.compaction_model is Some,
        a.compaction_model is Some ==> a.compaction_model->0@ == b.compaction_model->0@,
        a.smart_enabled == b.smart_enabled,
        a.smart_trigger_fraction == b.smart_trigger_fraction,
        a.smart_release_fraction == b.smart_release_fraction,
        a.smart_cooldown_turns == b.smart_cooldown_turns,
        a.smart_min_shrink_tokens == b.smart_min_shrink_tokens,
        a.smart_handoff_to_memory == b.smart_handoff_to_memory,
        a.tool_call_args.same(b.tool_call_args),
{
    lemma_same_texts(a.compactable_tools, b.compactable_tools);
}

/// Two values of [`PlanConfig`] hold the same contents only where each setting of the one is that of the
/// other.
pub proof fn law_same_plan_config(a: PlanConfig, b: PlanConfig)
    requires
        a.same(b),
    ensures
        a.enabled == b.enabled,
        a.plan_directory@ == b.plan_directory@,
        a.plan_first == b.plan_first,
{
}

/// Two values of [`FileCacheConfig`] hold the same contents only where each setting of the one is that of the
/// other.
pub proof fn law_same_file_cache_config(a: FileCacheConfig, b: FileCacheConfig)
    requires
        a.same(b),
    ensures
        a.max_entries == b.max_entries,
        a.max_size_bytes == b.max_size_bytes,
        a.enabled == b.enabled,
{
}

/// Two values of [`CrucibleConfig`] hold the same contents only where each setting of the one is that of the
/// other.
pub proof fn law_same_crucible_config(a: CrucibleConfig, b: CrucibleConfig)
    requires
        a.same(b),
    ensures
        a.enabled == b.enabled,
        texts(a.proposers@) == texts(b.proposers@),
{
    lemma_same_texts(a.proposers, b.proposers);
}

/// Two values of [`BrowserPolicyConfig`] hold the same contents only where each setting of the one is that of the
/// other.
pub proof fn law_same_browser_policy_config(a: BrowserPolicyConfig, b: BrowserPolicyConfig)
    requires
        a.same(b),
    ensures
        a.default_action@ == b.default_action@,
        texts(a.allowed_origins@) == texts(b.allowed_origins@),
        texts(a.denied_origins@) == texts(b.denied_origins@),
{
    lemma_same_texts(a.allowed_origins, b.allowed_origins);
    lemma_same_texts(a.denied_origins, b.denied_origins);
}

/// Two values of [`BrowserConfig`] hold the same contents only where each setting of the one is that of the
/// other.
pub proof fn law_same_browser_config(a: BrowserConfig, b: BrowserConfig)
    requires
        a.same(b),
    ensures
        a.policy.same(b.policy),
{
}

/// Two values of [`BudgetConfig`] hold the same contents only where each setting of the one is that of the
/// other.
pub proof fn law_same_budget_config(a: BudgetConfig, b: BudgetConfig)
    requires
        a.same(b),
    ensures
        a.max_wall_time_secs == b.max_wall_time_secs,
        a.max_tool_runtime_secs == b.max_tool_runtime_secs,
        a.max_processes == b.max_processes,
        a.max_agent_depth == b.max_agent_depth,
        a.max_tokens_in == b.max_tokens_in,
        a.max_tokens_out == b.max_tokens_out,
        a.max_cost_usd == b.max_cost_usd,
{
}

/// Two values of [`HookDef`] hold the same contents only where each setting of the one is that of the
/// other.
pub proof fn law_same_hook_def(a: HookDef, b: HookDef)
    requires
        a.same(b),
    ensures
        a.name@ == b.name@,
        texts(a.tool_match@) == texts(b.tool_match@),
        texts(a.file_match@) == texts(b.file_match@),
        a.command@ == b.command@,
        a.timeout_ms == b.timeout_ms,
{
    lemma_same_texts(a.tool_match, b.tool_match);
    lemma_same_texts(a.file_match, b.file_match);
}

/// Two values of [`HooksConfig`] hold the same contents only where each setting of the one is that of the
/// other.
pub proof fn law_same_hooks_config(a: HooksConfig, b: HooksConfig)
    requires
        a.same(b),
    ensures
        a.pre_tool_use@.len() == b.pre_tool_use@.len(),
        forall|i: int| 0 <= i < a.pre_tool_use@.len()
            ==> (#[trigger] a.pre_tool_use@[i]).same(b.pre_tool_use@[i]),
        a.post_tool_use@.len() == b.post_tool_use@.len(),
        forall|i: int| 0 <= i < a.post_tool_use@.len()
            ==> (#[trigger] a.post_tool_use@[i]).same(b.post_tool_use@[i]),
        a.stop@.len() == b.stop@.len(),
        forall|i: int| 0 <= i < a.stop@.len() ==> (#[trigger] a.stop@[i]).same(b.stop@[i]),
        a.dispatch_enabled == b.dispatch_enabled,
        a.trust_project_hooks == b.trust_project_hooks,
{
}

/// Two values of [`CredentialsStorageConfig`] hold the same contents only where each setting of the one is that of the
/// other.
pub proof fn law_same_credentials_storage_config(a: CredentialsStorageConfig,
    b: CredentialsStorageConfig)
    requires
        a.same(b),
    ensures
        a.backend.same(b.backend),
        a.service_name is Some <==> b.service_name is Some,
        a.service_name is Some ==> a.service_name->0@ == b.service_name->0@,
{
}

/// Two values of [`ProviderCompat`] hold the same contents only where each setting of the one is that of the
/// other.
pub proof fn law_same_provider_compat(a: ProviderCompat, b: ProviderCompat)
    requires
        a.same(b),
    ensures
        a.max_tokens_field is Some <==> b.max_tokens_field is Some,
        a.max_tokens_field is Some ==> a.max_tokens_field->0@ == b.max_tokens_field->0@,
        a.merge_assistant_messages == b.merge_assistant_messages,
        a.clean_orphan_tool_calls == b.clean_orphan_tool_calls,
        a.dedup_tool_results == b.dedup_tool_results,
        a.ensure_alternation == b.ensure_alternation,
        a.merge_same_role == b.merge_same_role,
        a.sanitize_schema == b.sanitize_schema,
        a.strip_patterns is Some <==> b.strip_patterns is Some,
        a.strip_patterns is Some ==> texts(a.strip_patterns->0@) == texts(b.strip_patterns->0@),
        a.auto_tool_id == b.auto_tool_id,
        a.api_path is Some <==> b.api_path is Some,
        a.api_path is Some ==> a.api_path->0@ == b.api_path->0@,
        a.supports_thinking == b.supports_thinking,
        a.supports_effort == b.supports_effort,
        a.effort_levels is Some <==> b.effort_levels is Some,
        a.effort_levels is Some ==> texts(a.effort_levels->0@) == texts(b.effort_levels->0@),
        a.cache_message_breakpoints == b.cache_message_breakpoints,
        a.provider_type is Some <==> b.provider_type is Some,
        a.provider_type is Some ==> a.provider_type->0@ == b.provider_type->0@,
        a.cost_per_input_token == b.cost_per_input_token,
        a.cost_per_output_token == b.cost_per_output_token,
        a.cost_per_cache_read_token == b.cost_per_cache_read_token,
        a.cost_per_cache_write_token == b.cost_per_cache_write_token,
        a.input_optimization is Some <==> b.input_optimization is Some,
        a.input_optimization is Some ==> a.input_optimization->0@ == b.input_optimization->0@,
        a.compact_bash == b.compact_bash,
        a.include_usage_in_stream == b.include_usage_in_stream,
        a.uses_responses_api == b.uses_responses_api,
        a.azure_auth_mode == b.azure_auth_mode,
{
    if a.strip_patterns is Some {
        lemma_same_texts(a.strip_patterns->0, b.strip_patterns->0);
    }
    if a.effort_levels is Some {
        lemma_same_texts(a.effort_levels->0, b.effort_levels->0);
    }
}

/// Two values of [`CatalogEntry`] hold the same contents only where each setting of the one is that of the
/// other.
pub proof fn law_same_catalog_entry(a: CatalogEntry, b: CatalogEntry)
    requires
        a.same(b),
    ensures
        a.id@ == b.id@,
        a.base_url@ == b.base_url@,
        a.env_var@ == b.env_var@,
        a.api_path is Some <==> b.api_path is Some,
        a.api_path is Some ==> a.api_path->0@ == b.api_path->0@,
{
}

} // verus!
