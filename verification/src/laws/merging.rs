//! What one layer of configuration does to another: which of two values stands.

use crate::budget::{merged_budget, BudgetConfig};
use crate::compat::{merged_compat, ProviderCompat};
use crate::config::merge::{is_merge, merged_provider};
use crate::config::types::{ApprovalMode, ConfigFile, ProviderConfig};
use crate::text::{listed, texts_are};
use vstd::prelude::*;

verus! {

/// A block that the project file has stands as it is, whatever the global file has; the global
/// file's block stands where the project file has none.
pub proof fn law_project_block_replaces_the_global_one(
    global: ConfigFile,
    project: ConfigFile,
    stock_dir: Seq<char>,
    r: ConfigFile,
)
    requires
        is_merge(global, project, stock_dir, r),
    ensures
        project.bedrock is Some ==> r.bedrock == project.bedrock,
        project.bedrock is None ==> r.bedrock == global.bedrock,
        project.vertex is Some ==> r.vertex == project.vertex,
        project.vertex is None ==> r.vertex == global.vertex,
        project.memory is Some ==> r.memory == project.memory,
        project.memory is None ==> r.memory == global.memory,
        project.session_cap is Some ==> r.session_cap == project.session_cap,
        project.session_cap is None ==> r.session_cap == global.session_cap,
{
}

/// A setting of `[default]` that the project file gives stands; one that it leaves at its built-in
/// value, or leaves out, is the global file's.
pub proof fn law_project_default_settings_win(
    global: ConfigFile,
    project: ConfigFile,
    stock_dir: Seq<char>,
    r: ConfigFile,
)
    requires
        is_merge(global, project, stock_dir, r),
    ensures
        project.default.model is Some ==> r.default.model == project.default.model,
        project.default.model is None ==> r.default.model == global.default.model,
        project.default.max_turns is Some ==> r.default.max_turns == project.default.max_turns,
        project.default.max_turns is None ==> r.default.max_turns == global.default.max_turns,
        project.default.system_prompt is Some ==> r.default.system_prompt
            == project.default.system_prompt,
        project.default.system_prompt is None ==> r.default.system_prompt
            == global.default.system_prompt,
        project.default.user is Some ==> r.default.user == project.default.user,
        project.default.user is None ==> r.default.user == global.default.user,
        project.default.provider@ != "anthropic"@ ==> r.default.provider
            == project.default.provider,
        project.default.provider@ == "anthropic"@ ==> r.default.provider == global.default.provider,
        project.default.max_tokens != 64000 ==> r.default.max_tokens == project.default.max_tokens,
        project.default.max_tokens == 64000 ==> r.default.max_tokens == global.default.max_tokens,
        r.default.read_only <==> global.default.read_only || project.default.read_only,
{
}

/// A project file can make approval stricter and never laxer: a global file that asks every time
/// is left asking, edits are approved by themselves only where the global file allows at least
/// that, and everything only where the global file already approves everything.
pub proof fn law_project_approval_only_tightens(
    global: ConfigFile,
    project: ConfigFile,
    stock_dir: Seq<char>,
    r: ConfigFile,
)
    requires
        is_merge(global, project, stock_dir, r),
    ensures
        global.default.approval_mode == ApprovalMode::Default ==> r.default.approval_mode
            == ApprovalMode::Default,
        global.default.approval_mode == ApprovalMode::AutoEdit ==> r.default.approval_mode
            == ApprovalMode::AutoEdit,
        global.default.approval_mode == ApprovalMode::Force && project.default.approval_mode
            == ApprovalMode::AutoEdit ==> r.default.approval_mode == ApprovalMode::AutoEdit,
        global.default.approval_mode == ApprovalMode::Force && project.default.approval_mode
            != ApprovalMode::AutoEdit ==> r.default.approval_mode == ApprovalMode::Force,
{
}

/// A provider, a profile or an MCP server that either file names is in the merge. The project
/// file's profile or server replaces the global one of its name; a provider that only one file
/// names is taken as it is there.
pub proof fn law_named_entries_are_united(
    global: ConfigFile,
    project: ConfigFile,
    stock_dir: Seq<char>,
    r: ConfigFile,
    name: Seq<char>,
)
    requires
        is_merge(global, project, stock_dir, r),
    ensures
        r.providers@.contains_key(name) <==> global.providers@.contains_key(name)
            || project.providers@.contains_key(name),
        global.providers@.contains_key(name) && !project.providers@.contains_key(name)
            ==> r.providers@[name]
            == global.providers@[name],
        project.providers@.contains_key(name) && !global.providers@.contains_key(name)
            ==> r.providers@[name]
            == project.providers@[name],
        r.profiles@.contains_key(name) <==> global.profiles@.contains_key(name)
            || project.profiles@.contains_key(name),
        global.profiles@.contains_key(name) && !project.profiles@.contains_key(name)
            ==> r.profiles@[name]
            == global.profiles@[name],
        project.profiles@.contains_key(name) ==> r.profiles@[name] == project.profiles@[name],
        r.mcp.servers@.contains_key(name) <==> global.mcp.servers@.contains_key(name)
            || project.mcp.servers@.contains_key(name),
        global.mcp.servers@.contains_key(name) && !project.mcp.servers@.contains_key(name)
            ==> r.mcp.servers@[name]
            == global.mcp.servers@[name],
        project.mcp.servers@.contains_key(name) ==> r.mcp.servers@[name]
            == project.mcp.servers@[name],
        r.mcp.curation == project.mcp.curation,
{
}

/// Where both files configure a provider, each setting of the project file's entry stands, and
/// the global entry's stands where the project's has none.
pub proof fn law_project_provider_settings_win(
    global: ConfigFile,
    project: ConfigFile,
    stock_dir: Seq<char>,
    r: ConfigFile,
    name: Seq<char>,
)
    requires
        is_merge(global, project, stock_dir, r),
        global.providers@.contains_key(name),
        project.providers@.contains_key(name),
    ensures
        ({
            let base = global.providers@[name];
            let over = project.providers@[name];
            let got = r.providers@[name];
            &&& over.provider is Some ==> got.provider == over.provider
            &&& over.provider is None ==> got.provider == base.provider
            &&& over.model is Some ==> got.model == over.model
            &&& over.model is None ==> got.model == base.model
            &&& over.api_key is Some ==> got.api_key == over.api_key
            &&& over.api_key is None ==> got.api_key == base.api_key
            &&& over.base_url is Some ==> got.base_url == over.base_url
            &&& over.base_url is None ==> got.base_url == base.base_url
            &&& over.prompt_caching is Some ==> got.prompt_caching == over.prompt_caching
            &&& over.prompt_caching is None ==> got.prompt_caching == base.prompt_caching
            &&& over.compat is None ==> got.compat == base.compat
            &&& base.compat is None ==> got.compat == over.compat
            &&& base.compat is Some && over.compat is Some ==> got.compat is Some
        }),
{
}

/// Of two provider entries each setting of the upper one stands, and the lower one's stands where
/// the upper has none. Two `compat` tables are merged.
pub proof fn law_upper_provider_settings_win(base: ProviderConfig, overlay: ProviderConfig)
    ensures
        overlay.provider is Some ==> merged_provider(base, overlay).provider == overlay.provider,
        overlay.provider is None ==> merged_provider(base, overlay).provider == base.provider,
        overlay.model is Some ==> merged_provider(base, overlay).model == overlay.model,
        overlay.model is None ==> merged_provider(base, overlay).model == base.model,
        overlay.api_key is Some ==> merged_provider(base, overlay).api_key == overlay.api_key,
        overlay.api_key is None ==> merged_provider(base, overlay).api_key == base.api_key,
        overlay.base_url is Some ==> merged_provider(base, overlay).base_url == overlay.base_url,
        overlay.base_url is None ==> merged_provider(base, overlay).base_url == base.base_url,
        overlay.prompt_caching is Some ==> merged_provider(base, overlay).prompt_caching
            == overlay.prompt_caching,
        overlay.prompt_caching is None ==> merged_provider(base, overlay).prompt_caching
            == base.prompt_caching,
        overlay.compat is None ==> merged_provider(base, overlay).compat == base.compat,
        base.compat is None ==> merged_provider(base, overlay).compat == overlay.compat,
        base.compat is Some && overlay.compat is Some ==> merged_provider(base, overlay).compat
            == Some(merged_compat(base.compat->0, overlay.compat->0)),
{
}

/// Each compatibility setting that the user gives stands; the default stands where the user gives
/// none.
pub proof fn law_user_compat_settings_win(defaults: ProviderCompat, user: ProviderCompat)
    ensures
        user.max_tokens_field is Some ==> merged_compat(defaults, user).max_tokens_field
            == user.max_tokens_field,
        user.max_tokens_field is None ==> merged_compat(defaults, user).max_tokens_field
            == defaults.max_tokens_field,
        user.merge_assistant_messages is Some ==> merged_compat(defaults,
            user).merge_assistant_messages
            == user.merge_assistant_messages,
        user.merge_assistant_messages is None ==> merged_compat(defaults,
            user).merge_assistant_messages
            == defaults.merge_assistant_messages,
        user.clean_orphan_tool_calls is Some ==> merged_compat(defaults,
            user).clean_orphan_tool_calls
            == user.clean_orphan_tool_calls,
        user.clean_orphan_tool_calls is None ==> merged_compat(defaults,
            user).clean_orphan_tool_calls
            == defaults.clean_orphan_tool_calls,
        user.dedup_tool_results is Some ==> merged_compat(defaults, user).dedup_tool_results
            == user.dedup_tool_results,
        user.dedup_tool_results is None ==> merged_compat(defaults, user).dedup_tool_results
            == defaults.dedup_tool_results,
        user.ensure_alternation is Some ==> merged_compat(defaults, user).ensure_alternation
            == user.ensure_alternation,
        user.ensure_alternation is None ==> merged_compat(defaults, user).ensure_alternation
            == defaults.ensure_alternation,
        user.merge_same_role is Some ==> merged_compat(defaults, user).merge_same_role
            == user.merge_same_role,
        user.merge_same_role is None ==> merged_compat(defaults, user).merge_same_role
            == defaults.merge_same_role,
        user.sanitize_schema is Some ==> merged_compat(defaults, user).sanitize_schema
            == user.sanitize_schema,
        user.sanitize_schema is None ==> merged_compat(defaults, user).sanitize_schema
            == defaults.sanitize_schema,
        user.strip_patterns is Some ==> merged_compat(defaults, user).strip_patterns
            == user.strip_patterns,
        user.strip_patterns is None ==> merged_compat(defaults, user).strip_patterns
            == defaults.strip_patterns,
        user.auto_tool_id is Some ==> merged_compat(defaults, user).auto_tool_id
            == user.auto_tool_id,
        user.auto_tool_id is None ==> merged_compat(defaults, user).auto_tool_id
            == defaults.auto_tool_id,
        user.api_path is Some ==> merged_compat(defaults, user).api_path
            == user.api_path,
        user.api_path is None ==> merged_compat(defaults, user).api_path
            == defaults.api_path,
        user.supports_thinking is Some ==> merged_compat(defaults, user).supports_thinking
            == user.supports_thinking,
        user.supports_thinking is None ==> merged_compat(defaults, user).supports_thinking
            == defaults.supports_thinking,
        user.supports_effort is Some ==> merged_compat(defaults, user).supports_effort
            == user.supports_effort,
        user.supports_effort is None ==> merged_compat(defaults, user).supports_effort
            == defaults.supports_effort,
        user.effort_levels is Some ==> merged_compat(defaults, user).effort_levels
            == user.effort_levels,
        user.effort_levels is None ==> merged_compat(defaults, user).effort_levels
            == defaults.effort_levels,
        user.cache_message_breakpoints is Some ==> merged_compat(defaults,
            user).cache_message_breakpoints
            == user.cache_message_breakpoints,
        user.cache_message_breakpoints is None ==> merged_compat(defaults,
            user).cache_message_breakpoints
            == defaults.cache_message_breakpoints,
        user.provider_type is Some ==> merged_compat(defaults, user).provider_type
            == user.provider_type,
        user.provider_type is None ==> merged_compat(defaults, user).provider_type
            == defaults.provider_type,
        user.cost_per_input_token is Some ==> merged_compat(defaults, user).cost_per_input_token
            == user.cost_per_input_token,
        user.cost_per_input_token is None ==> merged_compat(defaults, user).cost_per_input_token
            == defaults.cost_per_input_token,
        user.cost_per_output_token is Some ==> merged_compat(defaults, user).cost_per_output_token
            == user.cost_per_output_token,
        user.cost_per_output_token is None ==> merged_compat(defaults, user).cost_per_output_token
            == defaults.cost_per_output_token,
        user.cost_per_cache_read_token is Some ==> merged_compat(defaults,
            user).cost_per_cache_read_token
            == user.cost_per_cache_read_token,
        user.cost_per_cache_read_token is None ==> merged_compat(defaults,
            user).cost_per_cache_read_token
            == defaults.cost_per_cache_read_token,
        user.cost_per_cache_write_token is Some ==> merged_compat(defaults,
            user).cost_per_cache_write_token
            == user.cost_per_cache_write_token,
        user.cost_per_cache_write_token is None ==> merged_compat(defaults,
            user).cost_per_cache_write_token
            == defaults.cost_per_cache_write_token,
        user.input_optimization is Some ==> merged_compat(defaults, user).input_optimization
            == user.input_optimization,
        user.input_optimization is None ==> merged_compat(defaults, user).input_optimization
            == defaults.input_optimization,
        user.compact_bash is Some ==> merged_compat(defaults, user).compact_bash
            == user.compact_bash,
        user.compact_bash is None ==> merged_compat(defaults, user).compact_bash
            == defaults.compact_bash,
        user.include_usage_in_stream is Some ==> merged_compat(defaults,
            user).include_usage_in_stream
            == user.include_usage_in_stream,
        user.include_usage_in_stream is None ==> merged_compat(defaults,
            user).include_usage_in_stream
            == defaults.include_usage_in_stream,
        user.uses_responses_api is Some ==> merged_compat(defaults, user).uses_responses_api
            == user.uses_responses_api,
        user.uses_responses_api is None ==> merged_compat(defaults, user).uses_responses_api
            == defaults.uses_responses_api,
        user.azure_auth_mode is Some ==> merged_compat(defaults, user).azure_auth_mode
            == user.azure_auth_mode,
        user.azure_auth_mode is None ==> merged_compat(defaults, user).azure_auth_mode
            == defaults.azure_auth_mode,
{
}

/// Each limit that the project gives stands; the global one stands where the project gives none.
pub proof fn law_project_budget_limits_win(global: BudgetConfig, project: BudgetConfig)
    ensures
        project.max_wall_time_secs is Some ==> merged_budget(global, project).max_wall_time_secs
            == project.max_wall_time_secs,
        project.max_wall_time_secs is None ==> merged_budget(global, project).max_wall_time_secs
            == global.max_wall_time_secs,
        project.max_tool_runtime_secs is Some ==> merged_budget(global,
            project).max_tool_runtime_secs
            == project.max_tool_runtime_secs,
        project.max_tool_runtime_secs is None ==> merged_budget(global,
            project).max_tool_runtime_secs
            == global.max_tool_runtime_secs,
        project.max_processes is Some ==> merged_budget(global, project).max_processes
            == project.max_processes,
        project.max_processes is None ==> merged_budget(global, project).max_processes
            == global.max_processes,
        project.max_agent_depth is Some ==> merged_budget(global, project).max_agent_depth
            == project.max_agent_depth,
        project.max_agent_depth is None ==> merged_budget(global, project).max_agent_depth
            == global.max_agent_depth,
        project.max_tokens_in is Some ==> merged_budget(global, project).max_tokens_in
            == project.max_tokens_in,
        project.max_tokens_in is None ==> merged_budget(global, project).max_tokens_in
            == global.max_tokens_in,
        project.max_tokens_out is Some ==> merged_budget(global, project).max_tokens_out
            == project.max_tokens_out,
        project.max_tokens_out is None ==> merged_budget(global, project).max_tokens_out
            == global.max_tokens_out,
        project.max_cost_usd is Some ==> merged_budget(global, project).max_cost_usd
            == project.max_cost_usd,
        project.max_cost_usd is None ==> merged_budget(global, project).max_cost_usd
            == global.max_cost_usd,
{
}

/// The same of the `[budget]` blocks of two files.
pub proof fn law_file_budget_limits_win(
    global: ConfigFile,
    project: ConfigFile,
    stock_dir: Seq<char>,
    r: ConfigFile,
)
    requires
        is_merge(global, project, stock_dir, r),
    ensures
        project.budget.max_wall_time_secs is Some ==> r.budget.max_wall_time_secs
            == project.budget.max_wall_time_secs,
        project.budget.max_wall_time_secs is None ==> r.budget.max_wall_time_secs
            == global.budget.max_wall_time_secs,
        project.budget.max_tool_runtime_secs is Some ==> r.budget.max_tool_runtime_secs
            == project.budget.max_tool_runtime_secs,
        project.budget.max_tool_runtime_secs is None ==> r.budget.max_tool_runtime_secs
            == global.budget.max_tool_runtime_secs,
        project.budget.max_processes is Some ==> r.budget.max_processes
            == project.budget.max_processes,
        project.budget.max_processes is None ==> r.budget.max_processes
            == global.budget.max_processes,
        project.budget.max_agent_depth is Some ==> r.budget.max_agent_depth
            == project.budget.max_agent_depth,
        project.budget.max_agent_depth is None ==> r.budget.max_agent_depth
            == global.budget.max_agent_depth,
        project.budget.max_tokens_in is Some ==> r.budget.max_tokens_in
            == project.budget.max_tokens_in,
        project.budget.max_tokens_in is None ==> r.budget.max_tokens_in
            == global.budget.max_tokens_in,
        project.budget.max_tokens_out is Some ==> r.budget.max_tokens_out
            == project.budget.max_tokens_out,
        project.budget.max_tokens_out is None ==> r.budget.max_tokens_out
            == global.budget.max_tokens_out,
        project.budget.max_cost_usd is Some ==> r.budget.max_cost_usd
            == project.budget.max_cost_usd,
        project.budget.max_cost_usd is None ==> r.budget.max_cost_usd == global.budget.max_cost_usd,
{
}

/// Tools: a tool call is approved by itself only as the global file says; edits are verified where
/// either file asks for it; the project file's shell and sandbox stand where it names one.
pub proof fn law_tools_settings(
    global: ConfigFile,
    project: ConfigFile,
    stock_dir: Seq<char>,
    r: ConfigFile,
)
    requires
        is_merge(global, project, stock_dir, r),
    ensures
        r.tools.auto_approve == global.tools.auto_approve,
        r.tools.verify_edits <==> global.tools.verify_edits || project.tools.verify_edits,
        project.tools.windows_shell is Some ==> r.tools.windows_shell
            == project.tools.windows_shell,
        project.tools.windows_shell is None ==> r.tools.windows_shell == global.tools.windows_shell,
        project.tools.sandbox is Some ==> r.tools.sandbox == project.tools.sandbox,
        project.tools.sandbox is None ==> r.tools.sandbox == global.tools.sandbox,
        r.tools.env_passthrough@ == global.tools.env_passthrough@ + project.tools.env_passthrough@,
        r.tools.skills.deny@ == global.tools.skills.deny@ + project.tools.skills.deny@,
        r.tools.skills.allow@ == global.tools.skills.allow@ + project.tools.skills.allow@,
{
}

/// Consent to run without a sandbox is the global file's to give: the project file can only take
/// it back.
pub proof fn law_consent_is_global(
    global: ConfigFile,
    project: ConfigFile,
    stock_dir: Seq<char>,
    r: ConfigFile,
)
    requires
        is_merge(global, project, stock_dir, r),
    ensures
        r.tools.allow_no_sandbox == Some(true) ==> global.tools.allow_no_sandbox == Some(true),
        project.tools.allow_no_sandbox == Some(false) ==> r.tools.allow_no_sandbox == Some(false),
        project.tools.allow_no_sandbox is None ==> r.tools.allow_no_sandbox
            == global.tools.allow_no_sandbox,
        project.tools.allow_no_sandbox == Some(true) ==> r.tools.allow_no_sandbox
            == global.tools.allow_no_sandbox,
{
}

/// A project file that lists tools of its own leaves exactly those on the list that both files
/// list; one that has the built-in list leaves the global list as it is.
pub proof fn law_allow_lists_intersect(
    global: ConfigFile,
    project: ConfigFile,
    stock_dir: Seq<char>,
    r: ConfigFile,
    tool: Seq<char>,
)
    requires
        is_merge(global, project, stock_dir, r),
    ensures
        ({
            let stock = texts_are(
                project.tools.allow_list@,
                seq![
                    "Read"@,
                    "Grep"@,
                    "Glob"@,
                    "web"@,
                    "WebFetch"@,
                    "vision_analyze"@,
                    "transcribe_audio"@,
                    "ToolSearch"@,
                    "Skill"@,
                    "genesis_status"@,
                    "genesis_telemetry_query"@,
                ],
            );
            &&& stock ==> r.tools.allow_list@ == global.tools.allow_list@
            &&& !stock ==> (listed(r.tools.allow_list@, tool) <==> listed(
                project.tools.allow_list@,
                tool,
            ) && listed(global.tools.allow_list@, tool))
        }),
{
    let mine = project.tools.allow_list@;
    let keeps = |t: String| listed(global.tools.allow_list@, t@);
    let both = mine.filter(keeps);
    assert(listed(both, tool) <==> listed(mine, tool) && listed(global.tools.allow_list@, tool))
        by {
        if listed(both, tool) {
            let i = choose|i: int| 0 <= i < both.len() && (#[trigger] both[i])@ == tool;
            mine.lemma_filter_contains_rev(keeps, both[i]);
            assert(both.contains(both[i]));
            mine.filter_lemma(keeps);
            let j = choose|j: int| 0 <= j < mine.len() && mine[j] == both[i];
            assert(mine[j]@ == tool);
        }
        if listed(mine, tool) && listed(global.tools.allow_list@, tool) {
            let i = choose|i: int| 0 <= i < mine.len() && (#[trigger] mine[i])@ == tool;
            mine.filter_lemma(keeps);
            assert(both.contains(mine[i]));
            let j = choose|j: int| 0 <= j < both.len() && both[j] == mine[i];
            assert(both[j]@ == tool);
        }
    }
}

/// Sessions: a project file that names a directory of its own has its whole block stand. Otherwise
/// sessions are kept only where both files keep them, in the global file's directory.
pub proof fn law_session_settings(
    global: ConfigFile,
    project: ConfigFile,
    stock_dir: Seq<char>,
    r: ConfigFile,
)
    requires
        is_merge(global, project, stock_dir, r),
    ensures
        project.session.directory@ != stock_dir ==> r.session == project.session,
        project.session.directory@ == stock_dir ==> r.session.directory == global.session.directory,
        project.session.directory@ == stock_dir ==> (r.session.enabled <==> global.session.enabled
            && project.session.enabled),
        project.session.directory@ == stock_dir && project.session.max_sessions != 20
            ==> r.session.max_sessions == project.session.max_sessions,
        project.session.directory@ == stock_dir && project.session.max_sessions == 20
            ==> r.session.max_sessions == global.session.max_sessions,
{
}

/// Of the blocks that are taken whole, the project file's stands where any of its settings departs
/// from the built-in value, and the global file's where none does.
pub proof fn law_changed_blocks_win(
    global: ConfigFile,
    project: ConfigFile,
    stock_dir: Seq<char>,
    r: ConfigFile,
)
    requires
        is_merge(global, project, stock_dir, r),
    ensures
        project.inbound_webhook.enabled || project.inbound_webhook.bind@ != "127.0.0.1:8787"@
            || project.inbound_webhook.public_base_url is Some ==> r.inbound_webhook
            == project.inbound_webhook,
        !(project.inbound_webhook.enabled || project.inbound_webhook.bind@ != "127.0.0.1:8787"@
            || project.inbound_webhook.public_base_url is Some) ==> r.inbound_webhook
            == global.inbound_webhook,
        project.file_cache.max_entries != 100 || project.file_cache.max_size_bytes != 26214400
            || !project.file_cache.enabled ==> r.file_cache == project.file_cache,
        !(project.file_cache.max_entries != 100 || project.file_cache.max_size_bytes != 26214400
            || !project.file_cache.enabled) ==> r.file_cache == global.file_cache,
        project.debug.text@.len() > 0 ==> r.debug == project.debug,
        !(project.debug.text@.len() > 0) ==> r.debug == global.debug,
        project.browser.policy.default_action@ != "deny"@
            || project.browser.policy.allowed_origins@.len() > 0
            || project.browser.policy.denied_origins@.len() > 0 ==> r.browser == project.browser,
        !(project.browser.policy.default_action@ != "deny"@
            || project.browser.policy.allowed_origins@.len() > 0
            || project.browser.policy.denied_origins@.len() > 0) ==> r.browser == global.browser,
        !(project.storage.credentials.backend is Auto)
            || project.storage.credentials.service_name is Some ==> r.storage == project.storage,
        !(!(project.storage.credentials.backend is Auto)
            || project.storage.credentials.service_name is Some) ==> r.storage == global.storage,
        project.crucible.enabled || project.crucible.proposers@.len() > 0 ==> r.crucible
            == project.crucible,
        !(project.crucible.enabled || project.crucible.proposers@.len() > 0) ==> r.crucible
            == global.crucible,
{
}

/// The project file's `[compact]` block stands where it sets another context window or switches
/// compaction off, and its `[plan]` block where it sets another directory or switches plans off.
pub proof fn law_compact_and_plan_blocks(
    global: ConfigFile,
    project: ConfigFile,
    stock_dir: Seq<char>,
    r: ConfigFile,
)
    requires
        is_merge(global, project, stock_dir, r),
    ensures
        project.compact.context_window != 200000 || !project.compact.enabled ==> r.compact
            == project.compact,
        !(project.compact.context_window != 200000 || !project.compact.enabled) ==> r.compact
            == global.compact,
        !project.plan.enabled || project.plan.plan_directory@ != ".genesis-core/plans"@ ==> r.plan
            == project.plan,
        !(!project.plan.enabled || project.plan.plan_directory@ != ".genesis-core/plans"@)
            ==> r.plan == global.plan,
{
}

/// The project file's hooks run after the global file's, and only where the global file trusts
/// them. Hooks are dispatched only where both files dispatch them, and trust is the global file's
/// to give.
pub proof fn law_project_hooks_need_trust(
    global: ConfigFile,
    project: ConfigFile,
    stock_dir: Seq<char>,
    r: ConfigFile,
)
    requires
        is_merge(global, project, stock_dir, r),
    ensures
        global.hooks.trust_project_hooks ==> r.hooks.pre_tool_use@ == global.hooks.pre_tool_use@
            + project.hooks.pre_tool_use@,
        !global.hooks.trust_project_hooks ==> r.hooks.pre_tool_use@ == global.hooks.pre_tool_use@,
        global.hooks.trust_project_hooks ==> r.hooks.post_tool_use@ == global.hooks.post_tool_use@
            + project.hooks.post_tool_use@,
        !global.hooks.trust_project_hooks ==> r.hooks.post_tool_use@ == global.hooks.post_tool_use@,
        global.hooks.trust_project_hooks ==> r.hooks.stop@ == global.hooks.stop@
            + project.hooks.stop@,
        !global.hooks.trust_project_hooks ==> r.hooks.stop@ == global.hooks.stop@,
        r.hooks.dispatch_enabled <==> global.hooks.dispatch_enabled
            && project.hooks.dispatch_enabled,
        r.hooks.trust_project_hooks == global.hooks.trust_project_hooks,
{
}

/// A switch of `[observability]` that is off by itself is on where either file turns it on; the
/// skills lifecycle, on by itself, is off where either file turns it off.
pub proof fn law_observability_switches(
    global: ConfigFile,
    project: ConfigFile,
    stock_dir: Seq<char>,
    r: ConfigFile,
)
    requires
        is_merge(global, project, stock_dir, r),
    ensures
        r.observability.structured_traces <==> global.observability.structured_traces
            || project.observability.structured_traces,
        r.observability.online_evolution <==> global.observability.online_evolution
            || project.observability.online_evolution,
        r.observability.workflow_detection_enabled <==> global.observability.workflow_detection_enabled
            || project.observability.workflow_detection_enabled,
        r.observability.workflow_live_mode <==> global.observability.workflow_live_mode
            || project.observability.workflow_live_mode,
        r.observability.skills_lifecycle <==> global.observability.skills_lifecycle
            && project.observability.skills_lifecycle,
{
}

/// The project file's fallback chain stands where it is switched on, else the global one where that
/// is; where neither is, the chain stays off with the built-in limits and keeps the models that a
/// file lists, the project file's first.
pub proof fn law_fallback_chain(
    global: ConfigFile,
    project: ConfigFile,
    stock_dir: Seq<char>,
    r: ConfigFile,
)
    requires
        is_merge(global, project, stock_dir, r),
    ensures
        project.provider_chain.enabled ==> r.provider_chain == project.provider_chain,
        !project.provider_chain.enabled && global.provider_chain.enabled ==> r.provider_chain
            == global.provider_chain,
        !project.provider_chain.enabled && !global.provider_chain.enabled ==> {
            &&& !r.provider_chain.enabled
            &&& r.provider_chain.failure_threshold == 3
            &&& r.provider_chain.recovery_timeout_secs == 30
            &&& project.provider_chain.fallback_models@.len() > 0
                ==> r.provider_chain.fallback_models == project.provider_chain.fallback_models
            &&& project.provider_chain.fallback_models@.len() == 0
                ==> r.provider_chain.fallback_models == global.provider_chain.fallback_models
        },
{
}

/// The security layer is on only where both files leave it on, and the hosts that both files allow
/// add up, the global file's first.
pub proof fn law_security_settings(
    global: ConfigFile,
    project: ConfigFile,
    stock_dir: Seq<char>,
    r: ConfigFile,
)
    requires
        is_merge(global, project, stock_dir, r),
    ensures
        r.security.enabled <==> global.security.enabled && project.security.enabled,
        r.security.egress_allow@ == global.security.egress_allow@ + project.security.egress_allow@,
{
}

} // verus!
