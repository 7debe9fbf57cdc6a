//! Merging of a global and a project configuration file.
//!
//! A project file travels with a checked-out repository and is not trusted: it
//! may tighten the security posture of the global file, never loosen it.

use crate::budget::{merge_budgets, merged_budget};
use crate::compat::{merged_compat, ProviderCompat};
use crate::config::posture::strictness_of;
use crate::config::types::{
    default_allow_list, stock_allow_list, ApprovalMode, ConfigFile, DefaultConfig,
    InboundWebhookConfig, McpConfig, ObservabilityConfig, ProviderChainConfig, ProviderConfig,
    SecurityConfig, SessionConfig, SkillsPermissionConfig, ToolsConfig,
};
use crate::credentials::CredentialsBackend;
use crate::file_cache::FileCacheConfig;
use crate::hooks::{HookDef, HooksConfig};
use crate::replica::{first_of, or_else, Replica};
use crate::table::{distinct_keys, has_key, lemma_fresh_last, lemma_map_of_push, map_of, StrMap};
use crate::text::{is_listed, listed, same_text, texts_are};
use vstd::prelude::*;

verus! {

/// The settings of `overlay` on top of `base`.
pub open spec fn merged_provider(base: ProviderConfig, overlay: ProviderConfig) -> ProviderConfig {
    ProviderConfig {
        provider: first_of(overlay.provider, base.provider),
        model: first_of(overlay.model, base.model),
        api_key: first_of(overlay.api_key, base.api_key),
        base_url: first_of(overlay.base_url, base.base_url),
        prompt_caching: first_of(overlay.prompt_caching, base.prompt_caching),
        compat: match (base.compat, overlay.compat) {
            (Some(b), Some(o)) => Some(merged_compat(b, o)),
            (b, o) => first_of(o, b),
        },
    }
}

/// The settings of `overlay` on top of `base`; compatibility settings merge one by
/// one.
pub fn merge_provider_configs(base: ProviderConfig, overlay: ProviderConfig) -> (r: ProviderConfig)
    ensures
        r == merged_provider(base, overlay),
{
    ProviderConfig {
        provider: or_else(overlay.provider, base.provider),
        model: or_else(overlay.model, base.model),
        api_key: or_else(overlay.api_key, base.api_key),
        base_url: or_else(overlay.base_url, base.base_url),
        prompt_caching: or_else(overlay.prompt_caching, base.prompt_caching),
        compat: match (base.compat, overlay.compat) {
            (Some(b), Some(o)) => Some(ProviderCompat::merge(b, o)),
            (Some(b), None) => Some(b),
            (None, Some(o)) => Some(o),
            (None, None) => None,
        },
    }
}

/// The `[default]` block of the merge.
pub open spec fn merged_default(global: DefaultConfig, project: DefaultConfig) -> DefaultConfig {
    DefaultConfig {
        provider: if project.provider@ != "anthropic"@ {
            project.provider
        } else {
            global.provider
        },
        model: first_of(project.model, global.model),
        max_tokens: if project.max_tokens != 64000 {
            project.max_tokens
        } else {
            global.max_tokens
        },
        max_turns: first_of(project.max_turns, global.max_turns),
        approval_mode: if project.approval_mode != ApprovalMode::Default && strictness_of(
            project.approval_mode,
        ) >= strictness_of(global.approval_mode) {
            project.approval_mode
        } else {
            global.approval_mode
        },
        system_prompt: first_of(project.system_prompt, global.system_prompt),
        user: first_of(project.user, global.user),
        read_only: global.read_only || project.read_only,
    }
}

fn merge_default(global: DefaultConfig, project: DefaultConfig) -> (r: DefaultConfig)
    ensures
        r == merged_default(global, project),
{
    let tightens = project.approval_mode != ApprovalMode::Default
        && project.approval_mode.is_at_least_as_strict_as(global.approval_mode);
    DefaultConfig {
        provider: if !same_text(project.provider.as_str(), "anthropic") {
            project.provider
        } else {
            global.provider
        },
        model: or_else(project.model, global.model),
        max_tokens: if project.max_tokens != 64000 {
            project.max_tokens
        } else {
            global.max_tokens
        },
        max_turns: or_else(project.max_turns, global.max_turns),
        approval_mode: if tightens {
            project.approval_mode
        } else {
            global.approval_mode
        },
        system_prompt: or_else(project.system_prompt, global.system_prompt),
        user: or_else(project.user, global.user),
        read_only: global.read_only || project.read_only,
    }
}

/// The `[providers]` block of the merge: an entry of both files is merged setting
/// by setting.
pub open spec fn merged_providers(
    global: Map<Seq<char>, ProviderConfig>,
    project: Map<Seq<char>, ProviderConfig>,
) -> Map<Seq<char>, ProviderConfig> {
    Map::new(
        |k: Seq<char>| global.contains_key(k) || project.contains_key(k),
        |k: Seq<char>|
            if !project.contains_key(k) {
                global[k]
            } else if !global.contains_key(k) {
                project[k]
            } else {
                merged_provider(global[k], project[k])
            },
    )
}

fn merge_providers(
    global: StrMap<ProviderConfig>,
    project: StrMap<ProviderConfig>,
) -> (r: StrMap<ProviderConfig>)
    ensures
        r@ == merged_providers(global@, project@),
{
    let mut out = global;
    let mut pairs = project.into_entries();
    let ghost goal = merged_providers(global@, project@);
    while pairs.len() > 0
        invariant
            distinct_keys(pairs@),
            merged_providers(out@, map_of(pairs@)) == goal,
        decreases pairs@.len(),
    {
        let ghost full = pairs@;
        let ghost before = out@;
        let (key, value) = pairs.pop().unwrap();
        let ghost k = key@;
        proof {
            assert(full == pairs@.push((key, value)));
            lemma_fresh_last(pairs@, key, value);
            lemma_map_of_push(pairs@, key, value);
        }
        match out.remove(key.as_str()) {
            Some(base) => {
                out.insert(key, merge_provider_configs(base, value));
            },
            None => {
                out.insert(key, value);
            },
        }
        proof {
            let rest = map_of(pairs@);
            assert(!rest.contains_key(k));
            assert(map_of(full) == rest.insert(k, value));
            assert(merged_providers(out@, rest) =~= merged_providers(before, map_of(full)));
        }
    }
    proof {
        assert forall|k: Seq<char>| !has_key(pairs@, k) by {}
        assert(merged_providers(out@, map_of(pairs@)) =~= out@);
    }
    out
}

/// `first` followed by `second`.
fn chain<T>(first: Vec<T>, second: Vec<T>) -> (r: Vec<T>)
    ensures
        r@ == first@ + second@,
{
    let mut out = first;
    let mut tail = second;
    out.append(&mut tail);
    out
}

/// The strings of `list` that `allowed` has too, in the order of `list`.
pub open spec fn narrowed(list: Seq<String>, allowed: Seq<String>) -> Seq<String> {
    list.filter(|t: String| listed(allowed, t@))
}

fn narrow(list: &Vec<String>, allowed: &Vec<String>) -> (r: Vec<String>)
    ensures
        r@ == narrowed(list@, allowed@),
{
    let ghost keep = |t: String| listed(allowed@, t@);
    let mut out: Vec<String> = Vec::new();
    let mut i: usize = 0;
    while i < list.len()
        invariant
            i <= list.len(),
            keep == (|t: String| listed(allowed@, t@)),
            out@ == list@.take(i as int).filter(keep),
        decreases list.len() - i,
    {
        proof {
            let next = list@.take(i as int + 1);
            assert(next.drop_last() =~= list@.take(i as int));
            assert(next.last() == list@[i as int]);
            reveal(Seq::filter);
        }
        if is_listed(allowed, list[i].as_str()) {
            out.push(list[i].clone());
        }
        i = i + 1;
    }
    proof {
        assert(list@.take(list@.len() as int) =~= list@);
    }
    out
}

/// Consent to run without isolation: a project takes part only as far as the
/// global file already consents.
pub open spec fn clamped_consent(global: Option<bool>, project: Option<bool>) -> Option<bool> {
    if project == Some(true) && global != Some(true) {
        global
    } else {
        first_of(project, global)
    }
}

/// The `[tools]` block of the merge.
pub open spec fn is_merged_tools(global: ToolsConfig, project: ToolsConfig, r: ToolsConfig) -> bool {
    &&& r.auto_approve == global.auto_approve
    &&& r.allow_list@ == if texts_are(project.allow_list@, stock_allow_list()) {
        global.allow_list@
    } else {
        narrowed(project.allow_list@, global.allow_list@)
    }
    &&& r.skills.deny@ == global.skills.deny@ + project.skills.deny@
    &&& r.skills.allow@ == global.skills.allow@ + project.skills.allow@
    &&& r.verify_edits == (project.verify_edits || global.verify_edits)
    &&& r.windows_shell == first_of(project.windows_shell, global.windows_shell)
    &&& r.env_passthrough@ == global.env_passthrough@ + project.env_passthrough@
    &&& r.sandbox == first_of(project.sandbox, global.sandbox)
    &&& r.allow_no_sandbox == clamped_consent(global.allow_no_sandbox, project.allow_no_sandbox)
}

/// Whether `list` has exactly the texts of the stock allow list.
fn is_stock_list(list: &Vec<String>) -> (r: bool)
    ensures
        r == texts_are(list@, stock_allow_list()),
{
    let stock = default_allow_list();
    let r = list.agrees(&stock);
    proof {
        if r {
            assert forall|i: int| 0 <= i < list@.len() implies (#[trigger] list@[i])@
                == stock_allow_list()[i] by {
                assert(list@[i].same(stock@[i]));
                assert(stock@[i]@ == stock_allow_list()[i]);
            }
        } else if texts_are(list@, stock_allow_list()) {
            assert forall|i: int| 0 <= i < list@.len() implies (#[trigger] list@[i]).same(
                stock@[i],
            ) by {
                assert(stock@[i]@ == stock_allow_list()[i]);
            }
        }
    }
    r
}

fn merge_tools(global: ToolsConfig, project: ToolsConfig) -> (r: ToolsConfig)
    ensures
        is_merged_tools(global, project, r),
{
    let allow_no_sandbox = if project.allow_no_sandbox == Some(true) && global.allow_no_sandbox
        != Some(true) {
        global.allow_no_sandbox
    } else {
        or_else(project.allow_no_sandbox, global.allow_no_sandbox)
    };
    let allow_list = if is_stock_list(&project.allow_list) {
        global.allow_list
    } else {
        narrow(&project.allow_list, &global.allow_list)
    };
    ToolsConfig {
        auto_approve: global.auto_approve,
        allow_list,
        skills: SkillsPermissionConfig {
            deny: chain(global.skills.deny, project.skills.deny),
            allow: chain(global.skills.allow, project.skills.allow),
        },
        verify_edits: project.verify_edits || global.verify_edits,
        windows_shell: or_else(project.windows_shell, global.windows_shell),
        env_passthrough: chain(global.env_passthrough, project.env_passthrough),
        sandbox: or_else(project.sandbox, global.sandbox),
        allow_no_sandbox,
    }
}

/// The `[session]` block of the merge, where `stock_dir` is the stock session
/// directory.
pub open spec fn merged_session(
    global: SessionConfig,
    project: SessionConfig,
    stock_dir: Seq<char>,
) -> SessionConfig {
    if project.directory@ != stock_dir {
        project
    } else {
        SessionConfig {
            enabled: global.enabled && project.enabled,
            directory: global.directory,
            max_sessions: if project.max_sessions != 20 {
                project.max_sessions
            } else {
                global.max_sessions
            },
        }
    }
}

/// Hooks of both files: those of the project count only when `trusted`.
pub open spec fn merged_hook_list(
    global: Seq<HookDef>,
    project: Seq<HookDef>,
    trusted: bool,
) -> Seq<HookDef> {
    if trusted {
        global + project
    } else {
        global
    }
}

fn merge_hook_lists(global: Vec<HookDef>, project: Vec<HookDef>, trusted: bool) -> (r: Vec<HookDef>)
    ensures
        r@ == merged_hook_list(global@, project@, trusted),
{
    if trusted {
        chain(global, project)
    } else {
        global
    }
}

/// The `[hooks]` block of the merge.
pub open spec fn is_merged_hooks(global: HooksConfig, project: HooksConfig, r: HooksConfig) -> bool {
    let trusted = global.trust_project_hooks;
    &&& r.pre_tool_use@ == merged_hook_list(global.pre_tool_use@, project.pre_tool_use@, trusted)
    &&& r.post_tool_use@ == merged_hook_list(global.post_tool_use@, project.post_tool_use@, trusted)
    &&& r.stop@ == merged_hook_list(global.stop@, project.stop@, trusted)
    &&& r.dispatch_enabled == (global.dispatch_enabled && project.dispatch_enabled)
    &&& r.trust_project_hooks == trusted
}

fn merge_hooks_blocks(global: HooksConfig, project: HooksConfig) -> (r: HooksConfig)
    ensures
        is_merged_hooks(global, project, r),
{
    let trusted = global.trust_project_hooks;
    HooksConfig {
        pre_tool_use: merge_hook_lists(global.pre_tool_use, project.pre_tool_use, trusted),
        post_tool_use: merge_hook_lists(global.post_tool_use, project.post_tool_use, trusted),
        stop: merge_hook_lists(global.stop, project.stop, trusted),
        dispatch_enabled: global.dispatch_enabled && project.dispatch_enabled,
        trust_project_hooks: trusted,
    }
}

/// The number of hooks of the project file that the merge leaves out.
pub fn dropped_hooks(global: &ConfigFile, project: &ConfigFile) -> (r: u128)
    ensures
        r == if global.hooks.trust_project_hooks {
            0
        } else {
            project.hooks.pre_tool_use@.len() + project.hooks.post_tool_use@.len()
                + project.hooks.stop@.len()
        },
{
    if global.hooks.trust_project_hooks {
        0
    } else {
        project.hooks.pre_tool_use.len() as u128 + project.hooks.post_tool_use.len() as u128
            + project.hooks.stop.len() as u128
    }
}

/// The `[observability]` block of the merge. A switch that is off by default is on when
/// either file turns it on; the skills lifecycle, which is on by default, is off when either
/// file turns it off.
pub open spec fn merged_observability(
    global: ObservabilityConfig,
    project: ObservabilityConfig,
) -> ObservabilityConfig {
    ObservabilityConfig {
        structured_traces: project.structured_traces || global.structured_traces,
        skills_lifecycle: project.skills_lifecycle && global.skills_lifecycle,
        online_evolution: project.online_evolution || global.online_evolution,
        workflow_detection_enabled: project.workflow_detection_enabled
            || global.workflow_detection_enabled,
        workflow_live_mode: project.workflow_live_mode || global.workflow_live_mode,
    }
}

/// The `[provider_chain]` block of the merge: the project block when it is on,
/// else the global block when that is on, else the stock block with the fallback
/// models of either file.
pub open spec fn merged_chain(
    global: ProviderChainConfig,
    project: ProviderChainConfig,
) -> ProviderChainConfig {
    if project.enabled {
        project
    } else if global.enabled {
        global
    } else {
        ProviderChainConfig {
            enabled: false,
            failure_threshold: 3,
            recovery_timeout_secs: 30,
            fallback_models: if project.fallback_models@.len() == 0 {
                global.fallback_models
            } else {
                project.fallback_models
            },
        }
    }
}

fn merge_chains(global: ProviderChainConfig, project: ProviderChainConfig) -> (r:
    ProviderChainConfig)
    ensures
        r == merged_chain(global, project),
{
    if project.enabled {
        project
    } else if global.enabled {
        global
    } else {
        let fallback_models = if project.fallback_models.len() == 0 {
            global.fallback_models
        } else {
            project.fallback_models
        };
        let stock = ProviderChainConfig::default();
        ProviderChainConfig {
            enabled: stock.enabled,
            failure_threshold: stock.failure_threshold,
            recovery_timeout_secs: stock.recovery_timeout_secs,
            fallback_models,
        }
    }
}

/// `r` is the merge of a `global` and a `project` file, where `stock_dir` is the stock
/// session directory.
pub open spec fn is_merge(
    global: ConfigFile,
    project: ConfigFile,
    stock_dir: Seq<char>,
    r: ConfigFile,
) -> bool {
    &&& r.default == merged_default(global.default, project.default)
    &&& r.providers@ == merged_providers(global.providers@, project.providers@)
    &&& r.profiles@ == global.profiles@.union_prefer_right(project.profiles@)
    &&& is_merged_tools(global.tools, project.tools, r.tools)
    &&& r.session == merged_session(global.session, project.session, stock_dir)
    &&& r.inbound_webhook == if project.inbound_webhook.is_default() {
        global.inbound_webhook
    } else {
        project.inbound_webhook
    }
    &&& r.compact == if project.compact.context_window != 200000 || !project.compact.enabled {
        project.compact
    } else {
        global.compact
    }
    &&& r.plan == if !project.plan.enabled || project.plan.plan_directory@
        != ".genesis-core/plans"@ {
        project.plan
    } else {
        global.plan
    }
    &&& r.file_cache == if project.file_cache.is_default() {
        global.file_cache
    } else {
        project.file_cache
    }
    &&& is_merged_hooks(global.hooks, project.hooks, r.hooks)
    &&& r.bedrock == first_of(project.bedrock, global.bedrock)
    &&& r.vertex == first_of(project.vertex, global.vertex)
    &&& r.mcp.servers@ == global.mcp.servers@.union_prefer_right(project.mcp.servers@)
    &&& r.mcp.curation == project.mcp.curation
    &&& r.debug == if project.debug.is_default() {
        global.debug
    } else {
        project.debug
    }
    &&& r.observability == merged_observability(global.observability, project.observability)
    &&& r.provider_chain == merged_chain(global.provider_chain, project.provider_chain)
    &&& r.budget == merged_budget(global.budget, project.budget)
    &&& r.storage == if project.storage.credentials.is_default() {
        global.storage
    } else {
        project.storage
    }
    &&& r.memory == first_of(project.memory, global.memory)
    &&& r.browser == if project.browser.is_default() {
        global.browser
    } else {
        project.browser
    }
    &&& r.security.enabled == (global.security.enabled && project.security.enabled)
    &&& r.security.egress_allow@ == global.security.egress_allow@ + project.security.egress_allow@
    &&& r.session_cap == first_of(project.session_cap, global.session_cap)
    &&& r.crucible == if project.crucible.is_default() {
        global.crucible
    } else {
        project.crucible
    }
}

/// Merges a `global` and a `project` configuration file. `stock_dir` is the stock
/// session directory: a project that keeps it has not chosen one of its own.
pub fn merge_config_files(global: ConfigFile, project: ConfigFile, stock_dir: &str) -> (r: ConfigFile)
    ensures
        is_merge(global, project, stock_dir@, r),
        project.bedrock is Some ==> r.bedrock == project.bedrock,
        project.vertex is Some ==> r.vertex == project.vertex,
        project.memory is Some ==> r.memory == project.memory,
        project.session_cap is Some ==> r.session_cap == project.session_cap,
{
    let mut profiles = global.profiles;
    profiles.extend(project.profiles);

    let session = if !same_text(project.session.directory.as_str(), stock_dir) {
        project.session
    } else {
        SessionConfig {
            enabled: global.session.enabled && project.session.enabled,
            directory: global.session.directory,
            max_sessions: if project.session.max_sessions != 20 {
                project.session.max_sessions
            } else {
                global.session.max_sessions
            },
        }
    };

    let mut servers = global.mcp.servers;
    servers.extend(project.mcp.servers);
    let mcp = McpConfig { servers, curation: project.mcp.curation };

    let debug = if project.debug.text.as_str().is_empty() {
        global.debug
    } else {
        project.debug
    };

    let plan = if !project.plan.enabled || !same_text(
        project.plan.plan_directory.as_str(),
        ".genesis-core/plans",
    ) {
        project.plan
    } else {
        global.plan
    };

    let stock_cache = FileCacheConfig::default();
    let file_cache = if !project.file_cache.enabled || project.file_cache.max_entries
        != stock_cache.max_entries || project.file_cache.max_size_bytes
        != stock_cache.max_size_bytes {
        project.file_cache
    } else {
        global.file_cache
    };

    let compact = if project.compact.context_window != 200000 || !project.compact.enabled {
        project.compact
    } else {
        global.compact
    };

    let observability = ObservabilityConfig {
        structured_traces: project.observability.structured_traces
            || global.observability.structured_traces,
        skills_lifecycle: project.observability.skills_lifecycle
            && global.observability.skills_lifecycle,
        online_evolution: project.observability.online_evolution
            || global.observability.online_evolution,
        workflow_detection_enabled: project.observability.workflow_detection_enabled
            || global.observability.workflow_detection_enabled,
        workflow_live_mode: project.observability.workflow_live_mode
            || global.observability.workflow_live_mode,
    };

    let keeps_storage = match &project.storage.credentials.backend {
        CredentialsBackend::Auto => project.storage.credentials.service_name.is_none(),
        _ => false,
    };
    let storage = if keeps_storage {
        global.storage
    } else {
        project.storage
    };

    let security = SecurityConfig {
        enabled: global.security.enabled && project.security.enabled,
        egress_allow: chain(global.security.egress_allow, project.security.egress_allow),
    };

    let keeps_webhook = project.inbound_webhook.agrees(&InboundWebhookConfig::default());
    let inbound_webhook = if keeps_webhook {
        global.inbound_webhook
    } else {
        project.inbound_webhook
    };

    let keeps_browser = same_text(project.browser.policy.default_action.as_str(), "deny")
        && project.browser.policy.allowed_origins.len() == 0
        && project.browser.policy.denied_origins.len() == 0;
    let browser = if keeps_browser {
        global.browser
    } else {
        project.browser
    };

    let crucible = if project.crucible.enabled || project.crucible.proposers.len() > 0 {
        project.crucible
    } else {
        global.crucible
    };

    ConfigFile {
        default: merge_default(global.default, project.default),
        security,
        providers: merge_providers(global.providers, project.providers),
        profiles,
        tools: merge_tools(global.tools, project.tools),
        session,
        inbound_webhook,
        compact,
        plan,
        file_cache,
        hooks: merge_hooks_blocks(global.hooks, project.hooks),
        bedrock: or_else(project.bedrock, global.bedrock),
        vertex: or_else(project.vertex, global.vertex),
        mcp,
        debug,
        observability,
        provider_chain: merge_chains(global.provider_chain, project.provider_chain),
        budget: merge_budgets(global.budget, project.budget),
        storage,
        memory: or_else(project.memory, global.memory),
        browser,
        session_cap: or_else(project.session_cap, global.session_cap),
        crucible,
    }
}

/// A project file never loosens the posture of the global file: no blanket
/// approval, no looser approval mode, no new consent to run unsandboxed, no
/// further tool past the approval gate, no hook of its own unless the global file
/// trusts project hooks, and no way to grant that trust itself.
pub proof fn law_project_only_tightens(
    global: ConfigFile,
    project: ConfigFile,
    stock_dir: Seq<char>,
    r: ConfigFile,
)
    requires
        is_merge(global, project, stock_dir, r),
    ensures
        r.tools.auto_approve == global.tools.auto_approve,
        strictness_of(r.default.approval_mode) >= strictness_of(global.default.approval_mode),
        r.tools.allow_no_sandbox == Some(true) ==> global.tools.allow_no_sandbox == Some(true),
        forall|i: int|
            0 <= i < r.tools.allow_list@.len() ==> listed(
                global.tools.allow_list@,
                (#[trigger] r.tools.allow_list@[i])@,
            ),
        !global.hooks.trust_project_hooks ==> r.hooks.pre_tool_use@ == global.hooks.pre_tool_use@
            && r.hooks.post_tool_use@ == global.hooks.post_tool_use@ && r.hooks.stop@
            == global.hooks.stop@,
        r.hooks.trust_project_hooks == global.hooks.trust_project_hooks,
        global.default.read_only ==> r.default.read_only,
{
    let mine = project.tools.allow_list@;
    let theirs = global.tools.allow_list@;
    let keep = |t: String| listed(theirs, t@);
    assert forall|i: int| 0 <= i < r.tools.allow_list@.len() implies listed(
        theirs,
        (#[trigger] r.tools.allow_list@[i])@,
    ) by {
        if texts_are(mine, stock_allow_list()) {
            assert(theirs[i]@ == r.tools.allow_list@[i]@);
        } else {
            mine.filter_lemma(keep);
            assert(keep(mine.filter(keep)[i]));
        }
    }
}

/// Either file can turn a protection on, and turning one off takes nothing away
/// from the other: read-only holds when either file asks for it, the egress gate
/// and the hook dispatcher stay on only when neither file turns them off, and no
/// entry of a deny list or an allowed-egress list is lost.
pub proof fn law_protections_add_up(
    global: ConfigFile,
    project: ConfigFile,
    stock_dir: Seq<char>,
    r: ConfigFile,
    i: int,
)
    requires
        is_merge(global, project, stock_dir, r),
    ensures
        r.default.read_only <==> global.default.read_only || project.default.read_only,
        r.security.enabled <==> global.security.enabled && project.security.enabled,
        r.hooks.dispatch_enabled <==> global.hooks.dispatch_enabled
            && project.hooks.dispatch_enabled,
        0 <= i < global.tools.skills.deny@.len() ==> r.tools.skills.deny@.contains(
            global.tools.skills.deny@[i],
        ),
        0 <= i < project.tools.skills.deny@.len() ==> r.tools.skills.deny@.contains(
            project.tools.skills.deny@[i],
        ),
        0 <= i < global.security.egress_allow@.len() ==> r.security.egress_allow@.contains(
            global.security.egress_allow@[i],
        ),
        0 <= i < project.security.egress_allow@.len() ==> r.security.egress_allow@.contains(
            project.security.egress_allow@[i],
        ),
{
    lemma_chain_keeps(global.tools.skills.deny@, project.tools.skills.deny@, i);
    lemma_chain_keeps(global.security.egress_allow@, project.security.egress_allow@, i);
}

proof fn lemma_chain_keeps<T>(first: Seq<T>, second: Seq<T>, i: int)
    ensures
        0 <= i < first.len() ==> (first + second).contains(first[i]),
        0 <= i < second.len() ==> (first + second).contains(second[i]),
{
    if 0 <= i < first.len() {
        assert((first + second)[i] == first[i]);
    }
    if 0 <= i < second.len() {
        assert((first + second)[first.len() + i] == second[i]);
    }
}

/// A project file with stock settings leaves the global settings alone, but for
/// these: the stock curation policy wins over the global file, and a provider chain
/// that is off keeps of the global file only its fallback models.
pub proof fn law_stock_project_inherits(
    global: ConfigFile,
    project: ConfigFile,
    stock_dir: Seq<char>,
    r: ConfigFile,
)
    requires
        is_merge(global, project, stock_dir, r),
        project.is_default(),
        project.session.directory@ == stock_dir,
    ensures
        r.default == global.default,
        r.providers@ == global.providers@,
        r.profiles@ == global.profiles@,
        r.tools.auto_approve == global.tools.auto_approve,
        r.tools.allow_list@ == global.tools.allow_list@,
        r.tools.skills.deny@ == global.tools.skills.deny@,
        r.tools.skills.allow@ == global.tools.skills.allow@,
        r.tools.verify_edits == global.tools.verify_edits,
        r.tools.windows_shell == global.tools.windows_shell,
        r.tools.env_passthrough@ == global.tools.env_passthrough@,
        r.tools.sandbox == global.tools.sandbox,
        r.tools.allow_no_sandbox == global.tools.allow_no_sandbox,
        r.session == global.session,
        r.inbound_webhook == global.inbound_webhook,
        r.compact == global.compact,
        r.plan == global.plan,
        r.file_cache == global.file_cache,
        r.hooks.pre_tool_use@ == global.hooks.pre_tool_use@,
        r.hooks.post_tool_use@ == global.hooks.post_tool_use@,
        r.hooks.stop@ == global.hooks.stop@,
        r.hooks.dispatch_enabled == global.hooks.dispatch_enabled,
        r.hooks.trust_project_hooks == global.hooks.trust_project_hooks,
        r.bedrock == global.bedrock,
        r.vertex == global.vertex,
        r.mcp.servers@ == global.mcp.servers@,
        r.mcp.curation.is_default(),
        r.debug == global.debug,
        r.observability == global.observability,
        global.provider_chain.enabled ==> r.provider_chain == global.provider_chain,
        r.provider_chain.fallback_models == global.provider_chain.fallback_models,
        r.budget == global.budget,
        r.storage == global.storage,
        r.memory == global.memory,
        r.browser == global.browser,
        r.security.enabled == global.security.enabled,
        r.security.egress_allow@ == global.security.egress_allow@,
        r.session_cap == global.session_cap,
        r.crucible == global.crucible,
{
    assert(r.providers@ =~= global.providers@);
    assert(r.profiles@ =~= global.profiles@);
    assert(r.mcp.servers@ =~= global.mcp.servers@);
    assert(r.tools.skills.deny@ =~= global.tools.skills.deny@);
    assert(r.tools.skills.allow@ =~= global.tools.skills.allow@);
    assert(r.tools.env_passthrough@ =~= global.tools.env_passthrough@);
    assert(r.security.egress_allow@ =~= global.security.egress_allow@);
    assert(r.hooks.pre_tool_use@ =~= global.hooks.pre_tool_use@);
    assert(r.hooks.post_tool_use@ =~= global.hooks.post_tool_use@);
    assert(r.hooks.stop@ =~= global.hooks.stop@);
}

} // verus!
