//! What a resolved configuration owes to the command line, the files, the catalog and the
//! provider, and in which order.

use crate::catalog::{entry_with_id, CatalogEntry};
use crate::compat::{is_preset_of, ProviderCompat};
use crate::config::alias::{
    alias_outcome, alias_reports, AliasOutcome, ProviderResolveError, ResolvedProviderConfig,
};
use crate::config::keys::KeySources;
use crate::config::merge::is_merge;
use crate::config::overlay::ProfileResolveError;
use crate::config::provider::{provider_named, ProviderType};
use crate::config::resolve::{
    council_reports, is_chosen_compat, is_effective, resolve_reports, split_entry, stamped,
    CouncilProviderError, ResolveError,
};
use crate::config::types::{
    CliArgs, Config, ConfigFile, EmbedderBackend, PromptCachingConfig, ProviderConfig,
};
use crate::model_aliases::ModelAliases;
use crate::replica::Replica;
use vstd::prelude::*;

verus! {

/// A command-line flag stands in the resolved configuration, whatever the files, the catalog and
/// the provider say. A model may be a short form, which is written out.
pub proof fn law_flags_win(
    cli: CliArgs,
    file: ConfigFile,
    catalog: Seq<CatalogEntry>,
    sources: KeySources,
    models: ModelAliases,
    c: Config,
)
    requires
        resolve_reports(cli, file, catalog, sources, models, Ok(c)),
    ensures
        cli.provider is Some ==> c.provider_label@ == cli.provider->0@,
        cli.provider is None ==> c.provider_label@ == file.default.provider@,
        cli.base_url is Some ==> c.base_url@ == cli.base_url->0@,
        cli.api_key is Some ==> c.api_key@ == cli.api_key->0@,
        cli.model is Some && models.short_forms@.contains_key(cli.model->0@) ==> c.model@
            == models.short_forms@[cli.model->0@]@,
        cli.model is Some && !models.short_forms@.contains_key(cli.model->0@) ==> c.model@
            == cli.model->0@,
        cli.max_tokens is Some ==> c.max_tokens == cli.max_tokens->0 && c.max_tokens_explicit,
        cli.max_turns is Some ==> c.max_turns == cli.max_turns,
        cli.system_prompt is Some ==> c.system_prompt == cli.system_prompt,
        cli.auto_approve ==> c.tools.auto_approve,
{
}

/// A setting for which no flag is given is the file's, and the blocks of the file pass through as
/// they are.
pub proof fn law_file_settings_pass_through(
    cli: CliArgs,
    file: ConfigFile,
    catalog: Seq<CatalogEntry>,
    sources: KeySources,
    models: ModelAliases,
    c: Config,
)
    requires
        resolve_reports(cli, file, catalog, sources, models, Ok(c)),
    ensures
        cli.max_tokens is None ==> c.max_tokens == file.default.max_tokens,
        cli.max_tokens is None ==> (c.max_tokens_explicit <==> file.default.max_tokens != 64000),
        cli.max_turns is None ==> c.max_turns == file.default.max_turns,
        cli.system_prompt is None ==> c.system_prompt == file.default.system_prompt,
        !cli.auto_approve ==> c.tools.auto_approve == file.tools.auto_approve,
        c.tools.allow_list == file.tools.allow_list,
        c.tools.skills == file.tools.skills,
        c.tools.verify_edits == file.tools.verify_edits,
        c.tools.windows_shell == file.tools.windows_shell,
        c.tools.env_passthrough == file.tools.env_passthrough,
        c.tools.sandbox == file.tools.sandbox,
        c.tools.allow_no_sandbox == file.tools.allow_no_sandbox,
        c.approval_mode == file.default.approval_mode,
        c.temperature is None,
        c.thinking is None,
        c.builtin_tools.text@.len() == 0,
        c.advertised_capabilities.text@.len() == 0,
        c.security == file.security,
        c.session == file.session,
        c.inbound_webhook == file.inbound_webhook,
        c.compact == file.compact,
        c.plan == file.plan,
        c.file_cache == file.file_cache,
        c.hooks == file.hooks,
        c.bedrock == file.bedrock,
        c.vertex == file.vertex,
        c.mcp == file.mcp,
        c.debug == file.debug,
        c.observability == file.observability,
        c.provider_chain == file.provider_chain,
        c.budget == file.budget,
        c.storage == file.storage,
        c.browser == file.browser,
        c.session_cap == file.session_cap,
        c.crucible == file.crucible,
        file.memory is Some ==> c.memory == file.memory->0,
        file.memory is None ==> c.memory.enabled && c.memory.dream_cycle_throttle_secs == 1800
            && c.memory.decay_interval_secs == 3600 && c.memory.embedder.backend
            == EmbedderBackend::Hashed && c.memory.embedder.api_key_env is None
            && c.memory.embedder.model is None,
{
}

/// Under a built-in provider's name the entry of that name in the file is next after the flags:
/// its address, its key, its model and its caching switch stand.
pub proof fn law_provider_entry_comes_next(
    cli: CliArgs,
    file: ConfigFile,
    catalog: Seq<CatalogEntry>,
    sources: KeySources,
    models: ModelAliases,
    c: Config,
    p: ProviderType,
)
    requires
        resolve_reports(cli, file, catalog, sources, models, Ok(c)),
        provider_named(c.provider_label@) == Some(p),
        file.providers@.contains_key(c.provider_label@),
    ensures
        c.provider == p,
        ({
            let entry = file.providers@[c.provider_label@];
            &&& cli.base_url is None && entry.base_url is Some ==> c.base_url@
                == entry.base_url->0@
            &&& cli.api_key is None && entry.api_key is Some ==> c.api_key@ == entry.api_key->0@
            &&& cli.model is None && entry.model is Some && models.short_forms@.contains_key(
                entry.model->0@,
            ) ==> c.model@ == models.short_forms@[entry.model->0@]@
            &&& cli.model is None && entry.model is Some && !models.short_forms@.contains_key(
                entry.model->0@,
            ) ==> c.model@ == entry.model->0@
            &&& cli.model is None && entry.model is None && file.default.model is Some
                && !models.short_forms@.contains_key(file.default.model->0@) ==> c.model@
                == file.default.model->0@
            &&& entry.prompt_caching matches Some(PromptCachingConfig::Enabled(on))
                ==> c.prompt_caching == on && c.prompt_caching_min_prefix_tokens == 1024
            &&& entry.prompt_caching matches Some(PromptCachingConfig::Detailed(d)) ==> {
                &&& d.enabled is Some ==> c.prompt_caching == d.enabled->0
                &&& d.enabled is None ==> (c.prompt_caching <==> p == ProviderType::Anthropic)
                &&& d.min_prefix_tokens is Some ==> c.prompt_caching_min_prefix_tokens
                    == d.min_prefix_tokens->0
                &&& d.min_prefix_tokens is None ==> c.prompt_caching_min_prefix_tokens == 1024
            }
            &&& entry.prompt_caching is None ==> (c.prompt_caching <==> p
                == ProviderType::Anthropic) && c.prompt_caching_min_prefix_tokens == 1024
        }),
{
}

/// Where neither a flag nor an entry gives one, a built-in provider has its own address and its
/// own model.
pub proof fn law_provider_defaults_come_last(
    cli: CliArgs,
    file: ConfigFile,
    catalog: Seq<CatalogEntry>,
    sources: KeySources,
    models: ModelAliases,
    c: Config,
    p: ProviderType,
)
    requires
        resolve_reports(cli, file, catalog, sources, models, Ok(c)),
        provider_named(c.provider_label@) == Some(p),
    ensures
        ({
            let bare = !file.providers@.contains_key(c.provider_label@);
            let entry = file.providers@[c.provider_label@];
            &&& cli.base_url is None && (bare || entry.base_url is None) ==> c.base_url@ == (
            match p {
                ProviderType::Anthropic => "https://api.anthropic.com"@,
                ProviderType::OpenAI => "https://api.openai.com"@,
                ProviderType::Gemini => "https://generativelanguage.googleapis.com"@,
                ProviderType::OpenAIChatGpt => "https://chatgpt.com/backend-api/codex"@,
                ProviderType::MiniMax => "https://api.minimax.io/anthropic"@,
                _ => ""@,
            })
            &&& cli.model is None && (bare || entry.model is None) && file.default.model is None
                ==> ({
                let own = match p {
                    ProviderType::Anthropic => models.anthropic_sonnet@,
                    ProviderType::OpenAI => models.openai_gpt4o@,
                    ProviderType::Bedrock => models.bedrock_sonnet@,
                    ProviderType::Vertex => models.vertex_sonnet@,
                    ProviderType::Gemini => models.vertex_gemini_pro@,
                    ProviderType::OpenAIChatGpt => "gpt-5.5"@,
                    ProviderType::MiniMax => models.minimax_m2@,
                    ProviderType::Sakana => "fugu"@,
                    _ => ""@,
                };
                c.model@ == if models.short_forms@.contains_key(own) {
                    models.short_forms@[own]@
                } else {
                    own
                }
            })
            &&& bare ==> (c.prompt_caching <==> p == ProviderType::Anthropic)
                && c.prompt_caching_min_prefix_tokens == 1024
        }),
{
}

/// Under an alias the entry of the alias is next after the flags, then the entry of the built-in
/// provider that it maps to.
pub proof fn law_alias_entry_comes_before_its_provider(
    cli: CliArgs,
    file: ConfigFile,
    catalog: Seq<CatalogEntry>,
    sources: KeySources,
    models: ModelAliases,
    c: Config,
    p: ProviderType,
    under: String,
)
    requires
        resolve_reports(cli, file, catalog, sources, models, Ok(c)),
        provider_named(c.provider_label@) is None,
        file.providers@.contains_key(c.provider_label@),
        file.providers@[c.provider_label@].provider == Some(under),
        provider_named(under@) == Some(p),
    ensures
        c.provider == p,
        ({
            let entry = file.providers@[c.provider_label@];
            let had = file.providers@.contains_key(under@);
            let base = file.providers@[under@];
            &&& cli.base_url is None && entry.base_url is Some ==> c.base_url@
                == entry.base_url->0@
            &&& cli.base_url is None && entry.base_url is None && had && base.base_url is Some
                ==> c.base_url@ == base.base_url->0@
            &&& cli.api_key is None && entry.api_key is Some ==> c.api_key@ == entry.api_key->0@
            &&& cli.api_key is None && entry.api_key is None && had && base.api_key is Some
                ==> c.api_key@ == base.api_key->0@
            &&& cli.model is None && entry.model is Some && !models.short_forms@.contains_key(
                entry.model->0@,
            ) ==> c.model@ == entry.model->0@
            &&& cli.model is None && entry.model is None && had && base.model is Some
                && !models.short_forms@.contains_key(base.model->0@) ==> c.model@
                == base.model->0@
        }),
{
}

/// A name that neither is built in nor stands in the file is looked up in the catalog: the entry
/// speaks the OpenAI protocol at the entry's address, with the key in the entry's variable and no
/// model of its own.
pub proof fn law_catalog_entry_serves_other_names(
    cli: CliArgs,
    file: ConfigFile,
    catalog: Seq<CatalogEntry>,
    sources: KeySources,
    models: ModelAliases,
    c: Config,
)
    requires
        resolve_reports(cli, file, catalog, sources, models, Ok(c)),
        provider_named(c.provider_label@) is None,
        !file.providers@.contains_key(c.provider_label@),
    ensures
        c.provider == ProviderType::OpenAI,
        !c.prompt_caching,
        entry_with_id(catalog, c.provider_label@) matches Some(e) && {
            &&& cli.base_url is None ==> c.base_url@ == e.base_url@
            &&& cli.api_key is None && !sources.stored@.contains_key("providers.openai.api_key"@)
                && !sources.environment@.contains_key("API_KEY"@)
                && !sources.environment@.contains_key("OPENAI_API_KEY"@)
                ==> sources.environment@.contains_key(e.env_var@) && c.api_key@
                == sources.environment@[e.env_var@]@
            &&& cli.model is None && file.default.model is None
                && !models.short_forms@.contains_key(""@) ==> c.model@ == ""@
            &&& cli.model is None && file.default.model is Some
                && !models.short_forms@.contains_key(file.default.model->0@) ==> c.model@
                == file.default.model->0@
        },
{
    lemma_openai_store_key();
    let vars = seq!["OPENAI_API_KEY"@];
    assert(vars.drop_first().len() == 0);
    assert(crate::config::keys::first_set(sources.environment@, vars.drop_first()) is None);
}

proof fn lemma_openai_store_key()
    ensures
        "providers."@ + "openai"@ + ".api_key"@ == "providers.openai.api_key"@,
{
    reveal_strlit("providers.");
    reveal_strlit("openai");
    reveal_strlit(".api_key");
    reveal_strlit("providers.openai.api_key");
    assert("providers."@ + "openai"@ + ".api_key"@ =~= "providers.openai.api_key"@);
}

/// Resolution fails on a name that nothing explains, with the name; it never fails for want of a
/// key where a flag or the provider's entry gives one.
pub proof fn law_resolution_failures(
    cli: CliArgs,
    file: ConfigFile,
    catalog: Seq<CatalogEntry>,
    sources: KeySources,
    models: ModelAliases,
    r: Result<Config, ResolveError>,
)
    requires
        resolve_reports(cli, file, catalog, sources, models, r),
    ensures
        ({
            let name = if cli.provider is Some {
                cli.provider->0@
            } else {
                file.default.provider@
            };
            let known = provider_named(name) is Some;
            let entry = file.providers@[name];
            &&& known && cli.api_key is Some ==> r is Ok
            &&& known && file.providers@.contains_key(name) && entry.api_key is Some ==> r is Ok
            &&& known && r is Err ==> r->Err_0 is MissingApiKey
            &&& !known && !file.providers@.contains_key(name) && entry_with_id(catalog, name)
                is None ==> (r matches Err(ResolveError::Provider(ProviderResolveError::Unknown(n)))
                && n@ == name)
            &&& !known && file.providers@.contains_key(name) && entry.provider is None ==> (
            r matches Err(ResolveError::Provider(ProviderResolveError::Unmapped(n))) && n@ == name)
            &&& !known && file.providers@.contains_key(name) && entry.provider is Some
                && provider_named(entry.provider->0@) is None ==> (r matches Err(
                ResolveError::Provider(ProviderResolveError::Dangling { alias, underlying }),
            ) && alias@ == name && underlying@ == entry.provider->0@)
        }),
{
}

/// What a name stands for: a built-in name for itself with the entry of its name, an alias for the
/// provider that it maps to, any other for the catalog's entry of that name.
pub proof fn law_names_are_explained(
    providers: Map<Seq<char>, ProviderConfig>,
    name: Seq<char>,
    catalog: Seq<CatalogEntry>,
)
    ensures
        provider_named(name) matches Some(p) ==> {
            &&& providers.contains_key(name) ==> alias_outcome(providers, name, catalog)
                == AliasOutcome::Resolved(p, providers[name], None)
            &&& !providers.contains_key(name) ==> (alias_outcome(providers, name, catalog)
                matches AliasOutcome::Resolved(q, config, e) && q == p && e is None
                && config.is_default())
        },
        provider_named(name) is None && !providers.contains_key(name) ==> {
            &&& entry_with_id(catalog, name) is None ==> alias_outcome(providers, name, catalog)
                is Unknown
            &&& entry_with_id(catalog, name) is Some ==> (alias_outcome(providers, name, catalog)
                matches AliasOutcome::Resolved(q, config, e) && q == ProviderType::OpenAI && e
                == entry_with_id(catalog, name) && config.is_default())
        },
        provider_named(name) is None && providers.contains_key(name) ==> {
            &&& providers[name].provider is None ==> alias_outcome(providers, name, catalog)
                is Unmapped
            &&& providers[name].provider matches Some(u) ==> match provider_named(u@) {
                None => alias_outcome(providers, name, catalog) == AliasOutcome::Dangling(u@),
                Some(p) => alias_outcome(providers, name, catalog) matches AliasOutcome::Resolved(
                    q,
                    config,
                    e,
                ) && q == p && e is None && (providers[name].base_url is Some ==> config.base_url
                    == providers[name].base_url) && (providers[name].api_key is Some
                    ==> config.api_key == providers[name].api_key),
            }
        },
{
}

/// The catalog's entry of a name is the first that has it.
pub proof fn law_catalog_finds_the_first(catalog: Seq<CatalogEntry>, id: Seq<char>, i: int)
    requires
        0 <= i < catalog.len(),
        catalog[i].id@ == id,
        forall|j: int| 0 <= j < i ==> (#[trigger] catalog[j]).id@ != id,
    ensures
        entry_with_id(catalog, id) == Some(catalog[i]),
    decreases i,
{
    if i > 0 {
        let rest = catalog.drop_first();
        assert(catalog[0].id@ != id);
        assert forall|j: int| 0 <= j < i - 1 implies (#[trigger] rest[j]).id@ != id by {
            assert(rest[j] == catalog[j + 1]);
        }
        law_catalog_finds_the_first(rest, id, i - 1);
    }
}

/// An entry that the catalog finds has the name asked for and is one of its entries.
pub proof fn law_catalog_invents_nothing(catalog: Seq<CatalogEntry>, id: Seq<char>)
    ensures
        match entry_with_id(catalog, id) {
            Some(e) => e.id@ == id && catalog.contains(e),
            None => forall|i: int| 0 <= i < catalog.len() ==> (#[trigger] catalog[i]).id@ != id,
        },
    decreases catalog.len(),
{
    if catalog.len() > 0 && catalog[0].id@ != id {
        let rest = catalog.drop_first();
        law_catalog_invents_nothing(rest, id);
        match entry_with_id(rest, id) {
            Some(e) => {
                let j = choose|j: int| 0 <= j < rest.len() && rest[j] == e;
                assert(catalog[j + 1] == e);
            },
            None => {
                assert forall|i: int| 0 <= i < catalog.len() implies (#[trigger] catalog[i]).id@
                    != id by {
                    if i > 0 {
                        assert(rest[i - 1] == catalog[i]);
                    }
                }
            },
        }
    }
}

/// Each compatibility setting that the provider's entry gives stands in the resolved
/// configuration; where it gives none the provider's preset does. Effort is apart: see
/// [`law_effort_is_withdrawn_from_plain_models`].
pub proof fn law_entry_compat_stands(
    p: ProviderType,
    config: ProviderConfig,
    model: Seq<char>,
    r: ProviderCompat,
)
    requires
        is_chosen_compat(p, None, config, model, r),
        config.compat is Some,
    ensures
        config.compat->0.max_tokens_field is Some ==> r.max_tokens_field is Some
            && r.max_tokens_field->0@
            == config.compat->0.max_tokens_field->0@,
        config.compat->0.merge_assistant_messages is Some ==> r.merge_assistant_messages
            == config.compat->0.merge_assistant_messages,
        config.compat->0.clean_orphan_tool_calls is Some ==> r.clean_orphan_tool_calls
            == config.compat->0.clean_orphan_tool_calls,
        config.compat->0.dedup_tool_results is Some ==> r.dedup_tool_results
            == config.compat->0.dedup_tool_results,
        config.compat->0.ensure_alternation is Some ==> r.ensure_alternation
            == config.compat->0.ensure_alternation,
        config.compat->0.merge_same_role is Some ==> r.merge_same_role
            == config.compat->0.merge_same_role,
        config.compat->0.sanitize_schema is Some ==> r.sanitize_schema
            == config.compat->0.sanitize_schema,
        config.compat->0.strip_patterns is Some
            ==> config.compat->0.strip_patterns.same(r.strip_patterns),
        config.compat->0.auto_tool_id is Some ==> r.auto_tool_id == config.compat->0.auto_tool_id,
        config.compat->0.api_path is Some ==> r.api_path is Some && r.api_path->0@
            == config.compat->0.api_path->0@,
        config.compat->0.supports_thinking is Some ==> r.supports_thinking
            == config.compat->0.supports_thinking,
        config.compat->0.supports_effort is Some ==> r.supports_effort
            == config.compat->0.supports_effort,
        config.compat->0.cache_message_breakpoints is Some ==> r.cache_message_breakpoints
            == config.compat->0.cache_message_breakpoints,
        config.compat->0.provider_type is Some ==> r.provider_type is Some && r.provider_type->0@
            == config.compat->0.provider_type->0@,
        config.compat->0.cost_per_input_token is Some ==> r.cost_per_input_token
            == config.compat->0.cost_per_input_token,
        config.compat->0.cost_per_output_token is Some ==> r.cost_per_output_token
            == config.compat->0.cost_per_output_token,
        config.compat->0.cost_per_cache_read_token is Some ==> r.cost_per_cache_read_token
            == config.compat->0.cost_per_cache_read_token,
        config.compat->0.cost_per_cache_write_token is Some ==> r.cost_per_cache_write_token
            == config.compat->0.cost_per_cache_write_token,
        config.compat->0.input_optimization is Some ==> r.input_optimization is Some
            && r.input_optimization->0@
            == config.compat->0.input_optimization->0@,
        config.compat->0.compact_bash is Some ==> r.compact_bash == config.compat->0.compact_bash,
        config.compat->0.include_usage_in_stream is Some ==> r.include_usage_in_stream
            == config.compat->0.include_usage_in_stream,
        config.compat->0.uses_responses_api is Some ==> r.uses_responses_api
            == config.compat->0.uses_responses_api,
        config.compat->0.azure_auth_mode is Some ==> r.azure_auth_mode
            == config.compat->0.azure_auth_mode,
{
}

/// Where the entry gives no compatibility table, the provider's preset stands in every setting but
/// those of effort.
pub proof fn law_preset_stands(
    p: ProviderType,
    config: ProviderConfig,
    model: Seq<char>,
    r: ProviderCompat,
)
    requires
        is_chosen_compat(p, None, config, model, r),
        config.compat is None,
    ensures
        exists|preset: ProviderCompat| #[trigger]
            is_preset_of(p, preset) && r == (ProviderCompat {
                supports_effort: r.supports_effort,
                effort_levels: r.effort_levels,
                ..preset
            }),
{
    let (preset, user) = choose|preset: ProviderCompat, user: ProviderCompat|
        {
            &&& #[trigger] crate::config::resolve::is_base_preset(p, None, preset)
            &&& #[trigger] crate::config::resolve::overrides_of(config).same(user)
            &&& crate::config::resolve::is_effort_gated(
                crate::compat::merged_compat(preset, user),
                crate::config::resolve::effort_withdrawn(
                    p,
                    user,
                    crate::compat::merged_compat(preset, user),
                    model,
                ),
                r,
            )
        };
    assert(is_preset_of(p, preset));
}

/// An OpenAI model that is named and takes no effort setting is given none, unless the entry asks
/// for it: it has effort off and no levels. Any other provider, and a model that takes it, keeps
/// the preset's.
pub proof fn law_effort_is_withdrawn_from_plain_models(
    p: ProviderType,
    config: ProviderConfig,
    model: Seq<char>,
    r: ProviderCompat,
)
    requires
        is_chosen_compat(p, None, config, model, r),
        config.compat is None,
    ensures
        p == ProviderType::OpenAI && model.len() > 0
            && !crate::config::provider::accepts_effort(model) ==> r.supports_effort == Some(false)
            && (r.effort_levels matches Some(v) && v@.len() == 0),
        p == ProviderType::OpenAI && (model.len() == 0
            || crate::config::provider::accepts_effort(model)) ==> r.supports_effort == Some(true)
            && (r.effort_levels matches Some(v) && v@.len() == 3),
        p != ProviderType::OpenAI ==> is_preset_of(p, r),
{
}

/// Where neither a flag nor an entry gives a key, a built-in provider's key is the saved one, then
/// `API_KEY` of the environment.
pub proof fn law_saved_keys_come_after_entries(
    cli: CliArgs,
    file: ConfigFile,
    catalog: Seq<CatalogEntry>,
    sources: KeySources,
    models: ModelAliases,
    c: Config,
    p: ProviderType,
)
    requires
        resolve_reports(cli, file, catalog, sources, models, Ok(c)),
        provider_named(c.provider_label@) == Some(p),
        cli.api_key is None,
        !file.providers@.contains_key(c.provider_label@)
            || file.providers@[c.provider_label@].api_key is None,
    ensures
        ({
            let saved = "providers."@ + crate::config::provider::slug_of(p) + ".api_key"@;
            let keyed = p != ProviderType::Bedrock && p != ProviderType::Vertex && p
                != ProviderType::OpenAIChatGpt;
            &&& keyed && sources.stored@.contains_key(saved) ==> c.api_key@
                == sources.stored@[saved]@
            &&& !(keyed && sources.stored@.contains_key(saved))
                && sources.environment@.contains_key("API_KEY"@) ==> c.api_key@
                == sources.environment@["API_KEY"@]@
            &&& !keyed && !sources.environment@.contains_key("API_KEY"@) ==> c.api_key@.len() == 0
        }),
{
    reveal_strlit("");
}

/// Under a catalog entry a saved OpenAI key stands where it is not empty; an empty one gives way to
/// the entry's own variable.
pub proof fn law_empty_keys_give_way_to_the_catalog(
    cli: CliArgs,
    file: ConfigFile,
    catalog: Seq<CatalogEntry>,
    sources: KeySources,
    models: ModelAliases,
    c: Config,
    e: CatalogEntry,
)
    requires
        resolve_reports(cli, file, catalog, sources, models, Ok(c)),
        provider_named(c.provider_label@) is None,
        !file.providers@.contains_key(c.provider_label@),
        entry_with_id(catalog, c.provider_label@) == Some(e),
        cli.api_key is None,
        sources.stored@.contains_key("providers.openai.api_key"@),
    ensures
        ({
            let saved = sources.stored@["providers.openai.api_key"@]@;
            &&& saved.len() > 0 ==> c.api_key@ == saved
            &&& saved.len() == 0 && sources.environment@.contains_key(e.env_var@) ==> c.api_key@
                == sources.environment@[e.env_var@]@
            &&& saved.len() == 0 && !sources.environment@.contains_key(e.env_var@)
                ==> c.api_key@.len() == 0
        }),
{
    lemma_openai_store_key();
}

/// Under a catalog entry the compatibility settings are the entry's: its name, its path and the
/// OpenAI protocol.
pub proof fn law_catalog_entry_sets_the_compat(
    e: CatalogEntry,
    config: ProviderConfig,
    model: Seq<char>,
    r: ProviderCompat,
)
    requires
        is_chosen_compat(ProviderType::OpenAI, Some(e), config, model, r),
        config.compat is None,
    ensures
        r.provider_type is Some && r.provider_type->0@ == e.id@,
        e.api_path is Some ==> r.api_path is Some && r.api_path->0@ == e.api_path->0@,
        e.api_path is None ==> r.api_path is None,
        r.max_tokens_field is Some && r.max_tokens_field->0@ == "max_tokens"@,
        r.merge_assistant_messages == Some(true),
        r.clean_orphan_tool_calls == Some(true),
        r.dedup_tool_results == Some(true),
        r.supports_thinking == Some(false),
        model.len() > 0 && !crate::config::provider::accepts_effort(model) ==> r.supports_effort
            == Some(false),
        model.len() == 0 || crate::config::provider::accepts_effort(model) ==> r.supports_effort
            == Some(true),
{
}

/// The compatibility settings of a resolved configuration are those of its provider, its entry and
/// the model that the command line or the entry names.
pub proof fn law_compat_of_a_resolved_configuration(
    cli: CliArgs,
    file: ConfigFile,
    catalog: Seq<CatalogEntry>,
    sources: KeySources,
    models: ModelAliases,
    c: Config,
    p: ProviderType,
)
    requires
        resolve_reports(cli, file, catalog, sources, models, Ok(c)),
        provider_named(c.provider_label@) == Some(p),
        file.providers@.contains_key(c.provider_label@),
    ensures
        ({
            let entry = file.providers@[c.provider_label@];
            &&& cli.model is Some ==> is_chosen_compat(p, None, entry, cli.model->0@, c.compat)
            &&& cli.model is None && entry.model is Some ==> is_chosen_compat(
                p,
                None,
                entry,
                entry.model->0@,
                c.compat,
            )
            &&& cli.model is None && entry.model is None ==> is_chosen_compat(
                p,
                None,
                entry,
                ""@,
                c.compat,
            )
        }),
{
}

/// An entry that says nothing of effort leaves it to the model, also where it sets other things.
pub proof fn law_effort_is_left_to_the_model(
    config: ProviderConfig,
    model: Seq<char>,
    r: ProviderCompat,
)
    requires
        is_chosen_compat(ProviderType::OpenAI, None, config, model, r),
        config.compat is Some,
        config.compat->0.supports_effort is None,
    ensures
        model.len() > 0 && !crate::config::provider::accepts_effort(model) ==> r.supports_effort
            == Some(false) && (r.effort_levels matches Some(v) && v@.len() == 0),
        model.len() == 0 || crate::config::provider::accepts_effort(model) ==> r.supports_effort
            == Some(true),
{
}

/// What becomes of a name is told as it is: the provider and its settings under the name that was
/// asked for, or why there is none.
pub proof fn law_alias_results(
    providers: Map<Seq<char>, ProviderConfig>,
    name: Seq<char>,
    catalog: Seq<CatalogEntry>,
    r: Result<ResolvedProviderConfig, ProviderResolveError>,
)
    requires
        alias_reports(alias_outcome(providers, name, catalog), name, r),
    ensures
        provider_named(name) matches Some(p) ==> (r matches Ok(c) && c.requested_name@ == name
            && c.provider_type == p && c.catalog_entry is None && (providers.contains_key(name)
            ==> providers[name].same(c.effective_config)) && (!providers.contains_key(name)
            ==> c.effective_config.is_default())),
        provider_named(name) is None && !providers.contains_key(name) ==> match entry_with_id(
            catalog,
            name,
        ) {
            Some(e) => r matches Ok(c) && c.requested_name@ == name && c.provider_type
                == ProviderType::OpenAI && c.effective_config.is_default() && c.catalog_entry
                is Some && e.same(c.catalog_entry->0),
            None => r matches Err(ProviderResolveError::Unknown(n)) && n@ == name,
        },
        provider_named(name) is None && providers.contains_key(name)
            ==> match providers[name].provider {
            None => r matches Err(ProviderResolveError::Unmapped(n)) && n@ == name,
            Some(u) => match provider_named(u@) {
                None => r matches Err(ProviderResolveError::Dangling { alias, underlying })
                    && alias@
                    == name && underlying@ == u@,
                Some(p) => r matches Ok(c) && c.requested_name@ == name && c.provider_type == p
                    && c.catalog_entry is None && (providers[name].base_url is Some
                    ==> c.effective_config.base_url is Some && c.effective_config.base_url->0@
                    == providers[name].base_url->0@) && (providers[name].api_key is Some
                    ==> c.effective_config.api_key is Some && c.effective_config.api_key->0@
                    == providers[name].api_key->0@) && (providers[name].model is Some
                    ==> c.effective_config.model is Some && c.effective_config.model->0@
                    == providers[name].model->0@),
            },
        },
{
}

/// The command line's provider, model and turn limit are written over the defaults of a file;
/// nothing else of the file changes.
pub proof fn law_stamping_writes_three_settings(file: ConfigFile, cli: CliArgs)
    ensures
        cli.provider is Some ==> stamped(file, cli).default.provider == cli.provider->0,
        cli.provider is None ==> stamped(file, cli).default.provider == file.default.provider,
        cli.model is Some ==> stamped(file, cli).default.model == cli.model,
        cli.model is None ==> stamped(file, cli).default.model == file.default.model,
        cli.max_turns is Some ==> stamped(file, cli).default.max_turns == cli.max_turns,
        cli.max_turns is None ==> stamped(file, cli).default.max_turns == file.default.max_turns,
        stamped(file, cli).default.max_tokens == file.default.max_tokens,
        stamped(file, cli).default.approval_mode == file.default.approval_mode,
        stamped(file, cli).default.system_prompt == file.default.system_prompt,
        stamped(file, cli).default.user == file.default.user,
        stamped(file, cli).default.read_only == file.default.read_only,
        stamped(file, cli).security == file.security,
        stamped(file, cli).providers == file.providers,
        stamped(file, cli).profiles == file.profiles,
        stamped(file, cli).tools == file.tools,
        stamped(file, cli).session == file.session,
        stamped(file, cli).inbound_webhook == file.inbound_webhook,
        stamped(file, cli).compact == file.compact,
        stamped(file, cli).plan == file.plan,
        stamped(file, cli).file_cache == file.file_cache,
        stamped(file, cli).hooks == file.hooks,
        stamped(file, cli).bedrock == file.bedrock,
        stamped(file, cli).vertex == file.vertex,
        stamped(file, cli).mcp == file.mcp,
        stamped(file, cli).debug == file.debug,
        stamped(file, cli).observability == file.observability,
        stamped(file, cli).provider_chain == file.provider_chain,
        stamped(file, cli).budget == file.budget,
        stamped(file, cli).storage == file.storage,
        stamped(file, cli).memory == file.memory,
        stamped(file, cli).browser == file.browser,
        stamped(file, cli).session_cap == file.session_cap,
        stamped(file, cli).crucible == file.crucible,
{
}

/// From the files to the resolved configuration: without a profile and without flags the project
/// file's entry for the provider in force is heard before the global file's.
pub proof fn law_project_entry_beats_the_global_one(
    cli: CliArgs,
    global: ConfigFile,
    project: ConfigFile,
    stock_dir: Seq<char>,
    file: ConfigFile,
    catalog: Seq<CatalogEntry>,
    sources: KeySources,
    models: ModelAliases,
    c: Config,
)
    requires
        cli.profile is None,
        is_effective(
            global,
            project,
            stock_dir,
            cli.profile,
            Ok::<ConfigFile, ProfileResolveError>(file),
        ),
        resolve_reports(cli, file, catalog, sources, models, Ok(c)),
        provider_named(c.provider_label@) is Some,
    ensures
        is_merge(global, project, stock_dir, file),
        ({
            let name = c.provider_label@;
            let in_project = project.providers@.contains_key(name);
            let in_global = global.providers@.contains_key(name);
            let mine = project.providers@[name];
            let theirs = global.providers@[name];
            &&& cli.base_url is Some ==> c.base_url@ == cli.base_url->0@
            &&& cli.base_url is None && in_project && mine.base_url is Some ==> c.base_url@
                == mine.base_url->0@
            &&& cli.base_url is None && in_global && theirs.base_url is Some && !(in_project
                && mine.base_url is Some) ==> c.base_url@ == theirs.base_url->0@
            &&& cli.api_key is Some ==> c.api_key@ == cli.api_key->0@
            &&& cli.api_key is None && in_project && mine.api_key is Some ==> c.api_key@
                == mine.api_key->0@
            &&& cli.api_key is None && in_global && theirs.api_key is Some && !(in_project
                && mine.api_key is Some) ==> c.api_key@ == theirs.api_key->0@
        }),
        cli.provider is None && project.default.provider@ != "anthropic"@ ==> c.provider_label@
            == project.default.provider@,
        cli.provider is None && project.default.provider@ == "anthropic"@ ==> c.provider_label@
            == global.default.provider@,
{
}

/// The council's member is written as a provider's name and, after the first colon, a model.
pub proof fn law_member_is_name_and_model(name: Seq<char>, model: Seq<char>)
    requires
        forall|i: int| 0 <= i < name.len() ==> (#[trigger] name[i]) != ':',
    ensures
        split_entry(name + seq![':'] + model) == (name, Some(model)),
        split_entry(name) == (name, None::<Seq<char>>),
{
    let s = name + seq![':'] + model;
    let at = name.len() as int;
    assert(s[at] == ':');
    assert(s.contains(':'));
    s.index_of_first_ensures(':');
    name.index_of_first_ensures(':');
    assert(forall|i: int| 0 <= i < at ==> s[i] == name[i]);
    let found = s.index_of_first(':')->0;
    assert(found == at);
    assert(s.take(at) =~= name);
    assert(s.skip(at + 1) =~= model);
    assert(!name.contains(':'));
}

/// A council member keeps the session's settings and has the provider, the key, the address and the
/// model of its own name; a pinned model stands before the entry's, and a name that nothing
/// explains or that has no key is refused with its name.
pub proof fn law_council_member(
    providers: Map<Seq<char>, ProviderConfig>,
    base: Config,
    name: Seq<char>,
    pinned: Option<Seq<char>>,
    spec_entry: Seq<char>,
    catalog: Seq<CatalogEntry>,
    sources: KeySources,
    models: ModelAliases,
    r: Result<(Config, Option<String>), CouncilProviderError>,
)
    requires
        split_entry(spec_entry) == (name, pinned),
        council_reports(providers, base, spec_entry, catalog, sources, models, r),
    ensures
        provider_named(name) is None && !providers.contains_key(name) && entry_with_id(
            catalog,
            name,
        ) is None ==> (r matches Err(CouncilProviderError::Unknown(n)) && n@ == name),
        r matches Err(CouncilProviderError::Keyless(n)) ==> n@ == name,
        r matches Ok(pair) ==> {
            &&& pair.0.provider_label@ == name
            &&& base.max_tokens == pair.0.max_tokens
            &&& base.max_turns == pair.0.max_turns
            &&& base.approval_mode == pair.0.approval_mode
            &&& base.tools.same(pair.0.tools)
            &&& base.security.same(pair.0.security)
            &&& base.hooks.same(pair.0.hooks)
            &&& base.mcp.same(pair.0.mcp)
            &&& base.budget.same(pair.0.budget)
            &&& pinned is Some && !models.short_forms@.contains_key(pinned->0) ==> pair.0.model@
                == pinned->0
            &&& pinned is Some && models.short_forms@.contains_key(pinned->0) ==> pair.0.model@
                == models.short_forms@[pinned->0]@
            &&& pair.1 is Some <==> pair.0.model@.len() > 0
            &&& pair.1 is Some ==> pair.1->0@ == pair.0.model@
            &&& provider_named(name) is Some ==> Some(pair.0.provider) == provider_named(name)
            &&& provider_named(name) matches Some(p) ==> {
                let entry = if providers.contains_key(name) {
                    providers[name]
                } else {
                    ProviderConfig {
                        provider: None,
                        model: None,
                        api_key: None,
                        base_url: None,
                        prompt_caching: None,
                        compat: None,
                    }
                };
                &&& is_chosen_compat(p, None, entry, pair.0.model@, pair.0.compat)
                &&& entry.prompt_caching is None ==> (pair.0.prompt_caching <==> p
                    == ProviderType::Anthropic) && pair.0.prompt_caching_min_prefix_tokens == 1024
                &&& entry.prompt_caching matches Some(PromptCachingConfig::Enabled(on))
                    ==> pair.0.prompt_caching == on && pair.0.prompt_caching_min_prefix_tokens
                    == 1024
                &&& entry.prompt_caching matches Some(PromptCachingConfig::Detailed(d)) ==> {
                    &&& d.enabled is Some ==> pair.0.prompt_caching == d.enabled->0
                    &&& d.min_prefix_tokens is Some ==> pair.0.prompt_caching_min_prefix_tokens
                        == d.min_prefix_tokens->0
                }
            }
            &&& provider_named(name) is None && !providers.contains_key(name) ==> (entry_with_id(
                catalog,
                name,
            ) matches Some(e) && pair.0.provider == ProviderType::OpenAI && pair.0.base_url@
                == e.base_url@ && (pinned is None && !models.short_forms@.contains_key(""@)
                ==> pair.0.model@ == ""@))
            &&& provider_named(name) is Some && providers.contains_key(name) ==> {
                &&& providers[name].base_url is Some ==> pair.0.base_url@
                    == providers[name].base_url->0@
                &&& providers[name].api_key is Some ==> pair.0.api_key@
                    == providers[name].api_key->0@
                &&& pinned is None && providers[name].model is Some
                    && !models.short_forms@.contains_key(providers[name].model->0@)
                    ==> pair.0.model@ == providers[name].model->0@
            }
        },
{
}

/// A configuration turned to another provider has that provider's name, address, preset and the
/// given key; the model and the session's settings stay.
pub proof fn law_redirected_configuration(
    before: Config,
    p: ProviderType,
    key: Seq<char>,
    after: Config,
)
    requires
        before.is_redirected(p, key, after),
    ensures
        after.provider == p,
        after.api_key@ == key,
        provider_named(after.provider_label@) == Some(p),
        p == ProviderType::Anthropic ==> after.base_url@ == "https://api.anthropic.com"@,
        p == ProviderType::OpenAI ==> after.base_url@ == "https://api.openai.com"@,
        p == ProviderType::Gemini ==> after.base_url@
            == "https://generativelanguage.googleapis.com"@,
        p == ProviderType::OpenAIChatGpt ==> after.base_url@
            == "https://chatgpt.com/backend-api/codex"@,
        p == ProviderType::MiniMax ==> after.base_url@ == "https://api.minimax.io/anthropic"@,
        after.model@ == before.model@,
        after.max_tokens == before.max_tokens,
        after.max_turns == before.max_turns,
        after.approval_mode == before.approval_mode,
        after.prompt_caching == before.prompt_caching,
        after.prompt_caching_min_prefix_tokens == before.prompt_caching_min_prefix_tokens,
        before.tools.same(after.tools),
        before.security.same(after.security),
        before.hooks.same(after.hooks),
        before.mcp.same(after.mcp),
{
    crate::config::provider::law_slug_round_trip(p);
}

} // verus!
