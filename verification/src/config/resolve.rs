//! Resolution of a configuration file into a runtime configuration.

use crate::catalog::{CatalogEntry, ProviderCatalog};
use crate::compat::{
    compat_defaults_for, is_openai_compat, is_preset_of, merged_compat, ProviderCompat,
};
use crate::config::alias::{
    alias_outcome, alias_reports, resolve_provider_alias, AliasOutcome, ProviderResolveError,
};
use crate::config::keys::{
    chars, resolve_api_key, resolved_key, text_at, KeySources, MissingApiKey, NO_KEY,
};
use crate::config::merge::{is_merge, merge_config_files};
use crate::config::overlay::{apply_profile, profile_reports, ProfileResolveError};
use crate::config::provider::{
    accepts_effort, default_base_url, default_base_url_for, default_model, default_model_for,
    openai_model_accepts_effort, provider_type_slug, slug_of, ProviderType,
};
use crate::config::types::{
    CarriedSettings, CliArgs, Config, ConfigFile, DefaultConfig, MemoryConfig, ProviderConfig,
    ToolsConfig, DEFAULT_CACHE_MIN_PREFIX_TOKENS,
};
use crate::laws::resolution::law_flags_win;
use crate::model_aliases::{expand_short_form, short_form, ModelAliases};
use crate::replica::{first_of, opt_text, or_else, Replica};
use crate::table::StrMap;
use crate::text::{chars_of, concat3, string_of};
use vstd::prelude::*;

verus! {

/// The first of some optional texts, or `last` when none is present.
pub open spec fn text_or(first: Option<Seq<char>>, last: Seq<char>) -> Seq<char> {
    match first {
        Some(s) => s,
        None => last,
    }
}

/// The base URL: `cli`, then the provider entry, then the catalog entry, then the
/// provider's own.
pub open spec fn chosen_base_url(
    cli: Option<Seq<char>>,
    config: ProviderConfig,
    entry: Option<CatalogEntry>,
    p: ProviderType,
) -> Seq<char> {
    text_or(
        first_of(cli, opt_text(config.base_url)),
        match entry {
            Some(e) => e.base_url@,
            None => default_base_url(p),
        },
    )
}

/// The model before short forms are expanded: the first that is given, else the
/// provider's own. A catalog provider has none of its own.
pub open spec fn chosen_model(
    given: Option<Seq<char>>,
    entry: Option<CatalogEntry>,
    p: ProviderType,
    models: ModelAliases,
) -> Seq<char> {
    text_or(
        given,
        if entry is Some {
            ""@
        } else {
            default_model(p, models)
        },
    )
}

/// The model with a short form expanded.
pub open spec fn expanded(model: Seq<char>, models: ModelAliases) -> Seq<char> {
    text_or(short_form(models, model), model)
}

/// The key that the catalog entry's own environment variable holds. It counts only
/// when neither the command line nor the configuration gives a key.
pub open spec fn catalog_key(
    explicit: bool,
    entry: Option<CatalogEntry>,
    sources: KeySources,
) -> Option<Seq<char>> {
    match entry {
        Some(e) => if explicit {
            None
        } else {
            text_at(sources.environment@, e.env_var@)
        },
        None => None,
    }
}

/// The API key: what the usual chain finds, or the catalog key where that finds
/// nothing or only an empty key.
pub open spec fn chosen_key(
    cli: Option<Seq<char>>,
    config: ProviderConfig,
    entry: Option<CatalogEntry>,
    p: ProviderType,
    sources: KeySources,
) -> Option<Seq<char>> {
    let own = catalog_key(cli is Some || config.api_key is Some, entry, sources);
    match resolved_key(cli, opt_text(config.api_key), p, sources) {
        None => own,
        Some(k) => if k.len() == 0 && own is Some {
            own
        } else {
            Some(k)
        },
    }
}

/// Whether prompt caching is on: as configured, else for Anthropic only.
pub open spec fn caching_on(config: ProviderConfig, p: ProviderType) -> bool {
    let configured = match config.prompt_caching {
        Some(c) => c.switch(),
        None => None,
    };
    match configured {
        Some(b) => b,
        None => p == ProviderType::Anthropic,
    }
}

/// The breakpoint floor of prompt caching.
pub open spec fn caching_floor(config: ProviderConfig) -> usize {
    let configured = match config.prompt_caching {
        Some(c) => c.floor(),
        None => None,
    };
    match configured {
        Some(n) => n,
        None => DEFAULT_CACHE_MIN_PREFIX_TOKENS,
    }
}

/// The preset to start from: that of the catalog entry, else that of the provider.
pub open spec fn is_base_preset(
    p: ProviderType,
    entry: Option<CatalogEntry>,
    c: ProviderCompat,
) -> bool {
    match entry {
        Some(e) => is_openai_compat(c, e.id@, opt_text(e.api_path)),
        None => is_preset_of(p, c),
    }
}

/// The compatibility overrides of a provider entry.
pub open spec fn overrides_of(config: ProviderConfig) -> ProviderCompat {
    match config.compat {
        Some(c) => c,
        None => blank_compat(),
    }
}

/// Compatibility settings that are all absent.
pub open spec fn blank_compat() -> ProviderCompat {
    ProviderCompat {
        max_tokens_field: None,
        merge_assistant_messages: None,
        clean_orphan_tool_calls: None,
        dedup_tool_results: None,
        ensure_alternation: None,
        merge_same_role: None,
        sanitize_schema: None,
        strip_patterns: None,
        auto_tool_id: None,
        api_path: None,
        supports_thinking: None,
        supports_effort: None,
        effort_levels: None,
        cache_message_breakpoints: None,
        provider_type: None,
        cost_per_input_token: None,
        cost_per_output_token: None,
        cost_per_cache_read_token: None,
        cost_per_cache_write_token: None,
        input_optimization: None,
        compact_bash: None,
        include_usage_in_stream: None,
        uses_responses_api: None,
        azure_auth_mode: None,
    }
}

/// Whether the effort setting must be withdrawn: the provider is OpenAI, the user
/// has not set it, the preset offers it, and the model `model` does not take it.
pub open spec fn effort_withdrawn(
    p: ProviderType,
    user: ProviderCompat,
    merged: ProviderCompat,
    model: Seq<char>,
) -> bool {
    &&& p == ProviderType::OpenAI
    &&& user.supports_effort is None
    &&& merged.supports_effort == Some(true)
    &&& model.len() > 0
    &&& !accepts_effort(model)
}

/// `r` holds the settings `merged`; with `withdrawn`, effort is off and has no
/// levels.
pub open spec fn is_effort_gated(merged: ProviderCompat, withdrawn: bool, r: ProviderCompat) -> bool {
    if withdrawn {
        &&& r.supports_effort == Some(false)
        &&& r.effort_levels matches Some(v) && v@.len() == 0
        &&& (ProviderCompat {
            supports_effort: merged.supports_effort,
            effort_levels: merged.effort_levels,
            ..r
        }) == merged
    } else {
        r == merged
    }
}

/// `r` are the compatibility settings for the provider `p` with its entry `config`
/// and the model `model`.
pub open spec fn is_chosen_compat(
    p: ProviderType,
    entry: Option<CatalogEntry>,
    config: ProviderConfig,
    model: Seq<char>,
    r: ProviderCompat,
) -> bool {
    exists|preset: ProviderCompat, user: ProviderCompat|
        {
            &&& #[trigger] is_base_preset(p, entry, preset)
            &&& #[trigger] overrides_of(config).same(user)
            &&& is_effort_gated(
                merged_compat(preset, user),
                effort_withdrawn(p, user, merged_compat(preset, user), model),
                r,
            )
        }
}

/// Computes [`chosen_base_url`].
fn choose_base_url(
    cli: &Option<String>,
    config: &ProviderConfig,
    entry: &Option<CatalogEntry>,
    provider: ProviderType,
) -> (r: String)
    ensures
        r@ == chosen_base_url(opt_text(*cli), *config, *entry, provider),
{
    if let Some(url) = cli {
        return url.clone();
    }
    if let Some(url) = &config.base_url {
        return url.clone();
    }
    match entry {
        Some(e) => e.base_url.clone(),
        None => default_base_url_for(provider),
    }
}

/// Computes [`expanded`] of [`chosen_model`].
fn choose_model(
    given: Option<String>,
    entry: &Option<CatalogEntry>,
    provider: ProviderType,
    models: &ModelAliases,
) -> (r: String)
    ensures
        r@ == expanded(chosen_model(opt_text(given), *entry, provider, *models), *models),
{
    let raw = match given {
        Some(m) => m,
        None => match entry {
            Some(_) => "".to_owned(),
            None => default_model_for(provider, models).to_owned(),
        },
    };
    match expand_short_form(models, raw.as_str()) {
        Some(full) => full,
        None => raw,
    }
}

/// The string slice of an optional string.
fn as_slice(o: &Option<String>) -> (r: Option<&str>)
    ensures
        chars(r) == opt_text(*o),
{
    match o {
        Some(s) => Some(s.as_str()),
        None => None,
    }
}

/// Computes [`chosen_key`].
fn choose_key(
    cli: &Option<String>,
    config: &ProviderConfig,
    entry: &Option<CatalogEntry>,
    provider: ProviderType,
    sources: &KeySources,
) -> (r: Option<String>)
    ensures
        opt_text(r) == chosen_key(opt_text(*cli), *config, *entry, provider, *sources),
{
    let explicit = cli.is_some() || config.api_key.is_some();
    let own = match entry {
        Some(e) => {
            if explicit {
                None
            } else {
                match sources.environment.get(e.env_var.as_str()) {
                    Some(v) => Some(v.clone()),
                    None => None,
                }
            }
        },
        None => None,
    };
    match resolve_api_key(as_slice(cli), as_slice(&config.api_key), provider, sources) {
        Err(_) => own,
        Ok(key) => {
            if key.as_str().is_empty() && own.is_some() {
                own
            } else {
                Some(key)
            }
        },
    }
}

/// Computes [`caching_on`].
fn choose_caching(config: &ProviderConfig, provider: ProviderType) -> (r: bool)
    ensures
        r == caching_on(*config, provider),
{
    let configured = match &config.prompt_caching {
        Some(c) => c.enabled(),
        None => None,
    };
    match configured {
        Some(b) => b,
        None => provider == ProviderType::Anthropic,
    }
}

/// Computes [`caching_floor`].
fn choose_caching_floor(config: &ProviderConfig) -> (r: usize)
    ensures
        r == caching_floor(*config),
{
    let configured = match &config.prompt_caching {
        Some(c) => c.min_prefix_tokens(),
        None => None,
    };
    match configured {
        Some(n) => n,
        None => DEFAULT_CACHE_MIN_PREFIX_TOKENS,
    }
}

/// Computes settings with [`is_chosen_compat`].
fn choose_compat(
    provider: ProviderType,
    entry: &Option<CatalogEntry>,
    config: &ProviderConfig,
    model: &str,
) -> (r: ProviderCompat)
    ensures
        is_chosen_compat(provider, *entry, *config, model@, r),
{
    let preset = match entry {
        Some(e) => ProviderCompat::from_catalog_entry(e.id.as_str(), as_slice(&e.api_path)),
        None => compat_defaults_for(provider),
    };
    let user = match &config.compat {
        Some(c) => c.replicate(),
        None => ProviderCompat::default(),
    };
    let user_effort = user.supports_effort;
    let ghost given = user;
    let ghost base = preset;
    let mut compat = ProviderCompat::merge(preset, user);
    let ghost merged = compat;
    let withdrawn = provider == ProviderType::OpenAI && user_effort.is_none()
        && compat.supports_effort == Some(true) && !model.is_empty()
        && !openai_model_accepts_effort(model);
    if withdrawn {
        compat.supports_effort = Some(false);
        compat.effort_levels = Some(Vec::new());
    }
    proof {
        assert(is_base_preset(provider, *entry, base));
        assert(overrides_of(*config).same(given));
        assert(merged == merged_compat(base, given));
        assert(withdrawn == effort_withdrawn(provider, given, merged, model@));
        assert(is_effort_gated(merged, withdrawn, compat));
    }
    compat
}

/// Why a configuration could not be resolved.
#[derive(Debug, Clone)]
pub enum ResolveError {
    /// The profile could not be resolved.
    Profile(ProfileResolveError),
    /// The provider name could not be resolved.
    Provider(ProviderResolveError),
    /// There is no API key.
    MissingApiKey(MissingApiKey),
}

impl ResolveError {
    /// What the error says to the user.
    pub open spec fn says(self) -> Seq<char> {
        match self {
            ResolveError::Profile(e) => e.sentence(),
            ResolveError::Provider(e) => e.sentence(),
            ResolveError::MissingApiKey(_) => NO_KEY@,
        }
    }

    /// What the error says to the user.
    pub fn message(&self) -> (r: String)
        ensures
            r@ == self.says(),
    {
        match self {
            ResolveError::Profile(e) => e.message(),
            ResolveError::Provider(e) => e.message(),
            ResolveError::MissingApiKey(e) => e.message().to_owned(),
        }
    }
}

/// The provider name in force: that of the command line, else that of the file.
pub open spec fn provider_in_force(cli: CliArgs, file: ConfigFile) -> Seq<char> {
    text_or(opt_text(cli.provider), file.default.provider@)
}

/// `r` is the resolution of `file` under the arguments `cli`, for the provider `p`
/// with the entry `config` and the catalog entry `entry`.
pub open spec fn is_resolution(
    cli: CliArgs,
    file: ConfigFile,
    p: ProviderType,
    config: ProviderConfig,
    entry: Option<CatalogEntry>,
    sources: KeySources,
    models: ModelAliases,
    r: Config,
) -> bool {
    &&& r.provider_label@ == provider_in_force(cli, file)
    &&& r.provider == p
    &&& chosen_key(opt_text(cli.api_key), config, entry, p, sources) == Some(r.api_key@)
    &&& r.base_url@ == chosen_base_url(opt_text(cli.base_url), config, entry, p)
    &&& r.model@ == expanded(
        chosen_model(
            first_of(
                opt_text(cli.model),
                first_of(opt_text(config.model), opt_text(file.default.model)),
            ),
            entry,
            p,
            models,
        ),
        models,
    )
    &&& r.max_tokens == match cli.max_tokens {
        Some(n) => n,
        None => file.default.max_tokens,
    }
    &&& r.max_tokens_explicit == (cli.max_tokens is Some || file.default.max_tokens != 64000)
    &&& r.temperature is None
    &&& r.max_turns == first_of(cli.max_turns, file.default.max_turns)
    &&& r.approval_mode == file.default.approval_mode
    &&& r.system_prompt == first_of(cli.system_prompt, file.default.system_prompt)
    &&& r.thinking is None
    &&& r.prompt_caching == caching_on(config, p)
    &&& r.prompt_caching_min_prefix_tokens == caching_floor(config)
    &&& is_chosen_compat(
        p,
        entry,
        config,
        text_or(first_of(opt_text(cli.model), opt_text(config.model)), ""@),
        r.compat,
    )
    &&& r.tools == (ToolsConfig {
        auto_approve: cli.auto_approve || file.tools.auto_approve,
        ..file.tools
    })
    &&& r.builtin_tools.is_default()
    &&& r.advertised_capabilities.is_default()
    &&& r.session == file.session
    &&& r.inbound_webhook == file.inbound_webhook
    &&& r.compact == file.compact
    &&& r.plan == file.plan
    &&& r.file_cache == file.file_cache
    &&& r.hooks == file.hooks
    &&& r.bedrock == file.bedrock
    &&& r.vertex == file.vertex
    &&& r.mcp == file.mcp
    &&& r.debug == file.debug
    &&& r.observability == file.observability
    &&& r.provider_chain == file.provider_chain
    &&& r.budget == file.budget
    &&& r.storage == file.storage
    &&& match file.memory {
        Some(m) => r.memory == m,
        None => r.memory.is_default(),
    }
    &&& r.browser == file.browser
    &&& r.security == file.security
    &&& r.session_cap == file.session_cap
    &&& r.crucible == file.crucible
}

/// Whether an outcome is a provider, and whether a key can be found for it.
pub open spec fn resolve_reports(
    cli: CliArgs,
    file: ConfigFile,
    catalog: Seq<CatalogEntry>,
    sources: KeySources,
    models: ModelAliases,
    r: Result<Config, ResolveError>,
) -> bool {
    let name = provider_in_force(cli, file);
    match alias_outcome(file.providers@, name, catalog) {
        AliasOutcome::Resolved(p, config, entry) => match chosen_key(
            opt_text(cli.api_key),
            config,
            entry,
            p,
            sources,
        ) {
            Some(_) => r matches Ok(c) && is_resolution(
                cli,
                file,
                p,
                config,
                entry,
                sources,
                models,
                c,
            ),
            None => r matches Err(ResolveError::MissingApiKey(_)),
        },
        other => r matches Err(ResolveError::Provider(e)) && alias_reports(other, name, Err(e)),
    }
}

/// The choices depend on what a provider entry and a catalog entry hold, not on
/// their identity.
proof fn lemma_choices_by_contents(
    a: ProviderConfig,
    b: ProviderConfig,
    e: Option<CatalogEntry>,
    f: Option<CatalogEntry>,
    cli: Option<Seq<char>>,
    p: ProviderType,
    sources: KeySources,
)
    requires
        a.same(b),
        e.same(f),
    ensures
        opt_text(a.model) == opt_text(b.model),
        chosen_base_url(cli, a, e, p) == chosen_base_url(cli, b, f, p),
        chosen_key(cli, a, e, p, sources) == chosen_key(cli, b, f, p, sources),
        caching_on(a, p) == caching_on(b, p),
        caching_floor(a) == caching_floor(b),
        e is Some <==> f is Some,
{
}

proof fn lemma_compat_by_contents(
    a: ProviderConfig,
    b: ProviderConfig,
    e: Option<CatalogEntry>,
    f: Option<CatalogEntry>,
    p: ProviderType,
    model: Seq<char>,
    r: ProviderCompat,
)
    requires
        a.same(b),
        e.same(f),
        is_chosen_compat(p, f, b, model, r),
    ensures
        is_chosen_compat(p, e, a, model, r),
{
    let (preset, user) = choose|preset: ProviderCompat, user: ProviderCompat|
        {
            &&& #[trigger] is_base_preset(p, f, preset)
            &&& #[trigger] overrides_of(b).same(user)
            &&& is_effort_gated(
                merged_compat(preset, user),
                effort_withdrawn(p, user, merged_compat(preset, user), model),
                r,
            )
        };
    assert(is_base_preset(p, e, preset));
    assert(overrides_of(a).same(overrides_of(b)));
    overrides_of(a).same_through(overrides_of(b), user);
}

impl Config {
    /// Resolves the configuration file `file`, with any profile already applied,
    /// under the command-line arguments `cli`.
    #[verifier::rlimit(50)]
    pub fn resolve_file(
        cli: &CliArgs,
        file: ConfigFile,
        catalog: &ProviderCatalog,
        sources: &KeySources,
        models: &ModelAliases,
    ) -> (r: Result<Config, ResolveError>)
        ensures
            resolve_reports(*cli, file, catalog.entries@, *sources, *models, r),
    {
        let name = match &cli.provider {
            Some(p) => p.clone(),
            None => file.default.provider.clone(),
        };
        let picked = match resolve_provider_alias(&file.providers, name.as_str(), catalog) {
            Ok(p) => p,
            Err(e) => {
                return Err(ResolveError::Provider(e));
            },
        };
        let provider = picked.provider_type;
        let config = picked.effective_config;
        let entry = picked.catalog_entry;
        let ghost o = alias_outcome(file.providers@, name@, catalog.entries@);
        proof {
            lemma_choices_by_contents(
                o->Resolved_1,
                config,
                o->Resolved_2,
                entry,
                opt_text(cli.api_key),
                provider,
                *sources,
            );
            lemma_choices_by_contents(
                o->Resolved_1,
                config,
                o->Resolved_2,
                entry,
                opt_text(cli.base_url),
                provider,
                *sources,
            );
        }
        let base_url = choose_base_url(&cli.base_url, &config, &entry, provider);
        let given = or_else(
            cli.model.clone(),
            or_else(config.model.clone(), file.default.model.clone()),
        );
        let model = choose_model(given, &entry, provider, models);
        let api_key = match choose_key(&cli.api_key, &config, &entry, provider, sources) {
            Some(key) => key,
            None => {
                return Err(ResolveError::MissingApiKey(MissingApiKey));
            },
        };
        let offered = match or_else(cli.model.clone(), config.model.clone()) {
            Some(m) => m,
            None => "".to_owned(),
        };
        let compat = choose_compat(provider, &entry, &config, offered.as_str());
        proof {
            lemma_compat_by_contents(
                o->Resolved_1,
                config,
                o->Resolved_2,
                entry,
                provider,
                offered@,
                compat,
            );
        }
        let mut tools = file.tools;
        if cli.auto_approve {
            tools.auto_approve = true;
        }
        let memory = match file.memory {
            Some(m) => m,
            None => MemoryConfig::default(),
        };
        Ok(
            Config {
                provider_label: picked.requested_name,
                provider,
                api_key,
                base_url,
                security: file.security,
                model,
                max_tokens: match cli.max_tokens {
                    Some(n) => n,
                    None => file.default.max_tokens,
                },
                max_tokens_explicit: cli.max_tokens.is_some() || file.default.max_tokens != 64000,
                temperature: None,
                max_turns: or_else(cli.max_turns, file.default.max_turns),
                approval_mode: file.default.approval_mode,
                system_prompt: or_else(cli.system_prompt.clone(), file.default.system_prompt),
                thinking: None,
                prompt_caching: choose_caching(&config, provider),
                prompt_caching_min_prefix_tokens: choose_caching_floor(&config),
                compat,
                tools,
                builtin_tools: CarriedSettings::default(),
                advertised_capabilities: CarriedSettings::default(),
                session: file.session,
                inbound_webhook: file.inbound_webhook,
                compact: file.compact,
                plan: file.plan,
                file_cache: file.file_cache,
                hooks: file.hooks,
                bedrock: file.bedrock,
                vertex: file.vertex,
                mcp: file.mcp,
                debug: file.debug,
                observability: file.observability,
                provider_chain: file.provider_chain,
                budget: file.budget,
                storage: file.storage,
                memory,
                browser: file.browser,
                session_cap: file.session_cap,
                crucible: file.crucible,
            },
        )
    }
}

impl Config {
    /// `other` is `self` pointed at the built-in provider `p` with the key `key`.
    pub open spec fn is_redirected(self, p: ProviderType, key: Seq<char>, other: Config) -> bool {
        &&& self.same_session(other)
        &&& other.provider == p
        &&& other.provider_label@ == slug_of(p)
        &&& other.api_key@ == key
        &&& other.base_url@ == default_base_url(p)
        &&& is_preset_of(p, other.compat)
        &&& other.model@ == self.model@
        &&& other.prompt_caching == self.prompt_caching
        &&& other.prompt_caching_min_prefix_tokens == self.prompt_caching_min_prefix_tokens
    }

    /// A configuration for listing the models of `provider`: its identity, key, URL
    /// and preset, and the settings of `self` for the rest. The key is empty when
    /// none is found.
    pub fn for_provider_discovery(&self, provider: ProviderType, sources: &KeySources) -> (r: Config)
        ensures
            self.is_redirected(
                provider,
                text_or(resolved_key(None, None, provider, *sources), ""@),
                r,
            ),
    {
        let key = match resolve_api_key(None, None, provider, sources) {
            Ok(k) => k,
            Err(_) => "".to_owned(),
        };
        self.for_key_validation(provider, key.as_str())
    }

    /// A configuration for trying the key `api_key` on `provider`.
    pub fn for_key_validation(&self, provider: ProviderType, api_key: &str) -> (r: Config)
        ensures
            self.is_redirected(provider, api_key@, r),
    {
        let copy = self.replicate();
        Config {
            provider,
            provider_label: provider_type_slug(provider).to_owned(),
            api_key: api_key.to_owned(),
            base_url: default_base_url_for(provider),
            compat: compat_defaults_for(provider),
            ..copy
        }
    }
}

/// A council entry split at its first colon: the provider and the model, if any.
pub open spec fn split_entry(s: Seq<char>) -> (Seq<char>, Option<Seq<char>>) {
    match s.index_of_first(':') {
        Some(i) => (s.take(i), Some(s.skip(i + 1))),
        None => (s, None),
    }
}

/// Splits a council entry at its first colon.
fn split_council_entry(s: &str) -> (r: (String, Option<String>))
    ensures
        r.0@ == split_entry(s@).0,
        opt_text(r.1) == split_entry(s@).1,
{
    let cs = chars_of(s);
    let mut head: Vec<char> = Vec::new();
    let mut i: usize = 0;
    proof {
        s@.index_of_first_ensures(':');
    }
    while i < cs.len() && cs[i] != ':'
        invariant
            i <= cs.len(),
            cs@ == s@,
            head@ == s@.take(i as int),
            forall|j: int| 0 <= j < i ==> s@[j] != ':',
        decreases cs.len() - i,
    {
        head.push(cs[i]);
        proof {
            assert(s@.take(i as int + 1) =~= s@.take(i as int).push(s@[i as int]));
        }
        i = i + 1;
    }
    if i == cs.len() {
        proof {
            assert(!s@.contains(':'));
            assert(s@.take(i as int) =~= s@);
        }
        return (string_of(&head), None);
    }
    proof {
        assert(s@[i as int] == ':');
        assert(s@.contains(':'));
        assert(s@.index_of_first(':') == Some(i as int));
    }
    let mut tail: Vec<char> = Vec::new();
    let mut n: usize = i + 1;
    while n < cs.len()
        invariant
            i + 1 <= n <= cs.len(),
            cs@ == s@,
            tail@ == s@.subrange(i + 1, n as int),
        decreases cs.len() - n,
    {
        tail.push(cs[n]);
        proof {
            assert(s@.subrange(i + 1, n + 1) =~= s@.subrange(i + 1, n as int).push(s@[n as int]));
        }
        n = n + 1;
    }
    proof {
        assert(s@.subrange(i + 1, n as int) =~= s@.skip(i + 1));
    }
    (string_of(&head), Some(string_of(&tail)))
}

/// Why a council member could not be resolved.
#[derive(Debug, Clone)]
pub enum CouncilProviderError {
    /// The provider is not known.
    Unknown(String),
    /// There is no API key for the provider; the council skips it.
    Keyless(String),
}

impl CouncilProviderError {
    /// The error as a sentence for the user.
    pub fn message(&self) -> (r: String)
        ensures
            r@ == match *self {
                CouncilProviderError::Unknown(id) => "unknown council provider '"@ + id@ + "'"@,
                CouncilProviderError::Keyless(id) => "council provider '"@ + id@
                    + "' has no usable api key"@,
            },
    {
        match self {
            CouncilProviderError::Unknown(id) => concat3(
                "unknown council provider '",
                id.as_str(),
                "'",
            ),
            CouncilProviderError::Keyless(id) => concat3(
                "council provider '",
                id.as_str(),
                "' has no usable api key",
            ),
        }
    }
}

/// `r` is `base` turned into a council member: the provider `p`, named `id`, with
/// the entry `config`, the catalog entry `entry` and the key `key`; the model is
/// `pinned`, else that of the entry, else the provider's own.
pub open spec fn is_member(
    base: Config,
    id: Seq<char>,
    pinned: Option<Seq<char>>,
    p: ProviderType,
    config: ProviderConfig,
    entry: Option<CatalogEntry>,
    key: Seq<char>,
    models: ModelAliases,
    r: Config,
) -> bool {
    &&& base.same_session(r)
    &&& r.provider == p
    &&& r.provider_label@ == id
    &&& r.api_key@ == key
    &&& r.base_url@ == chosen_base_url(None, config, entry, p)
    &&& r.model@ == expanded(
        chosen_model(first_of(pinned, opt_text(config.model)), entry, p, models),
        models,
    )
    &&& r.prompt_caching == caching_on(config, p)
    &&& r.prompt_caching_min_prefix_tokens == caching_floor(config)
    &&& is_chosen_compat(p, entry, config, r.model@, r.compat)
}

/// What a council entry comes to.
pub open spec fn council_reports(
    providers: Map<Seq<char>, ProviderConfig>,
    base: Config,
    spec_entry: Seq<char>,
    catalog: Seq<CatalogEntry>,
    sources: KeySources,
    models: ModelAliases,
    r: Result<(Config, Option<String>), CouncilProviderError>,
) -> bool {
    let id = split_entry(spec_entry).0;
    let pinned = split_entry(spec_entry).1;
    match alias_outcome(providers, id, catalog) {
        AliasOutcome::Resolved(p, config, entry) => match chosen_key(
            None,
            config,
            entry,
            p,
            sources,
        ) {
            Some(key) => {
                &&& r matches Ok(pair)
                &&& is_member(base, id, pinned, p, config, entry, key, models, pair.0)
                &&& opt_text(pair.1) == if pair.0.model@.len() == 0 {
                    None
                } else {
                    Some(pair.0.model@)
                }
            },
            None => r matches Err(CouncilProviderError::Keyless(n)) && n@ == id,
        },
        _ => r matches Err(CouncilProviderError::Unknown(n)) && n@ == id,
    }
}

/// Turns `base` into a configuration for the council entry `entry`, written as
/// `provider` or `provider:model`. The member gets its own credentials; all
/// settings that do not follow from the provider are those of `base`.
pub fn resolve_council_provider(
    providers: &StrMap<ProviderConfig>,
    base: &Config,
    entry: &str,
    catalog: &ProviderCatalog,
    sources: &KeySources,
    models: &ModelAliases,
) -> (r: Result<(Config, Option<String>), CouncilProviderError>)
    ensures
        council_reports(providers@, *base, entry@, catalog.entries@, *sources, *models, r),
{
    let (id, pinned) = split_council_entry(entry);
    let picked = match resolve_provider_alias(providers, id.as_str(), catalog) {
        Ok(p) => p,
        Err(_) => {
            return Err(CouncilProviderError::Unknown(id));
        },
    };
    let provider = picked.provider_type;
    let config = picked.effective_config;
    let from = picked.catalog_entry;
    let ghost o = alias_outcome(providers@, id@, catalog.entries@);
    proof {
        lemma_choices_by_contents(
            o->Resolved_1,
            config,
            o->Resolved_2,
            from,
            None,
            provider,
            *sources,
        );
    }
    let base_url = choose_base_url(&None, &config, &from, provider);
    let given = or_else(pinned, config.model.clone());
    let model = choose_model(given, &from, provider, models);
    let api_key = match choose_key(&None, &config, &from, provider, sources) {
        Some(key) => key,
        None => {
            return Err(CouncilProviderError::Keyless(id));
        },
    };
    let compat = choose_compat(provider, &from, &config, model.as_str());
    proof {
        lemma_compat_by_contents(
            o->Resolved_1,
            config,
            o->Resolved_2,
            from,
            provider,
            model@,
            compat,
        );
    }
    let resolved_model = if model.as_str().is_empty() {
        None
    } else {
        Some(model.clone())
    };
    let copy = base.replicate();
    let derived = Config {
        provider,
        provider_label: picked.requested_name,
        api_key,
        base_url,
        model,
        prompt_caching: choose_caching(&config, provider),
        prompt_caching_min_prefix_tokens: choose_caching_floor(&config),
        compat,
        ..copy
    };
    Ok((derived, resolved_model))
}

/// `file` with the headline command-line overrides on top.
pub open spec fn stamped(file: ConfigFile, cli: CliArgs) -> ConfigFile {
    ConfigFile {
        default: DefaultConfig {
            provider: match cli.provider {
                Some(p) => p,
                None => file.default.provider,
            },
            model: first_of(cli.model, file.default.model),
            max_turns: first_of(cli.max_turns, file.default.max_turns),
            ..file.default
        },
        ..file
    }
}

/// Stamps the headline command-line overrides onto a merged file, for a preview.
pub fn stamp_overrides(file: ConfigFile, cli: &CliArgs) -> (r: ConfigFile)
    ensures
        r == stamped(file, *cli),
{
    let mut out = file;
    if let Some(provider) = &cli.provider {
        out.default.provider = provider.clone();
    }
    if let Some(model) = &cli.model {
        out.default.model = Some(model.clone());
    }
    if cli.max_turns.is_some() {
        out.default.max_turns = cli.max_turns;
    }
    out
}

/// The file that the resolution works on: the merge of `global` and `project`, with
/// the profile of the command line, if any, applied.
pub open spec fn is_effective(
    global: ConfigFile,
    project: ConfigFile,
    stock_dir: Seq<char>,
    profile: Option<String>,
    r: Result<ConfigFile, ProfileResolveError>,
) -> bool {
    exists|merged: ConfigFile|
        #[trigger] is_merge(global, project, stock_dir, merged) && match profile {
            None => r == Ok::<ConfigFile, ProfileResolveError>(merged),
            Some(name) => profile_reports(merged, name@, r),
        }
}

/// The file that the resolution works on: the merge of `global` and `project`, with
/// the profile of the command line, if any, applied.
pub fn effective_file(
    global: ConfigFile,
    project: ConfigFile,
    stock_dir: &str,
    profile: &Option<String>,
) -> (r: Result<ConfigFile, ProfileResolveError>)
    ensures
        is_effective(global, project, stock_dir@, *profile, r),
{
    let merged = merge_config_files(global, project, stock_dir);
    match profile {
        None => Ok(merged),
        Some(name) => apply_profile(merged, name.as_str()),
    }
}

/// The file that a preview of the configuration shows, before its secrets are masked: the one
/// that the resolution works on, with the headline command-line overrides on top.
pub fn previewed_file(
    cli: &CliArgs,
    global: ConfigFile,
    project: ConfigFile,
    stock_dir: &str,
) -> (r: Result<ConfigFile, ProfileResolveError>)
    ensures
        exists|f: Result<ConfigFile, ProfileResolveError>|
            #[trigger] is_effective(global, project, stock_dir@, cli.profile, f) && match f {
                Ok(file) => r == Ok::<ConfigFile, ProfileResolveError>(stamped(file, *cli)),
                Err(e) => r == Err::<ConfigFile, ProfileResolveError>(e),
            },
{
    match effective_file(global, project, stock_dir, &cli.profile) {
        Ok(file) => Ok(stamp_overrides(file, cli)),
        Err(e) => Err(e),
    }
}

impl Config {
    /// Resolves the global file and the project file under the command-line arguments
    /// `cli`: merges them, applies the profile and settles the provider.
    pub fn resolve(
        cli: &CliArgs,
        global: ConfigFile,
        project: ConfigFile,
        stock_dir: &str,
        catalog: &ProviderCatalog,
        sources: &KeySources,
        models: &ModelAliases,
    ) -> (r: Result<Config, ResolveError>)
        ensures
            exists|f: Result<ConfigFile, ProfileResolveError>|
                #[trigger] is_effective(global, project, stock_dir@, cli.profile, f) && match f {
                    Ok(file) => resolve_reports(*cli, file, catalog.entries@, *sources, *models, r),
                    Err(e) => r == Err::<Config, ResolveError>(ResolveError::Profile(e)),
                },
            cli.base_url is Some && r is Ok ==> r->Ok_0.base_url@ == cli.base_url->0@,
            cli.api_key is Some && r is Ok ==> r->Ok_0.api_key@ == cli.api_key->0@,
            cli.provider is Some && r is Ok ==> r->Ok_0.provider_label@ == cli.provider->0@,
            cli.max_tokens is Some && r is Ok ==> r->Ok_0.max_tokens == cli.max_tokens->0,
    {
        match effective_file(global, project, stock_dir, &cli.profile) {
            Ok(file) => {
                let r = Config::resolve_file(cli, file, catalog, sources, models);
                proof {
                    if r is Ok {
                        law_flags_win(*cli, file, catalog.entries@, *sources, *models, r->Ok_0);
                    }
                }
                r
            },
            Err(e) => Err(ResolveError::Profile(e)),
        }
    }
}

} // verus!
