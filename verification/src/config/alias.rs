//! Resolution of a provider name to a built-in provider and its settings.

use crate::catalog::{entry_with_id, CatalogEntry, ProviderCatalog};
use crate::config::merge::{merge_provider_configs, merged_provider};
use crate::config::overlay::{blank_provider, entry_or_blank};
use crate::config::provider::{
    parse_builtin_provider, provider_named, ProviderType, BUILTIN_PROVIDER_NAMES,
};
use crate::config::types::ProviderConfig;
use crate::replica::Replica;
use crate::table::StrMap;
use crate::text::concat;
use vstd::prelude::*;

verus! {

/// What a provider name comes to.
pub enum AliasOutcome {
    /// A built-in provider with its settings, and the catalog entry that the name
    /// came from, if any.
    Resolved(ProviderType, ProviderConfig, Option<CatalogEntry>),
    /// The name is not known.
    Unknown,
    /// The name is an alias that names no provider.
    Unmapped,
    /// The name is an alias of something that is not a built-in provider.
    Dangling(Seq<char>),
}

/// What the provider name `name` comes to: a built-in provider first, then an
/// alias of `providers`, then an entry of the catalog.
pub open spec fn alias_outcome(
    providers: Map<Seq<char>, ProviderConfig>,
    name: Seq<char>,
    catalog: Seq<CatalogEntry>,
) -> AliasOutcome {
    match provider_named(name) {
        Some(p) => AliasOutcome::Resolved(p, entry_or_blank(providers, name), None),
        None => if !providers.contains_key(name) {
            match entry_with_id(catalog, name) {
                Some(e) => AliasOutcome::Resolved(ProviderType::OpenAI, blank_provider(), Some(e)),
                None => AliasOutcome::Unknown,
            }
        } else {
            match providers[name].provider {
                None => AliasOutcome::Unmapped,
                Some(u) => match provider_named(u@) {
                    None => AliasOutcome::Dangling(u@),
                    Some(p) => AliasOutcome::Resolved(
                        p,
                        merged_provider(entry_or_blank(providers, u@), providers[name]),
                        None,
                    ),
                },
            }
        },
    }
}

/// A provider name with what it came to.
#[derive(Debug, Clone)]
pub struct ResolvedProviderConfig {
    /// The name that was asked for.
    pub requested_name: String,
    /// The built-in provider.
    pub provider_type: ProviderType,
    /// Its settings.
    pub effective_config: ProviderConfig,
    /// The catalog entry that the name came from, if any.
    pub catalog_entry: Option<CatalogEntry>,
}

/// Why a provider name could not be resolved.
#[derive(Debug, Clone)]
pub enum ProviderResolveError {
    /// The name is not known.
    Unknown(String),
    /// The alias names no provider.
    Unmapped(String),
    /// The alias names something that is not a built-in provider.
    Dangling {
        /// The alias.
        alias: String,
        /// What it names.
        underlying: String,
    },
}

impl ProviderResolveError {
    /// The error as a sentence for the user.
    pub open spec fn sentence(self) -> Seq<char> {
        match self {
            ProviderResolveError::Unknown(name) => "Unknown provider: '"@ + name@
                + "'. Expected a built-in provider ("@ + BUILTIN_PROVIDER_NAMES@
                + ") or a custom alias defined in [providers."@ + name@ + "]."@,
            ProviderResolveError::Unmapped(name) => "Provider alias '"@ + name@
                + "' requires a 'provider' field in [providers."@ + name@
                + "] that maps to a built-in type ("@ + BUILTIN_PROVIDER_NAMES@ + ")."@,
            ProviderResolveError::Dangling { alias, underlying } => "Provider alias '"@ + alias@
                + "' maps to '"@ + underlying@ + "', which is not a built-in provider. Use one of: "@
                + BUILTIN_PROVIDER_NAMES@ + "."@,
        }
    }

    /// The error as a sentence for the user.
    pub fn message(&self) -> (r: String)
        ensures
            r@ == self.sentence(),
    {
        match self {
            ProviderResolveError::Unknown(name) => {
                let a = concat("Unknown provider: '", name.as_str());
                let b = concat(a.as_str(), "'. Expected a built-in provider (");
                let c = concat(b.as_str(), BUILTIN_PROVIDER_NAMES);
                let d = concat(c.as_str(), ") or a custom alias defined in [providers.");
                let e = concat(d.as_str(), name.as_str());
                concat(e.as_str(), "].")
            },
            ProviderResolveError::Unmapped(name) => {
                let a = concat("Provider alias '", name.as_str());
                let b = concat(a.as_str(), "' requires a 'provider' field in [providers.");
                let c = concat(b.as_str(), name.as_str());
                let d = concat(c.as_str(), "] that maps to a built-in type (");
                let e = concat(d.as_str(), BUILTIN_PROVIDER_NAMES);
                concat(e.as_str(), ").")
            },
            ProviderResolveError::Dangling { alias, underlying } => {
                let a = concat("Provider alias '", alias.as_str());
                let b = concat(a.as_str(), "' maps to '");
                let c = concat(b.as_str(), underlying.as_str());
                let d = concat(
                    c.as_str(),
                    "', which is not a built-in provider. Use one of: ",
                );
                let e = concat(d.as_str(), BUILTIN_PROVIDER_NAMES);
                concat(e.as_str(), ".")
            },
        }
    }
}

/// Whether the result `r` is what `o` says of the name `name`.
pub open spec fn alias_reports(
    o: AliasOutcome,
    name: Seq<char>,
    r: Result<ResolvedProviderConfig, ProviderResolveError>,
) -> bool {
    match o {
        AliasOutcome::Resolved(p, config, entry) => r matches Ok(c) && c.requested_name@ == name
            && c.provider_type == p && config.same(c.effective_config) && entry.same(
            c.catalog_entry,
        ),
        AliasOutcome::Unknown => r matches Err(ProviderResolveError::Unknown(n)) && n@ == name,
        AliasOutcome::Unmapped => r matches Err(ProviderResolveError::Unmapped(n)) && n@ == name,
        AliasOutcome::Dangling(u) => r matches Err(
            ProviderResolveError::Dangling { alias, underlying },
        ) && alias@ == name && underlying@ == u,
    }
}

/// A copy of the entry at `name`, or an entry with no setting.
fn copy_entry(providers: &StrMap<ProviderConfig>, name: &str) -> (r: ProviderConfig)
    ensures
        entry_or_blank(providers@, name@).same(r),
{
    match providers.get(name) {
        Some(entry) => entry.replicate(),
        None => ProviderConfig::default(),
    }
}

proof fn lemma_merge_keeps_same(
    a: ProviderConfig,
    b: ProviderConfig,
    c: ProviderConfig,
    d: ProviderConfig,
)
    requires
        a.same(b),
        c.same(d),
    ensures
        merged_provider(a, c).same(merged_provider(b, d)),
{
}

/// Resolves the provider name `requested`: a built-in provider first, then an
/// alias of `providers`, then an entry of the catalog.
pub fn resolve_provider_alias(
    providers: &StrMap<ProviderConfig>,
    requested: &str,
    catalog: &ProviderCatalog,
) -> (r: Result<ResolvedProviderConfig, ProviderResolveError>)
    ensures
        alias_reports(alias_outcome(providers@, requested@, catalog.entries@), requested@, r),
{
    if let Some(provider_type) = parse_builtin_provider(requested) {
        return Ok(
            ResolvedProviderConfig {
                requested_name: requested.to_owned(),
                provider_type,
                effective_config: copy_entry(providers, requested),
                catalog_entry: None,
            },
        );
    }
    let alias = match providers.get(requested) {
        None => {
            return match catalog.get(requested) {
                Some(entry) => Ok(
                    ResolvedProviderConfig {
                        requested_name: requested.to_owned(),
                        provider_type: ProviderType::OpenAI,
                        effective_config: ProviderConfig::default(),
                        catalog_entry: Some(entry.replicate()),
                    },
                ),
                None => Err(ProviderResolveError::Unknown(requested.to_owned())),
            };
        },
        Some(alias) => alias,
    };
    let underlying = match &alias.provider {
        None => {
            return Err(ProviderResolveError::Unmapped(requested.to_owned()));
        },
        Some(u) => u,
    };
    let provider_type = match parse_builtin_provider(underlying.as_str()) {
        None => {
            return Err(
                ProviderResolveError::Dangling {
                    alias: requested.to_owned(),
                    underlying: underlying.clone(),
                },
            );
        },
        Some(p) => p,
    };
    let base = copy_entry(providers, underlying.as_str());
    let own = alias.replicate();
    proof {
        lemma_merge_keeps_same(entry_or_blank(providers@, underlying@), base, *alias, own);
    }
    Ok(
        ResolvedProviderConfig {
            requested_name: requested.to_owned(),
            provider_type,
            effective_config: merge_provider_configs(base, own),
            catalog_entry: None,
        },
    )
}

/// A name of a built-in provider always resolves, and to that provider: neither an
/// alias nor a catalog entry can take its place.
pub proof fn law_built_in_names_win(
    providers: Map<Seq<char>, ProviderConfig>,
    name: Seq<char>,
    catalog: Seq<CatalogEntry>,
)
    requires
        provider_named(name) is Some,
    ensures
        alias_outcome(providers, name, catalog) matches AliasOutcome::Resolved(p, _, e)
            && Some(p) == provider_named(name) && e is None,
{
}

} // verus!
