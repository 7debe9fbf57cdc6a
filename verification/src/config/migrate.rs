//! One-time migration of the legacy YAML settings.

use crate::config::overlay::entry_or_blank;
use crate::config::types::{ConfigFile, MemoryConfig, ProviderConfig};
use crate::replica::first_of;
use crate::text::{chars_of, same_text, string_of};
use vstd::prelude::*;

verus! {

/// The `model` block of the legacy settings.
#[derive(Debug, Clone)]
pub struct LegacyModel {
    /// The model.
    pub default: Option<String>,
    /// The provider; `auto` leaves the choice to the model.
    pub provider: Option<String>,
    /// The base URL.
    pub base_url: Option<String>,
}

/// The legacy settings that the engine knows.
#[derive(Debug, Clone)]
pub struct LegacySettings {
    /// The `model` block.
    pub model: Option<LegacyModel>,
    /// `memory.memory_enabled`.
    pub memory_enabled: Option<bool>,
}

/// The part of `s` before its first slash.
pub open spec fn first_segment(s: Seq<char>) -> Seq<char> {
    match s.index_of_first('/') {
        Some(i) => s.take(i),
        None => s,
    }
}

/// The part of `s` before its first slash.
fn segment(s: &str) -> (r: String)
    ensures
        r@ == first_segment(s@),
{
    let cs = chars_of(s);
    let mut head: Vec<char> = Vec::new();
    let mut i: usize = 0;
    proof {
        s@.index_of_first_ensures('/');
    }
    while i < cs.len() && cs[i] != '/'
        invariant
            i <= cs.len(),
            cs@ == s@,
            head@ == s@.take(i as int),
            forall|j: int| 0 <= j < i ==> s@[j] != '/',
        decreases cs.len() - i,
    {
        head.push(cs[i]);
        proof {
            assert(s@.take(i as int + 1) =~= s@.take(i as int).push(s@[i as int]));
        }
        i = i + 1;
    }
    proof {
        if i == cs.len() {
            assert(!s@.contains('/'));
            assert(s@.take(i as int) =~= s@);
        } else {
            assert(s@[i as int] == '/');
            assert(s@.contains('/'));
            assert(s@.index_of_first('/') == Some(i as int));
        }
    }
    string_of(&head)
}

/// Whether the migration runs: there are legacy settings, and no configuration file
/// yet. An existing file is the source of truth and is never rewritten.
pub fn migration_needed(legacy_exists: bool, canonical_exists: bool) -> (r: bool)
    ensures
        r == (legacy_exists && !canonical_exists),
{
    legacy_exists && !canonical_exists
}

/// The provider of the migrated file.
pub open spec fn migrated_provider(legacy: LegacySettings, stock: ConfigFile) -> String {
    match legacy.model {
        Some(m) => match m.provider {
            Some(p) => if p@ != "auto"@ {
                p
            } else {
                stock.default.provider
            },
            None => stock.default.provider,
        },
        None => stock.default.provider,
    }
}

/// The model of the migrated file.
pub open spec fn migrated_model(legacy: LegacySettings, stock: ConfigFile) -> Option<String> {
    match legacy.model {
        Some(m) => first_of(m.default, stock.default.model),
        None => stock.default.model,
    }
}

/// The provider entry that takes the legacy base URL: the provider, or, while that
/// is the stock one, the first segment of the model, or `openrouter` without a
/// model.
pub open spec fn url_owner(legacy: LegacySettings, stock: ConfigFile) -> Seq<char> {
    let provider = migrated_provider(legacy, stock)@;
    if provider == "anthropic"@ {
        match migrated_model(legacy, stock) {
            Some(m) => first_segment(m@),
            None => "openrouter"@,
        }
    } else {
        provider
    }
}

/// `r` is `stock` with the legacy settings on top.
pub open spec fn is_migrated(legacy: LegacySettings, stock: ConfigFile, r: ConfigFile) -> bool {
    &&& r.default.provider == migrated_provider(legacy, stock)
    &&& r.default.model == migrated_model(legacy, stock)
    &&& r.providers@ == match legacy.model {
        Some(m) => match m.base_url {
            Some(url) => {
                let owner = url_owner(legacy, stock);
                stock.providers@.insert(
                    owner,
                    ProviderConfig {
                        base_url: Some(url),
                        ..entry_or_blank(stock.providers@, owner)
                    },
                )
            },
            None => stock.providers@,
        },
        None => stock.providers@,
    }
    &&& match legacy.memory_enabled {
        Some(on) => {
            &&& r.memory matches Some(m)
            &&& m.enabled == on
            &&& match stock.memory {
                Some(old_memory) => m == (MemoryConfig { enabled: on, ..old_memory }),
                None => (MemoryConfig { enabled: true, ..m }).is_default(),
            }
        },
        None => r.memory == stock.memory,
    }
    &&& r.default.max_tokens == stock.default.max_tokens
    &&& r.default.max_turns == stock.default.max_turns
    &&& r.default.approval_mode == stock.default.approval_mode
    &&& r.default.system_prompt == stock.default.system_prompt
    &&& r.default.user == stock.default.user
    &&& r.default.read_only == stock.default.read_only
    &&& r == (ConfigFile {
        default: r.default,
        providers: r.providers,
        memory: r.memory,
        ..stock
    })
}

/// The configuration file that the legacy settings come to, on top of the stock
/// settings `stock`.
pub fn migrate_legacy_settings(legacy: LegacySettings, stock: ConfigFile) -> (r: ConfigFile)
    ensures
        is_migrated(legacy, stock, r),
{
    let mut out = stock;
    if let Some(m) = legacy.model {
        if let Some(model_id) = m.default {
            out.default.model = Some(model_id);
        }
        if let Some(provider_name) = m.provider {
            if !same_text(provider_name.as_str(), "auto") {
                out.default.provider = provider_name;
            }
        }
        if let Some(base_url) = m.base_url {
            let owner = if same_text(out.default.provider.as_str(), "anthropic") {
                match &out.default.model {
                    Some(model) => segment(model.as_str()),
                    None => "openrouter".to_owned(),
                }
            } else {
                out.default.provider.clone()
            };
            let mut entry = match out.providers.remove(owner.as_str()) {
                Some(entry) => entry,
                None => ProviderConfig::default(),
            };
            entry.base_url = Some(base_url);
            let ghost key = owner@;
            let ghost value = entry;
            out.providers.insert(owner, entry);
            proof {
                assert(out.providers@ =~= stock.providers@.insert(key, value));
            }
        }
    }
    if let Some(enabled) = legacy.memory_enabled {
        let mut memory = match out.memory {
            Some(m) => m,
            None => MemoryConfig::default(),
        };
        memory.enabled = enabled;
        out.memory = Some(memory);
    }
    out
}

/// The configuration file to write, if the migration runs: the legacy settings, where there are
/// any that can be read, on top of the stock settings, unless there is a configuration file
/// already.
pub fn migrate_legacy_yaml_if_needed(
    legacy: Option<LegacySettings>,
    canonical_exists: bool,
    stock: ConfigFile,
) -> (r: Option<ConfigFile>)
    ensures
        match legacy {
            Some(settings) => if canonical_exists {
                r is None
            } else {
                r matches Some(file) && is_migrated(settings, stock, file)
            },
            None => r is None,
        },
{
    match legacy {
        Some(settings) => {
            if migration_needed(true, canonical_exists) {
                Some(migrate_legacy_settings(settings, stock))
            } else {
                None
            }
        },
        None => None,
    }
}

} // verus!
