//! Profiles: inheritance and application to a configuration.

use crate::compat::{merged_compat, ProviderCompat};
use crate::config::types::{ConfigFile, McpConfig, ProfileConfig, ProviderConfig};
use crate::replica::{first_of, or_else, Replica};
use crate::table::{kept, StrMap};
use crate::text::{concat, is_listed, listed};
use vstd::prelude::*;

verus! {

/// The settings of `overlay` on top of `base`; inheritance is settled.
pub open spec fn merged_profile(base: ProfileConfig, overlay: ProfileConfig) -> ProfileConfig {
    ProfileConfig {
        provider: first_of(overlay.provider, base.provider),
        model: first_of(overlay.model, base.model),
        api_key: first_of(overlay.api_key, base.api_key),
        base_url: first_of(overlay.base_url, base.base_url),
        max_tokens: first_of(overlay.max_tokens, base.max_tokens),
        max_turns: first_of(overlay.max_turns, base.max_turns),
        extends: None,
        mcp_servers: first_of(overlay.mcp_servers, base.mcp_servers),
        compat: first_of(overlay.compat, base.compat),
    }
}

/// The settings of `overlay` on top of `base`; inheritance is settled.
pub fn merge_profiles(base: ProfileConfig, overlay: ProfileConfig) -> (r: ProfileConfig)
    ensures
        r == merged_profile(base, overlay),
        overlay.provider is Some ==> r.provider == overlay.provider,
        overlay.model is Some ==> r.model == overlay.model,
        overlay.api_key is Some ==> r.api_key == overlay.api_key,
        overlay.base_url is Some ==> r.base_url == overlay.base_url,
        overlay.max_tokens is Some ==> r.max_tokens == overlay.max_tokens,
        overlay.max_turns is Some ==> r.max_turns == overlay.max_turns,
        overlay.mcp_servers is Some ==> r.mcp_servers == overlay.mcp_servers,
        overlay.compat is Some ==> r.compat == overlay.compat,
{
    ProfileConfig {
        provider: or_else(overlay.provider, base.provider),
        model: or_else(overlay.model, base.model),
        api_key: or_else(overlay.api_key, base.api_key),
        base_url: or_else(overlay.base_url, base.base_url),
        max_tokens: or_else(overlay.max_tokens, base.max_tokens),
        max_turns: or_else(overlay.max_turns, base.max_turns),
        extends: None,
        mcp_servers: or_else(overlay.mcp_servers, base.mcp_servers),
        compat: or_else(overlay.compat, base.compat),
    }
}

/// What becomes of a profile name.
pub enum ProfileOutcome {
    /// The profile with all that it inherits.
    Found(ProfileConfig),
    /// The name, or one that it inherits from, is not a profile.
    Missing(Seq<char>),
    /// The inheritance runs in a circle: the names so far, and the one that came
    /// again.
    Circular(Seq<Seq<char>>, Seq<char>),
}

/// The profiles that are not among the names `seen`.
pub open spec fn unseen(
    profiles: Map<Seq<char>, ProfileConfig>,
    seen: Seq<Seq<char>>,
) -> Set<Seq<char>> {
    profiles.dom().difference(seen.to_set())
}

proof fn lemma_unseen_shrinks(
    profiles: Map<Seq<char>, ProfileConfig>,
    seen: Seq<Seq<char>>,
    name: Seq<char>,
)
    requires
        profiles.dom().finite(),
        profiles.contains_key(name),
        !seen.contains(name),
    ensures
        unseen(profiles, seen.push(name)).len() < unseen(profiles, seen).len(),
{
    let before = unseen(profiles, seen);
    let after = unseen(profiles, seen.push(name));
    assert(before.contains(name));
    assert(after =~= before.remove(name)) by {
        assert forall|k: Seq<char>| after.contains(k) == before.remove(name).contains(k) by {
            if seen.contains(k) {
                let i = choose|i: int| 0 <= i < seen.len() && seen[i] == k;
                assert(seen.push(name)[i] == k);
            }
            if k == name {
                assert(seen.push(name)[seen.len() as int] == k);
            }
            if seen.push(name).contains(k) && k != name {
                let i = choose|i: int| 0 <= i < seen.push(name).len() && seen.push(name)[i] == k;
                assert(seen[i] == k);
            }
        }
    }
}

/// The profile `name` with all that it inherits, when the names `seen` came before
/// it on the inheritance chain.
pub open spec fn outcome(
    profiles: Map<Seq<char>, ProfileConfig>,
    name: Seq<char>,
    seen: Seq<Seq<char>>,
) -> ProfileOutcome
    decreases unseen(profiles, seen).len(),
    when profiles.dom().finite()
    via outcome_decreases
{
    if seen.contains(name) {
        ProfileOutcome::Circular(seen, name)
    } else if !profiles.contains_key(name) {
        ProfileOutcome::Missing(name)
    } else {
        match profiles[name].extends {
            None => ProfileOutcome::Found(profiles[name]),
            Some(parent) => match outcome(profiles, parent@, seen.push(name)) {
                ProfileOutcome::Found(base) => ProfileOutcome::Found(
                    merged_profile(base, profiles[name]),
                ),
                other => other,
            },
        }
    }
}

#[via_fn]
proof fn outcome_decreases(
    profiles: Map<Seq<char>, ProfileConfig>,
    name: Seq<char>,
    seen: Seq<Seq<char>>,
) {
    if !seen.contains(name) && profiles.contains_key(name) {
        lemma_unseen_shrinks(profiles, seen, name);
    }
}

/// The names on the inheritance chain of `name` when the names `seen` came before
/// it.
pub open spec fn trail(
    profiles: Map<Seq<char>, ProfileConfig>,
    name: Seq<char>,
    seen: Seq<Seq<char>>,
) -> Seq<Seq<char>>
    decreases unseen(profiles, seen).len(),
    when profiles.dom().finite()
    via trail_decreases
{
    if seen.contains(name) {
        seen
    } else if !profiles.contains_key(name) {
        seen.push(name)
    } else {
        match profiles[name].extends {
            None => seen.push(name),
            Some(parent) => trail(profiles, parent@, seen.push(name)),
        }
    }
}

#[via_fn]
proof fn trail_decreases(
    profiles: Map<Seq<char>, ProfileConfig>,
    name: Seq<char>,
    seen: Seq<Seq<char>>,
) {
    if !seen.contains(name) && profiles.contains_key(name) {
        lemma_unseen_shrinks(profiles, seen, name);
    }
}

/// Why a profile could not be resolved.
#[derive(Debug, Clone)]
pub enum ProfileResolveError {
    /// There is no profile of that name.
    NotFound(String),
    /// The inheritance runs in a circle.
    Circular {
        /// The names on the chain so far.
        chain: Vec<String>,
        /// The name that came again.
        again: String,
    },
}

/// The texts of a list of strings.
pub open spec fn texts(list: Seq<String>) -> Seq<Seq<char>> {
    list.map_values(|s: String| s@)
}

/// The texts `list` with ` -> ` between them.
pub open spec fn arrow_chain(list: Seq<Seq<char>>) -> Seq<char>
    decreases list.len(),
{
    if list.len() == 0 {
        Seq::empty()
    } else if list.len() == 1 {
        list[0]
    } else {
        arrow_chain(list.drop_last()) + " -> "@ + list.last()
    }
}

fn join_arrows(list: &Vec<String>) -> (r: String)
    ensures
        r@ == arrow_chain(texts(list@)),
{
    let mut out: String = String::new();
    let mut i: usize = 0;
    while i < list.len()
        invariant
            i <= list.len(),
            out@ == arrow_chain(texts(list@).take(i as int)),
        decreases list.len() - i,
    {
        proof {
            let all = texts(list@);
            assert(all.take(i as int + 1).drop_last() =~= all.take(i as int));
            assert(all.take(i as int + 1).last() == list@[i as int]@);
        }
        if i == 0 {
            out = list[0].clone();
        } else {
            out.append(" -> ");
            out.append(list[i].as_str());
        }
        i = i + 1;
    }
    proof {
        assert(texts(list@).take(list@.len() as int) =~= texts(list@));
    }
    out
}

impl ProfileResolveError {
    /// The error as a sentence for the user.
    pub open spec fn sentence(self) -> Seq<char> {
        match self {
            ProfileResolveError::NotFound(name) => "Profile '"@ + name@ + "' not found in config"@,
            ProfileResolveError::Circular {
                chain,
                again,
            } => "Circular profile inheritance detected: "@ + arrow_chain(texts(chain@)) + " -> "@
                + again@,
        }
    }

    /// The error as a sentence for the user.
    pub fn message(&self) -> (r: String)
        ensures
            r@ == self.sentence(),
    {
        match self {
            ProfileResolveError::NotFound(name) => {
                let head = concat("Profile '", name.as_str());
                concat(head.as_str(), "' not found in config")
            },
            ProfileResolveError::Circular { chain, again } => {
                let path = join_arrows(chain);
                let head = concat("Circular profile inheritance detected: ", path.as_str());
                let arrow = concat(head.as_str(), " -> ");
                concat(arrow.as_str(), again.as_str())
            },
        }
    }
}

/// Whether the result `r` is what `o` says.
pub open spec fn reports(o: ProfileOutcome, r: Result<ProfileConfig, ProfileResolveError>) -> bool {
    match o {
        ProfileOutcome::Found(p) => r matches Ok(c) && p.same(c),
        ProfileOutcome::Missing(name) => r matches Err(ProfileResolveError::NotFound(n)) && n@ == name,
        ProfileOutcome::Circular(seen, name) => r matches Err(
            ProfileResolveError::Circular { chain, again },
        ) && texts(chain@) == seen && again@ == name,
    }
}

proof fn lemma_merge_keeps_same(a: ProfileConfig, b: ProfileConfig, c: ProfileConfig, d: ProfileConfig)
    requires
        a.same(b),
        c.same(d),
    ensures
        merged_profile(a, c).same(merged_profile(b, d)),
{
}

/// The profile `name` with all that it inherits. `visited` holds the names that
/// came before it on the chain, and is extended by those that follow.
pub fn resolve_profile(
    profiles: &StrMap<ProfileConfig>,
    name: &str,
    visited: &mut Vec<String>,
) -> (r: Result<ProfileConfig, ProfileResolveError>)
    ensures
        reports(outcome(profiles@, name@, texts(old(visited)@)), r),
        texts(final(visited)@) == trail(profiles@, name@, texts(old(visited)@)),
    decreases unseen(profiles@, texts(old(visited)@)).len(),
{
    let ghost seen = texts(visited@);
    proof {
        profiles.lemma_finite();
        assert forall|k: Seq<char>| listed(visited@, k) == seen.contains(k) by {
            if listed(visited@, k) {
                let i = choose|i: int| 0 <= i < visited@.len() && (#[trigger] visited@[i])@ == k;
                assert(seen[i] == k);
            }
            if seen.contains(k) {
                let i = choose|i: int| 0 <= i < seen.len() && seen[i] == k;
                assert(visited@[i]@ == k);
            }
        }
    }
    if is_listed(visited, name) {
        let mut chain: Vec<String> = Vec::new();
        let mut i: usize = 0;
        while i < visited.len()
            invariant
                i <= visited.len(),
                texts(visited@) == seen,
                texts(chain@) == seen.take(i as int),
            decreases visited.len() - i,
        {
            let ghost before = chain@;
            chain.push(visited[i].clone());
            proof {
                assert(seen[i as int] == visited@[i as int]@);
                assert(texts(chain@) =~= texts(before).push(seen[i as int]));
                assert(texts(chain@) =~= seen.take(i as int + 1));
            }
            i = i + 1;
        }
        proof {
            assert(seen.take(seen.len() as int) =~= seen);
        }
        return Err(ProfileResolveError::Circular { chain, again: name.to_owned() });
    }
    visited.push(name.to_owned());
    proof {
        assert(texts(visited@) =~= seen.push(name@));
    }
    match profiles.get(name) {
        None => Err(ProfileResolveError::NotFound(name.to_owned())),
        Some(found) => {
            let profile = found.replicate();
            match &found.extends {
                None => Ok(profile),
                Some(parent) => {
                    proof {
                        lemma_unseen_shrinks(profiles@, seen, name@);
                    }
                    match resolve_profile(profiles, parent.as_str(), visited) {
                        Ok(base) => {
                            proof {
                                let o = outcome(profiles@, parent@, seen.push(name@));
                                lemma_merge_keeps_same(o->Found_0, base, *found, profile);
                            }
                            Ok(merge_profiles(base, profile))
                        },
                        Err(e) => Err(e),
                    }
                },
            }
        },
    }
}

/// An entry of `[providers]` with no setting.
pub open spec fn blank_provider() -> ProviderConfig {
    ProviderConfig {
        provider: None,
        model: None,
        api_key: None,
        base_url: None,
        prompt_caching: None,
        compat: None,
    }
}

/// The entry at `name`, or one with no setting.
pub open spec fn entry_or_blank(
    providers: Map<Seq<char>, ProviderConfig>,
    name: Seq<char>,
) -> ProviderConfig {
    if providers.contains_key(name) {
        providers[name]
    } else {
        blank_provider()
    }
}

/// A provider entry with the key, URL and compatibility settings of a profile on
/// top.
pub open spec fn overlaid_entry(base: ProviderConfig, p: ProfileConfig) -> ProviderConfig {
    ProviderConfig {
        provider: base.provider,
        model: base.model,
        api_key: first_of(p.api_key, base.api_key),
        base_url: first_of(p.base_url, base.base_url),
        prompt_caching: base.prompt_caching,
        compat: match (base.compat, p.compat) {
            (Some(b), Some(c)) => Some(merged_compat(b, c)),
            (b, c) => first_of(c, b),
        },
    }
}

/// `r` is `before` with the profile `p` applied: its defaults win, its key, URL and
/// compatibility settings go to the entry of the provider in force, and its server
/// list, if any, selects the MCP servers. All else stays.
pub open spec fn is_applied(before: ConfigFile, p: ProfileConfig, r: ConfigFile) -> bool {
    let name = r.default.provider@;
    &&& name == match p.provider {
        Some(s) => s@,
        None => before.default.provider@,
    }
    &&& first_of(p.model, before.default.model).same(r.default.model)
    &&& r.default.max_tokens == match p.max_tokens {
        Some(n) => n,
        None => before.default.max_tokens,
    }
    &&& r.default.max_turns == first_of(p.max_turns, before.default.max_turns)
    &&& r.default.approval_mode == before.default.approval_mode
    &&& r.default.system_prompt == before.default.system_prompt
    &&& r.default.user == before.default.user
    &&& r.default.read_only == before.default.read_only
    &&& r.providers@.dom() == before.providers@.dom().insert(name)
    &&& forall|k: Seq<char>|
        k != name && before.providers@.contains_key(k) ==> #[trigger] r.providers@[k]
            == before.providers@[k]
    &&& overlaid_entry(entry_or_blank(before.providers@, name), p).same(r.providers@[name])
    &&& r.mcp.servers@ == match p.mcp_servers {
        Some(list) => kept(before.mcp.servers@, list@),
        None => before.mcp.servers@,
    }
    &&& r.mcp.curation == before.mcp.curation
    &&& r.security == before.security
    &&& r.profiles == before.profiles
    &&& r.tools == before.tools
    &&& r.session == before.session
    &&& r.inbound_webhook == before.inbound_webhook
    &&& r.compact == before.compact
    &&& r.plan == before.plan
    &&& r.file_cache == before.file_cache
    &&& r.hooks == before.hooks
    &&& r.bedrock == before.bedrock
    &&& r.vertex == before.vertex
    &&& r.debug == before.debug
    &&& r.observability == before.observability
    &&& r.provider_chain == before.provider_chain
    &&& r.budget == before.budget
    &&& r.storage == before.storage
    &&& r.memory == before.memory
    &&& r.browser == before.browser
    &&& r.session_cap == before.session_cap
    &&& r.crucible == before.crucible
}

/// Whether `kept` of two lists with the same texts is the same.
proof fn lemma_kept_same<V>(m: Map<Seq<char>, V>, a: Vec<String>, b: Vec<String>)
    requires
        a.same(b),
    ensures
        kept(m, a@) == kept(m, b@),
{
    assert forall|k: Seq<char>| listed(a@, k) == listed(b@, k) by {
        if listed(a@, k) {
            let i = choose|i: int| 0 <= i < a@.len() && (#[trigger] a@[i])@ == k;
            assert(a@[i].same(b@[i]));
            assert(b@[i]@ == k);
        }
        if listed(b@, k) {
            let i = choose|i: int| 0 <= i < b@.len() && (#[trigger] b@[i])@ == k;
            assert(a@[i].same(b@[i]));
            assert(a@[i]@ == k);
        }
    }
    assert(kept(m, a@) =~= kept(m, b@));
}

proof fn lemma_overlay_keeps_same(base: ProviderConfig, p: ProfileConfig, q: ProfileConfig)
    requires
        p.same(q),
        base.same(base),
    ensures
        overlaid_entry(base, p).same(overlaid_entry(base, q)),
{
}

/// Whether `r` is the application of the profile `name` to `before`.
pub open spec fn profile_reports(
    before: ConfigFile,
    name: Seq<char>,
    r: Result<ConfigFile, ProfileResolveError>,
) -> bool {
    match outcome(before.profiles@, name, seq![]) {
        ProfileOutcome::Found(p) => r matches Ok(c) && is_applied(before, p, c),
        ProfileOutcome::Missing(n) => r matches Err(ProfileResolveError::NotFound(m)) && m@ == n,
        ProfileOutcome::Circular(seen, n) => r matches Err(
            ProfileResolveError::Circular { chain, again },
        ) && texts(chain@) == seen && again@ == n,
    }
}

/// Applies the profile `profile_name`, with all that it inherits, to `config`.
pub fn apply_profile(config: ConfigFile, profile_name: &str) -> (r: Result<
    ConfigFile,
    ProfileResolveError,
>)
    ensures
        profile_reports(config, profile_name@, r),
{
    let mut visited: Vec<String> = Vec::new();
    proof {
        assert(texts(visited@) =~= seq![]);
    }
    let profile = match resolve_profile(&config.profiles, profile_name, &mut visited) {
        Ok(p) => p,
        Err(e) => {
            return Err(e);
        },
    };
    let ghost found = outcome(config.profiles@, profile_name@, seq![])->Found_0;
    let ghost given = profile;
    let ghost before = config;
    let mut out = config;
    if let Some(provider) = profile.provider {
        out.default.provider = provider;
    }
    if let Some(model) = profile.model {
        out.default.model = Some(model);
    }
    if let Some(max_tokens) = profile.max_tokens {
        out.default.max_tokens = max_tokens;
    }
    if let Some(max_turns) = profile.max_turns {
        out.default.max_turns = Some(max_turns);
    }
    let name = out.default.provider.clone();
    let base = match out.providers.remove(name.as_str()) {
        Some(entry) => entry,
        None => ProviderConfig::default(),
    };
    let ghost old_base = entry_or_blank(before.providers@, name@);
    let entry = ProviderConfig {
        provider: base.provider,
        model: base.model,
        api_key: or_else(profile.api_key, base.api_key),
        base_url: or_else(profile.base_url, base.base_url),
        prompt_caching: base.prompt_caching,
        compat: match (base.compat, profile.compat) {
            (Some(existing), Some(own)) => Some(ProviderCompat::merge(existing, own)),
            (Some(existing), None) => Some(existing),
            (None, Some(own)) => Some(own),
            (None, None) => None,
        },
    };
    proof {
        assert(entry == overlaid_entry(old_base, given));
        old_base.same_as_itself();
        lemma_overlay_keeps_same(old_base, found, given);
    }
    out.providers.insert(name, entry);
    if let Some(list) = profile.mcp_servers {
        let McpConfig { servers, curation } = out.mcp;
        proof {
            lemma_kept_same(servers@, found.mcp_servers->0, list);
        }
        out.mcp = McpConfig { servers: servers.keep_listed(&list), curation };
    }
    proof {
        assert(out.providers@.dom() =~= before.providers@.dom().insert(out.default.provider@));
    }
    Ok(out)
}

} // verus!
