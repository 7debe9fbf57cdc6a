//! What a named profile means: which settings stand where one profile extends another, and what
//! applying one does to a configuration.

use crate::compat::merged_compat;
use crate::config::overlay::{
    is_applied, merged_profile, outcome, profile_reports, reports, texts, trail, ProfileOutcome,
    ProfileResolveError,
};
use crate::config::types::{ConfigFile, ProfileConfig};
use crate::replica::Replica;
use crate::text::listed;
use vstd::prelude::*;

verus! {

/// A profile found stands with every setting that it gives itself, whatever it extends.
pub proof fn law_own_settings_stand(
    profiles: Map<Seq<char>, ProfileConfig>,
    name: Seq<char>,
    seen: Seq<Seq<char>>,
    found: ProfileConfig,
)
    requires
        profiles.dom().finite(),
        outcome(profiles, name, seen) == ProfileOutcome::Found(found),
    ensures
        profiles.contains_key(name),
        !seen.contains(name),
        found.extends is None,
        profiles[name].provider is Some ==> found.provider == profiles[name].provider,
        profiles[name].model is Some ==> found.model == profiles[name].model,
        profiles[name].api_key is Some ==> found.api_key == profiles[name].api_key,
        profiles[name].base_url is Some ==> found.base_url == profiles[name].base_url,
        profiles[name].max_tokens is Some ==> found.max_tokens == profiles[name].max_tokens,
        profiles[name].max_turns is Some ==> found.max_turns == profiles[name].max_turns,
        profiles[name].mcp_servers is Some ==> found.mcp_servers == profiles[name].mcp_servers,
        profiles[name].compat is Some ==> found.compat == profiles[name].compat,
{
}

/// A profile that extends another has of the other only the settings that it lacks itself.
pub proof fn law_parent_fills_the_gaps(
    profiles: Map<Seq<char>, ProfileConfig>,
    name: Seq<char>,
    seen: Seq<Seq<char>>,
    parent: String,
    base: ProfileConfig,
)
    requires
        profiles.dom().finite(),
        !seen.contains(name),
        profiles.contains_key(name),
        profiles[name].extends == Some(parent),
        outcome(profiles, parent@, seen.push(name)) == ProfileOutcome::Found(base),
    ensures
        outcome(profiles, name, seen) matches ProfileOutcome::Found(found) && {
            &&& found.extends is None
            &&& profiles[name].provider is Some ==> found.provider == profiles[name].provider
            &&& profiles[name].provider is None ==> found.provider == base.provider
            &&& profiles[name].model is Some ==> found.model == profiles[name].model
            &&& profiles[name].model is None ==> found.model == base.model
            &&& profiles[name].api_key is Some ==> found.api_key == profiles[name].api_key
            &&& profiles[name].api_key is None ==> found.api_key == base.api_key
            &&& profiles[name].base_url is Some ==> found.base_url == profiles[name].base_url
            &&& profiles[name].base_url is None ==> found.base_url == base.base_url
            &&& profiles[name].max_tokens is Some ==> found.max_tokens == profiles[name].max_tokens
            &&& profiles[name].max_tokens is None ==> found.max_tokens == base.max_tokens
            &&& profiles[name].max_turns is Some ==> found.max_turns == profiles[name].max_turns
            &&& profiles[name].max_turns is None ==> found.max_turns == base.max_turns
            &&& profiles[name].mcp_servers is Some ==> found.mcp_servers
                == profiles[name].mcp_servers
            &&& profiles[name].mcp_servers is None ==> found.mcp_servers == base.mcp_servers
            &&& profiles[name].compat is Some ==> found.compat == profiles[name].compat
            &&& profiles[name].compat is None ==> found.compat == base.compat
        },
{
}

/// A profile that extends nothing is found as it is written.
pub proof fn law_plain_profile_is_itself(
    profiles: Map<Seq<char>, ProfileConfig>,
    name: Seq<char>,
    seen: Seq<Seq<char>>,
)
    requires
        profiles.dom().finite(),
        !seen.contains(name),
        profiles.contains_key(name),
        profiles[name].extends is None,
    ensures
        outcome(profiles, name, seen) == ProfileOutcome::Found(profiles[name]),
        trail(profiles, name, seen) == seen.push(name),
{
}

/// A name that no profile has is missing, a name met before closes a circle, and what becomes of
/// the parent's name becomes of the child where the parent is not found.
pub proof fn law_lost_profiles(
    profiles: Map<Seq<char>, ProfileConfig>,
    name: Seq<char>,
    seen: Seq<Seq<char>>,
)
    requires
        profiles.dom().finite(),
    ensures
        seen.contains(name) ==> outcome(profiles, name, seen) == ProfileOutcome::Circular(
            seen,
            name,
        ) && trail(profiles, name, seen) == seen,
        !seen.contains(name) && !profiles.contains_key(name) ==> outcome(profiles, name, seen)
            == ProfileOutcome::Missing(name) && trail(profiles, name, seen) == seen.push(name),
        !seen.contains(name) && profiles.contains_key(name) && profiles[name].extends is Some
            ==> trail(profiles, name, seen) == trail(
            profiles,
            profiles[name].extends->0@,
            seen.push(name),
        ) && (!(outcome(profiles, profiles[name].extends->0@, seen.push(name)) is Found)
            ==> outcome(profiles, name, seen) == outcome(
            profiles,
            profiles[name].extends->0@,
            seen.push(name),
        )),
{
}

/// A profile that extends itself is never found: the circle is reported with its name.
pub proof fn law_self_extension_is_circular(
    profiles: Map<Seq<char>, ProfileConfig>,
    name: Seq<char>,
    parent: String,
)
    requires
        profiles.dom().finite(),
        profiles.contains_key(name),
        profiles[name].extends == Some(parent),
        parent@ == name,
    ensures
        outcome(profiles, name, seq![]) == ProfileOutcome::Circular(seq![name], name),
{
    let none = Seq::<Seq<char>>::empty();
    assert(!none.contains(name));
    assert(none.push(name) =~= seq![name]);
    assert(seq![name][0] == name);
    assert(seq![name].contains(name));
    law_lost_profiles(profiles, name, seq![name]);
}

/// What the caller gets of a profile that is there: its own settings, to the letter.
pub proof fn law_own_settings_are_reported(
    profiles: Map<Seq<char>, ProfileConfig>,
    name: Seq<char>,
    seen: Seq<Seq<char>>,
    c: ProfileConfig,
)
    requires
        profiles.dom().finite(),
        reports(outcome(profiles, name, seen), Ok(c)),
    ensures
        profiles.contains_key(name),
        c.extends is None,
        profiles[name].provider is Some ==> c.provider is Some && c.provider->0@
            == profiles[name].provider->0@,
        profiles[name].model is Some ==> c.model is Some && c.model->0@
            == profiles[name].model->0@,
        profiles[name].api_key is Some ==> c.api_key is Some && c.api_key->0@
            == profiles[name].api_key->0@,
        profiles[name].base_url is Some ==> c.base_url is Some && c.base_url->0@
            == profiles[name].base_url->0@,
        profiles[name].max_tokens is Some ==> c.max_tokens == profiles[name].max_tokens,
        profiles[name].max_turns is Some ==> c.max_turns == profiles[name].max_turns,
        profiles[name].mcp_servers is Some ==> c.mcp_servers is Some && texts(
            c.mcp_servers->0@,
        ) == texts(profiles[name].mcp_servers->0@),
        profiles[name].compat is Some ==> c.compat is Some && profiles[name].compat->0.same(
            c.compat->0,
        ),
{
    if profiles[name].mcp_servers is Some {
        let mine = profiles[name].mcp_servers->0;
        let got = c.mcp_servers->0;
        assert(mine.same(got));
        assert(texts(got@) =~= texts(mine@)) by {
            assert forall|i: int| 0 <= i < mine@.len() implies texts(got@)[i]
                == texts(mine@)[i] by {
                assert(mine@[i].same(got@[i]));
            }
        }
    }
}

/// Failures are told apart: a missing name is reported as not found, a circle with the names on
/// the way and the one met again.
pub proof fn law_failures_are_named(
    profiles: Map<Seq<char>, ProfileConfig>,
    name: Seq<char>,
    seen: Seq<Seq<char>>,
    e: ProfileResolveError,
)
    requires
        profiles.dom().finite(),
        reports(outcome(profiles, name, seen), Err(e)),
    ensures
        seen.contains(name) ==> (e matches ProfileResolveError::Circular { chain, again } && texts(
            chain@,
        ) == seen && again@ == name),
        !seen.contains(name) && !profiles.contains_key(name) ==> (e
            matches ProfileResolveError::NotFound(n) && n@ == name),
{
}

/// Of two profiles each setting of the upper one stands, and the lower one's stands where the upper
/// has none.
pub proof fn law_upper_profile_settings_win(base: ProfileConfig, overlay: ProfileConfig)
    ensures
        merged_profile(base, overlay).extends is None,
        overlay.provider is Some ==> merged_profile(base, overlay).provider == overlay.provider,
        overlay.provider is None ==> merged_profile(base, overlay).provider == base.provider,
        overlay.model is Some ==> merged_profile(base, overlay).model == overlay.model,
        overlay.model is None ==> merged_profile(base, overlay).model == base.model,
        overlay.api_key is Some ==> merged_profile(base, overlay).api_key == overlay.api_key,
        overlay.api_key is None ==> merged_profile(base, overlay).api_key == base.api_key,
        overlay.base_url is Some ==> merged_profile(base, overlay).base_url == overlay.base_url,
        overlay.base_url is None ==> merged_profile(base, overlay).base_url == base.base_url,
        overlay.max_tokens is Some ==> merged_profile(base, overlay).max_tokens
            == overlay.max_tokens,
        overlay.max_tokens is None ==> merged_profile(base, overlay).max_tokens == base.max_tokens,
        overlay.max_turns is Some ==> merged_profile(base, overlay).max_turns == overlay.max_turns,
        overlay.max_turns is None ==> merged_profile(base, overlay).max_turns == base.max_turns,
        overlay.mcp_servers is Some ==> merged_profile(base, overlay).mcp_servers
            == overlay.mcp_servers,
        overlay.mcp_servers is None ==> merged_profile(base, overlay).mcp_servers
            == base.mcp_servers,
        overlay.compat is Some ==> merged_profile(base, overlay).compat == overlay.compat,
        overlay.compat is None ==> merged_profile(base, overlay).compat == base.compat,
{
}

/// Applying a profile: the provider, the model and the limits that it names become the defaults;
/// what it does not name stays, and so does the rest of `[default]`.
pub proof fn law_profile_sets_the_defaults(before: ConfigFile, p: ProfileConfig, r: ConfigFile)
    requires
        is_applied(before, p, r),
    ensures
        p.provider is Some ==> r.default.provider@ == p.provider->0@,
        p.provider is None ==> r.default.provider@ == before.default.provider@,
        p.model is Some ==> r.default.model is Some && r.default.model->0@ == p.model->0@,
        p.model is None ==> before.default.model.same(r.default.model),
        p.model is None && before.default.model is Some ==> r.default.model is Some
            && r.default.model->0@ == before.default.model->0@,
        p.model is None && before.default.model is None ==> r.default.model is None,
        p.max_tokens is Some ==> r.default.max_tokens == p.max_tokens->0,
        p.max_tokens is None ==> r.default.max_tokens == before.default.max_tokens,
        p.max_turns is Some ==> r.default.max_turns == p.max_turns,
        p.max_turns is None ==> r.default.max_turns == before.default.max_turns,
        r.default.approval_mode == before.default.approval_mode,
        r.default.system_prompt == before.default.system_prompt,
        r.default.user == before.default.user,
        r.default.read_only == before.default.read_only,
{
}

/// The profile's key and address go to the entry of the provider that it leaves in force, where
/// they replace what the entry had; the entry keeps the rest, and no other entry changes.
pub proof fn law_profile_reaches_its_provider(
    before: ConfigFile,
    p: ProfileConfig,
    r: ConfigFile,
    other: Seq<char>,
)
    requires
        is_applied(before, p, r),
        before.providers@.dom().finite(),
    ensures
        ({
            let name = r.default.provider@;
            let had = before.providers@.contains_key(name);
            let old_entry = before.providers@[name];
            let got = r.providers@[name];
            &&& r.providers@.contains_key(name)
            &&& p.api_key is Some ==> got.api_key is Some && got.api_key->0@ == p.api_key->0@
            &&& p.api_key is None && had ==> old_entry.api_key.same(got.api_key)
            &&& p.api_key is None && !had ==> got.api_key is None
            &&& p.base_url is Some ==> got.base_url is Some && got.base_url->0@ == p.base_url->0@
            &&& p.base_url is None && had ==> old_entry.base_url.same(got.base_url)
            &&& p.base_url is None && !had ==> got.base_url is None
            &&& had ==> old_entry.provider.same(got.provider)
            &&& !had ==> got.provider is None
            &&& had ==> old_entry.model.same(got.model)
            &&& !had ==> got.model is None
            &&& had ==> old_entry.prompt_caching.same(got.prompt_caching)
            &&& !had ==> got.prompt_caching is None
            &&& p.compat is Some && !(had && old_entry.compat is Some) ==> p.compat.same(got.compat)
            &&& p.compat is None && had ==> old_entry.compat.same(got.compat)
            &&& p.compat is None && !had ==> got.compat is None
            &&& p.compat is Some && had && old_entry.compat is Some ==> Some(
                merged_compat(old_entry.compat->0, p.compat->0),
            ).same(got.compat)
            &&& other != name ==> (r.providers@.contains_key(other)
                <==> before.providers@.contains_key(other))
            &&& other != name && before.providers@.contains_key(other) ==> r.providers@[other]
                == before.providers@[other]
        }),
{
    let name = r.default.provider@;
    assert(before.providers@.dom().insert(name).contains(other) <==> other == name
        || before.providers@.contains_key(other));
    assert(r.providers@.dom().contains(name));
}

/// A profile that lists servers leaves those of the configured ones that it lists; one that lists
/// none leaves them all. Every other block stays.
pub proof fn law_profile_selects_servers(
    before: ConfigFile,
    p: ProfileConfig,
    r: ConfigFile,
    server: Seq<char>,
)
    requires
        is_applied(before, p, r),
    ensures
        p.mcp_servers is None ==> r.mcp.servers@ == before.mcp.servers@,
        p.mcp_servers is Some ==> (r.mcp.servers@.contains_key(server)
            <==> before.mcp.servers@.contains_key(server) && listed(p.mcp_servers->0@, server)),
        r.mcp.servers@.contains_key(server) ==> r.mcp.servers@[server]
            == before.mcp.servers@[server],
        r.mcp.curation == before.mcp.curation,
        r.security == before.security,
        r.profiles == before.profiles,
        r.tools == before.tools,
        r.session == before.session,
        r.inbound_webhook == before.inbound_webhook,
        r.compact == before.compact,
        r.plan == before.plan,
        r.file_cache == before.file_cache,
        r.hooks == before.hooks,
        r.bedrock == before.bedrock,
        r.vertex == before.vertex,
        r.debug == before.debug,
        r.observability == before.observability,
        r.provider_chain == before.provider_chain,
        r.budget == before.budget,
        r.storage == before.storage,
        r.memory == before.memory,
        r.browser == before.browser,
        r.session_cap == before.session_cap,
        r.crucible == before.crucible,
{
}

/// Applying a profile by name: its own settings, not its parent's, become the defaults, whatever
/// it extends; and a name that no profile has changes nothing and is reported.
pub proof fn law_named_profile_applies(
    before: ConfigFile,
    name: Seq<char>,
    r: Result<ConfigFile, ProfileResolveError>,
)
    requires
        before.profiles@.dom().finite(),
        profile_reports(before, name, r),
    ensures
        !before.profiles@.contains_key(name) ==> (r matches Err(ProfileResolveError::NotFound(n))
            && n@ == name),
        r is Ok ==> before.profiles@.contains_key(name),
        before.profiles@.contains_key(name) && before.profiles@[name].extends is None ==> r is Ok,
        r matches Ok(c) ==> {
            let own = before.profiles@[name];
            let entry = c.providers@[c.default.provider@];
            &&& own.provider is Some ==> c.default.provider@ == own.provider->0@
            &&& own.model is Some ==> c.default.model is Some && c.default.model->0@
                == own.model->0@
            &&& own.max_tokens is Some ==> c.default.max_tokens == own.max_tokens->0
            &&& own.max_turns is Some ==> c.default.max_turns == own.max_turns
            &&& own.api_key is Some ==> entry.api_key is Some && entry.api_key->0@
                == own.api_key->0@
            &&& own.base_url is Some ==> entry.base_url is Some && entry.base_url->0@
                == own.base_url->0@
        },
{
    let none = Seq::<Seq<char>>::empty();
    assert(!none.contains(name));
    match outcome(before.profiles@, name, none) {
        ProfileOutcome::Found(p) => {
            law_own_settings_stand(before.profiles@, name, none, p);
        },
        _ => {},
    }
}

} // verus!
