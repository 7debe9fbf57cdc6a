//! Where files are looked for, what a legacy file becomes, and how a posture, a window and a seat
//! are chosen.

use crate::anvil::{is_seat, AnvilConfig, DriverSeatPlan};
use crate::config::listing::row_shows;
use crate::config::load::ConfigLoadError;
use crate::config::migrate::{first_segment, is_migrated, LegacySettings};
use crate::config::paths::{
    config_dir, dotenv_path, has_control, home_of_profile, joined, HomeFacts,
};
use crate::config::posture::{mode_of_wire, strictness_of, wire_of};
use crate::config::provider::ProviderType;
use crate::config::types::{
    ApprovalMode, ConfigFile, EmbedderBackend, McpServerConfig, ProfileConfig,
};
use crate::context_window::{known_window, window_of};
use crate::limits::{ceiling_of, tier_window, ModelCeiling, ModelLimits};
use crate::model_aliases::{short_form, ModelAliases};
use crate::text::{ascii_lower, listed};
use vstd::prelude::*;

verus! {

/// A leaf is put under a directory with one slash between; an absolute leaf, or one put under
/// nothing, stands for itself.
pub proof fn law_joined_paths(dir: Seq<char>, leaf: Seq<char>)
    ensures
        dir.len() == 0 ==> joined(dir, leaf) == leaf,
        leaf.len() > 0 && leaf[0] == '/' ==> joined(dir, leaf) == leaf,
        dir.len() > 0 && dir.last() == '/' && !(leaf.len() > 0 && leaf[0] == '/') ==> joined(
            dir,
            leaf,
        ) == dir + leaf,
        dir.len() > 0 && dir.last() != '/' && !(leaf.len() > 0 && leaf[0] == '/') ==> joined(
            dir,
            leaf,
        ) == dir + seq!['/'] + leaf,
{
    reveal_strlit("/");
    assert("/"@ =~= seq!['/']);
}

/// The configuration directory: `GENESIS_HOME` itself, else `genesis-core` under the XDG data
/// directory, else under the system's, else under the working directory's own.
pub proof fn law_configuration_directory(f: HomeFacts)
    ensures
        f.genesis_home is Some ==> config_dir(f) == f.genesis_home->0@,
        f.genesis_home is None && f.xdg_data_home is Some ==> config_dir(f) == joined(
            f.xdg_data_home->0@,
            "genesis-core"@,
        ),
        f.genesis_home is None && f.xdg_data_home is None && f.os_config_dir is Some ==> config_dir(
            f,
        ) == joined(f.os_config_dir->0@, "genesis-core"@),
        f.genesis_home is None && f.xdg_data_home is None && f.os_config_dir is None ==> config_dir(
            f,
        ) == "genesis-core/genesis-core"@,
{
    reveal_strlit("genesis-core");
    reveal_strlit("/");
    reveal_strlit("genesis-core/genesis-core");
    assert("genesis-core"@.last() == 'e');
    assert("genesis-core"@[0] == 'g');
    assert("genesis-core"@ + "/"@ + "genesis-core"@ =~= "genesis-core/genesis-core"@);
}

/// A profile's home: `GENESIS_HOME` where it holds no control character, else `.genesis` under the
/// user's home, else under the working directory, else by itself.
pub proof fn law_profile_home(f: HomeFacts)
    ensures
        ({
            let usable = f.genesis_home is Some && forall|i: int|
                0 <= i < f.genesis_home->0@.len() ==> !((#[trigger] f.genesis_home->0@[i])
                    <= '\u{1f}' || ('\u{7f}' <= f.genesis_home->0@[i] && f.genesis_home->0@[i]
                    <= '\u{9f}'));
            &&& usable ==> home_of_profile(f) == f.genesis_home->0@
            &&& !usable && f.home_dir is Some ==> home_of_profile(f) == joined(
                f.home_dir->0@,
                ".genesis"@,
            )
            &&& !usable && f.home_dir is None && f.current_dir is Some ==> home_of_profile(f)
                == joined(f.current_dir->0@, ".genesis"@)
            &&& !usable && f.home_dir is None && f.current_dir is None ==> home_of_profile(f)
                == ".genesis"@
        }),
{
    if f.genesis_home is Some {
        let home = f.genesis_home->0@;
        if has_control(home) {
            let i = choose|i: int|
                0 <= i < home.len() && crate::config::paths::is_control(#[trigger] home[i]);
            assert(home[i] <= '\u{1f}' || ('\u{7f}' <= home[i] && home[i] <= '\u{9f}'));
        } else {
            assert forall|i: int| 0 <= i < home.len() implies !((#[trigger] home[i]) <= '\u{1f}'
                || (
            '\u{7f}' <= home[i] && home[i] <= '\u{9f}')) by {
                assert(!crate::config::paths::is_control(home[i]));
            }
        }
    }
}

/// The dotenv file: `.env` in the given directory, else in `.wayland` of the user's home.
pub proof fn law_dotenv_file(wayland_home: Option<Seq<char>>, f: HomeFacts)
    ensures
        wayland_home is Some ==> dotenv_path(wayland_home, f) == joined(wayland_home->0, ".env"@),
        wayland_home is None && f.home_dir is Some ==> dotenv_path(wayland_home, f) == joined(
            joined(f.home_dir->0@, ".wayland"@),
            ".env"@,
        ),
        wayland_home is None && f.home_dir is None ==> dotenv_path(wayland_home, f) == joined(
            ".wayland"@,
            ".env"@,
        ),
{
}

/// Asking each time is stricter than approving edits, and that is stricter than approving
/// everything.
pub proof fn law_order_of_postures()
    ensures
        strictness_of(ApprovalMode::Default) > strictness_of(ApprovalMode::AutoEdit),
        strictness_of(ApprovalMode::AutoEdit) > strictness_of(ApprovalMode::Force),
{
}

/// A posture's name on the wire; any other name asks each time.
pub proof fn law_posture_names(mode: ApprovalMode, s: Seq<char>)
    ensures
        mode == ApprovalMode::Default ==> wire_of(mode) == "default"@,
        mode == ApprovalMode::AutoEdit ==> wire_of(mode) == "auto-edit"@,
        mode == ApprovalMode::Force ==> wire_of(mode) == "force"@,
        s == "auto-edit"@ ==> mode_of_wire(s) == ApprovalMode::AutoEdit,
        s == "force"@ ==> mode_of_wire(s) == ApprovalMode::Force,
        s != "auto-edit"@ && s != "force"@ ==> mode_of_wire(s) == ApprovalMode::Default,
{
    reveal_strlit("auto-edit");
    reveal_strlit("force");
    assert("auto-edit"@.len() == 9);
    assert("force"@.len() == 5);
}

/// A server marked for assistants is seen by those that it names, and by nobody where none is
/// active; one that names none is seen by all.
pub proof fn law_marked_servers(server: McpServerConfig, active: Option<Seq<char>>)
    ensures
        server.only_for_assistant is None ==> server.visible_to(active),
        server.only_for_assistant matches Some(list) ==> {
            &&& list@.len() == 0 ==> server.visible_to(active)
            &&& list@.len() > 0 && active is None ==> !server.visible_to(active)
            &&& list@.len() > 0 && active is Some ==> (server.visible_to(active) <==> listed(
                list@,
                active->0,
            ))
        },
{
}

/// A legacy file's provider, unless it says `auto`, and its model become the defaults; its switch
/// for memory becomes the memory block's. Nothing else of the stock file changes but the address.
pub proof fn law_legacy_settings_carry_over(
    legacy: LegacySettings,
    stock: ConfigFile,
    r: ConfigFile,
)
    requires
        is_migrated(legacy, stock, r),
    ensures
        legacy.model is None ==> r.default.provider == stock.default.provider && r.default.model
            == stock.default.model && r.providers@ == stock.providers@,
        legacy.model matches Some(m) ==> {
            &&& m.provider is Some && m.provider->0@ != "auto"@ ==> r.default.provider
                == m.provider->0
            &&& m.provider is Some && m.provider->0@ == "auto"@ ==> r.default.provider
                == stock.default.provider
            &&& m.provider is None ==> r.default.provider == stock.default.provider
            &&& m.default is Some ==> r.default.model == m.default
            &&& m.default is None ==> r.default.model == stock.default.model
            &&& m.base_url is None ==> r.providers@ == stock.providers@
        },
        legacy.memory_enabled is None ==> r.memory == stock.memory,
        legacy.memory_enabled matches Some(on) ==> r.memory is Some && r.memory->0.enabled == on,
        legacy.memory_enabled is Some && stock.memory is Some
            ==> r.memory->0.dream_cycle_throttle_secs == stock.memory->0.dream_cycle_throttle_secs
            && r.memory->0.decay_interval_secs == stock.memory->0.decay_interval_secs
            && r.memory->0.embedder == stock.memory->0.embedder,
        legacy.memory_enabled is Some && stock.memory is None
            ==> r.memory->0.dream_cycle_throttle_secs == 1800 && r.memory->0.decay_interval_secs
            == 3600 && r.memory->0.embedder.backend == EmbedderBackend::Hashed,
        r.default.max_tokens == stock.default.max_tokens,
        r.default.max_turns == stock.default.max_turns,
        r.default.approval_mode == stock.default.approval_mode,
        r.default.system_prompt == stock.default.system_prompt,
        r.default.user == stock.default.user,
        r.default.read_only == stock.default.read_only,
        r.tools == stock.tools,
        r.profiles == stock.profiles,
        r.hooks == stock.hooks,
        r.mcp == stock.mcp,
        r.security == stock.security,
        r.session == stock.session,
        r.budget == stock.budget,
        r.storage == stock.storage,
{
}

/// A legacy file's address goes to the entry of the provider that it names. Where that is the
/// stock one, it goes to the provider before the slash of the model's name, and without a model to
/// `openrouter`. The entry keeps its other settings, and no other entry changes.
pub proof fn law_legacy_address_finds_its_provider(
    legacy: LegacySettings,
    stock: ConfigFile,
    r: ConfigFile,
    url: String,
    other: Seq<char>,
)
    requires
        is_migrated(legacy, stock, r),
        legacy.model is Some,
        legacy.model->0.base_url == Some(url),
    ensures
        ({
            let owner = if r.default.provider@ != "anthropic"@ {
                r.default.provider@
            } else if r.default.model is Some {
                first_segment(r.default.model->0@)
            } else {
                "openrouter"@
            };
            &&& r.providers@.contains_key(owner)
            &&& r.providers@[owner].base_url == Some(url)
            &&& stock.providers@.contains_key(owner) ==> {
                &&& r.providers@[owner].api_key == stock.providers@[owner].api_key
                &&& r.providers@[owner].model == stock.providers@[owner].model
                &&& r.providers@[owner].provider == stock.providers@[owner].provider
                &&& r.providers@[owner].prompt_caching == stock.providers@[owner].prompt_caching
                &&& r.providers@[owner].compat == stock.providers@[owner].compat
            }
            &&& !stock.providers@.contains_key(owner) ==> r.providers@[owner].api_key is None
                && r.providers@[owner].model is None && r.providers@[owner].provider is None
                && r.providers@[owner].prompt_caching is None && r.providers@[owner].compat is None
            &&& other != owner ==> (r.providers@.contains_key(other)
                <==> stock.providers@.contains_key(other))
            &&& other != owner && stock.providers@.contains_key(other) ==> r.providers@[other]
                == stock.providers@[other]
        }),
{
}

/// The part of a name before its first slash, or the name itself.
pub proof fn law_first_segment(head: Seq<char>, tail: Seq<char>)
    requires
        forall|i: int| 0 <= i < head.len() ==> (#[trigger] head[i]) != '/',
    ensures
        first_segment(head + seq!['/'] + tail) == head,
        first_segment(head) == head,
{
    let s = head + seq!['/'] + tail;
    let at = head.len() as int;
    assert(s[at] == '/');
    assert(s.contains('/'));
    s.index_of_first_ensures('/');
    head.index_of_first_ensures('/');
    assert(forall|i: int| 0 <= i < at ==> s[i] == head[i]);
    assert(s.index_of_first('/')->0 == at);
    assert(s.take(at) =~= head);
    assert(!head.contains('/'));
}

/// A row of the profiles' table: the name, the provider and the model, empty where the profile has
/// none.
pub proof fn law_profile_rows(row: (String, String, String), name: Seq<char>, p: ProfileConfig)
    requires
        row_shows(row, name, p),
    ensures
        row.0@ == name,
        p.provider is Some ==> row.1@ == p.provider->0@,
        p.provider is None ==> row.1@.len() == 0,
        p.model is Some ==> row.2@ == p.model->0@,
        p.model is None ==> row.2@.len() == 0,
{
}

/// What is said of a file that does not parse: which file, and why.
pub proof fn law_parse_failures_are_explained(e: ConfigLoadError)
    ensures
        e matches ConfigLoadError::ParseFailed { path, source } ==> e.says() == "failed to parse "@
            + path@ + ": "@ + source@,
{
}

/// A model's context window is the known one, else that of its tier, else the configured one where
/// that is not zero.
pub proof fn law_order_of_windows(known: Option<u64>, model: Seq<char>, config_window: u64)
    ensures
        known is Some ==> window_of(known, model, config_window) == known,
        ({
            let m = ascii_lower(model);
            let tier = m == "flux-auto"@ || m == "flux-fast"@ || m == "flux-standard"@ || m
                == "flux-reasoning"@;
            &&& known is None && tier ==> window_of(known, model, config_window) == Some(128000u64)
            &&& known is None && !tier && config_window > 0 ==> window_of(
                known,
                model,
                config_window,
            ) == Some(config_window)
            &&& known is None && !tier && config_window == 0 ==> window_of(
                known,
                model,
                config_window,
            ) is None
            &&& tier <==> tier_window(model) == Some(128000u64)
            &&& !tier <==> tier_window(model) is None
        }),
{
}

/// The limits of a model are those of the first entry for its provider and its name, in whatever
/// case the name is written.
pub proof fn law_first_ceiling_counts(
    ceilings: Seq<ModelCeiling>,
    provider: Seq<char>,
    model: Seq<char>,
    i: int,
)
    requires
        0 <= i < ceilings.len(),
        ceilings[i].provider@ == provider,
        ascii_lower(ceilings[i].model@) == ascii_lower(model),
        forall|j: int|
            0 <= j < i ==> (#[trigger] ceilings[j]).provider@ != provider || ascii_lower(
                ceilings[j].model@,
            ) != ascii_lower(model),
    ensures
        ceiling_of(ceilings, provider, model) == Some((ceilings[i].output, ceilings[i].window)),
    decreases i,
{
    if i > 0 {
        let rest = ceilings.drop_first();
        assert(ceilings[0].provider@ != provider || ascii_lower(ceilings[0].model@) != ascii_lower(
            model,
        ));
        assert forall|j: int| 0 <= j < i - 1 implies (#[trigger] rest[j]).provider@ != provider
            || ascii_lower(rest[j].model@) != ascii_lower(model) by {
            assert(rest[j] == ceilings[j + 1]);
        }
        law_first_ceiling_counts(rest, provider, model, i - 1);
    }
}

/// Limits that are found are those of an entry for the provider and the name; where none is found
/// there is no such entry, and no window is known.
pub proof fn law_ceilings_are_not_invented(
    limits: ModelLimits,
    provider: Seq<char>,
    model: Seq<char>,
)
    ensures
        match ceiling_of(limits.ceilings@, provider, model) {
            Some((output, window)) => known_window(limits, provider, model) == Some(window as u64)
                && exists|i: int|
                0 <= i < limits.ceilings@.len() && (#[trigger] limits.ceilings@[i]).provider@
                    == provider && ascii_lower(limits.ceilings@[i].model@) == ascii_lower(model)
                    && limits.ceilings@[i].output == output && limits.ceilings@[i].window == window,
            None => known_window(limits, provider, model) is None && forall|i: int|
                0 <= i < limits.ceilings@.len() ==> (#[trigger] limits.ceilings@[i]).provider@
                    != provider || ascii_lower(limits.ceilings@[i].model@) != ascii_lower(model),
        },
{
    lemma_ceiling(limits.ceilings@, provider, model);
}

proof fn lemma_ceiling(ceilings: Seq<ModelCeiling>, provider: Seq<char>, model: Seq<char>)
    ensures
        match ceiling_of(ceilings, provider, model) {
            Some((output, window)) => exists|i: int|
                0 <= i < ceilings.len() && (#[trigger] ceilings[i]).provider@ == provider
                    && ascii_lower(ceilings[i].model@) == ascii_lower(model) && ceilings[i].output
                    == output && ceilings[i].window == window,
            None => forall|i: int|
                0 <= i < ceilings.len() ==> (#[trigger] ceilings[i]).provider@ != provider
                    || ascii_lower(ceilings[i].model@) != ascii_lower(model),
        },
    decreases ceilings.len(),
{
    if ceilings.len() > 0 {
        if ceilings[0].is_for(provider, model) {
            assert(ceilings[0].provider@ == provider);
        } else {
            let rest = ceilings.drop_first();
            lemma_ceiling(rest, provider, model);
            match ceiling_of(rest, provider, model) {
                Some((output, window)) => {
                    let i = choose|i: int|
                        0 <= i < rest.len() && (#[trigger] rest[i]).provider@ == provider
                            && ascii_lower(rest[i].model@) == ascii_lower(model) && rest[i].output
                            == output && rest[i].window == window;
                    assert(ceilings[i + 1] == rest[i]);
                },
                None => {
                    assert forall|i: int| 0 <= i < ceilings.len() implies (
                    #[trigger] ceilings[i]).provider@ != provider || ascii_lower(ceilings[i].model@)
                        != ascii_lower(model) by {
                        if i > 0 {
                            assert(rest[i - 1] == ceilings[i]);
                        }
                    }
                },
            }
        }
    }
}

/// A short form of a model's name stands for what the table has for it, to the letter.
pub proof fn law_short_forms(models: ModelAliases, model: Seq<char>)
    ensures
        models.short_forms@.contains_key(model) ==> short_form(models, model) == Some(
            models.short_forms@[model]@,
        ),
        !models.short_forms@.contains_key(model) ==> short_form(models, model) is None,
{
}

/// Builders run on the configured provider with the configured model; on the session's provider
/// where only a model is configured; on the Flux router where that is connected and the session
/// runs elsewhere; else on the session's provider, with its middle tier where it has one.
pub proof fn law_order_of_seats(
    plan: DriverSeatPlan,
    cfg: AnvilConfig,
    session: ProviderType,
    connected: Seq<ProviderType>,
    mid_tier: Seq<char>,
)
    requires
        is_seat(plan, cfg, session, connected, mid_tier),
    ensures
        cfg.driver_provider is Some ==> (plan matches DriverSeatPlan::Provider { provider, model }
            && provider@ == cfg.driver_provider->0@ && (model is Some <==> cfg.driver_model is Some)
            && (model is Some ==> model->0@ == cfg.driver_model->0@)),
        cfg.driver_provider is None && cfg.driver_model is Some ==> (plan
            matches DriverSeatPlan::SessionModel { model } && model@ == cfg.driver_model->0@),
        cfg.driver_provider is None && cfg.driver_model is None && session
            != ProviderType::FluxRouter && connected.contains(ProviderType::FluxRouter) ==> (plan
            matches DriverSeatPlan::Provider { provider, model } && provider@ == "flux-router"@
            && model is Some && model->0@ == "flux-auto"@),
        cfg.driver_provider is None && cfg.driver_model is None && (session
            == ProviderType::FluxRouter || !connected.contains(ProviderType::FluxRouter))
            && mid_tier.len() == 0 ==> plan is Session,
        cfg.driver_provider is None && cfg.driver_model is None && (session
            == ProviderType::FluxRouter || !connected.contains(ProviderType::FluxRouter))
            && mid_tier.len() > 0 ==> (plan matches DriverSeatPlan::SessionModel { model } && model@
            == mid_tier),
{
    assert(crate::anvil::has_flux(connected) <==> connected.contains(ProviderType::FluxRouter));
}

} // verus!
