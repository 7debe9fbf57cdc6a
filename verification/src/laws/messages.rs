//! What is said to the user, to the letter.

use crate::config::alias::ProviderResolveError;
use crate::config::keys::{MissingApiKey, NO_KEY};
use crate::config::overlay::{arrow_chain, texts, ProfileResolveError};
use crate::config::provider::BUILTIN_PROVIDER_NAMES;
use crate::config::redact::NOT_A_TABLE;
use crate::config::resolve::ResolveError;
use crate::credentials::document::CROWDED;
use crate::credentials::encrypted_file::decrypted;
use crate::credentials::stores::KEYRING_PROBE;
use crate::credentials::vault::{utf8_complaint, vault_text, UnlockedVault};
use crate::debug_text::{items_shown, key_presence, presence, DebugText};
use crate::env_file::{header, entry_line, encoded, rendered, EnvFileError};
use crate::hooks::shell::{glob_matches, has_backslash, is_hit};
use crate::keychain::NO_ENTRY;
use crate::quote::quoted;
use crate::text::is_space;
use vstd::prelude::*;
use vstd::utf8::valid_utf8;

verus! {

/// A chain of names is written with an arrow between each two.
pub proof fn law_chains_of_names(list: Seq<Seq<char>>, last: Seq<char>)
    ensures
        arrow_chain(Seq::empty()).len() == 0,
        arrow_chain(seq![last]) == last,
        list.len() > 0 ==> arrow_chain(list.push(last)) == arrow_chain(list) + " -> "@ + last,
{
    assert(list.push(last).drop_last() =~= list);
    assert(seq![last][0] == last);
}

/// Why a profile is not resolved.
pub proof fn law_profile_resolution_is_explained(e: ProfileResolveError)
    ensures
        e matches ProfileResolveError::NotFound(name) ==> e.sentence() == "Profile '"@ + name@
            + "' not found in config"@,
        e matches ProfileResolveError::Circular { chain, again } ==> e.sentence()
            == "Circular profile inheritance detected: "@ + arrow_chain(texts(chain@)) + " -> "@
            + again@,
{
}

/// Why a provider is not resolved: the name, and what would have been understood.
pub proof fn law_provider_resolution_is_explained(
    e: ProviderResolveError,
    r: ResolveError,
    p: ProfileResolveError,
    m: MissingApiKey,
)
    ensures
        e matches ProviderResolveError::Unknown(name) ==> e.sentence() == "Unknown provider: '"@
            + name@ + "'. Expected a built-in provider ("@ + BUILTIN_PROVIDER_NAMES@
            + ") or a custom alias defined in [providers."@ + name@ + "]."@,
        e matches ProviderResolveError::Unmapped(name) ==> e.sentence() == "Provider alias '"@
            + name@ + "' requires a 'provider' field in [providers."@ + name@
            + "] that maps to a built-in type ("@ + BUILTIN_PROVIDER_NAMES@ + ")."@,
        e matches ProviderResolveError::Dangling { alias, underlying } ==> e.sentence()
            == "Provider alias '"@ + alias@ + "' maps to '"@ + underlying@
            + "', which is not a built-in provider. Use one of: "@ + BUILTIN_PROVIDER_NAMES@ + "."@,
        ResolveError::Profile(p).says() == p.sentence(),
        ResolveError::Provider(e).says() == e.sentence(),
        ResolveError::MissingApiKey(m).says() == NO_KEY@,
{
}

/// Why a variable is not written to the dotenv file.
pub proof fn law_dotenv_failures_are_explained(e: EnvFileError)
    ensures
        e matches EnvFileError::InvalidKey(key) ==> e.says() == "invalid env var key: "@ + quoted(
            key@,
        ) + " (must match ^[A-Z][A-Z0-9_]*$)"@,
        e is InvalidValue ==> e.says()
            == "invalid env var value: contains newline, carriage-return, or NUL byte"@,
        e matches EnvFileError::Io(why) ==> e.says() == "env file I/O error: "@ + why@,
        e matches EnvFileError::Persist(why) ==> e.says() == "env file persist error: "@ + why@,
{
}

/// The dotenv file is its header and then each variable on a line of its own.
pub proof fn law_dotenv_layout(
    entries: Seq<(String, String)>,
    last: (String, String),
    k: Seq<char>,
    v: Seq<char>,
)
    ensures
        rendered(Seq::empty()) == header(),
        rendered(entries.push(last)) == rendered(entries) + entry_line(last.0@, last.1@),
        entry_line(k, v) == k + seq!['='] + encoded(v) + seq!['\n'],
{
    assert(entries.push(last).drop_last() =~= entries);
}

/// The fixed notices.
pub proof fn law_fixed_notices()
    ensures
        NOT_A_TABLE@ == "configuration is not a table"@,
        CROWDED@ == "value has too many quotes in a row"@,
        NO_ENTRY@ == "No matching entry found in secure storage"@,
        KEYRING_PROBE@ == "__genesis_core_keyring_probe__"@,
{
}

/// A vault that opens to what is no UTF-8 is reported with what is wrong with it.
pub proof fn law_vault_must_be_text(vault: UnlockedVault, bytes: Seq<u8>, plain: Seq<u8>)
    requires
        decrypted(bytes, vault.passphrase@, vault.params) matches Ok(p) && p == plain,
        !valid_utf8(plain),
    ensures
        vault_text(vault, Some(bytes)) == Err::<Option<Seq<char>>, Seq<char>>(
            "vault plaintext utf8: "@ + utf8_complaint(plain),
        ),
{
}

/// Of a secret it is shown only whether there is one.
pub proof fn law_secrets_are_shown_as_present(secret: Option<String>, key: Seq<char>)
    ensures
        secret is Some ==> presence(secret) == "Some(\"<redacted>\")"@,
        secret is None ==> presence(secret) == "None"@,
        key.len() == 0 ==> key_presence(key) == "\"<none>\""@,
        key.len() > 0 ==> key_presence(key) == "\"<redacted>\""@,
{
}

/// How lists, switches and optional settings are shown.
pub proof fn law_shown_settings<T: DebugText>(items: Seq<T>, last: T, all: Vec<T>, on: bool)
    ensures
        items_shown(Seq::<T>::empty()).len() == 0,
        items_shown(seq![last]) == last.shown(),
        items.len() > 0 ==> items_shown(items.push(last)) == items_shown(items) + ", "@
            + last.shown(),
        all.shown() == "["@ + items_shown(all@) + "]"@,
        Some(last).shown() == "Some("@ + last.shown() + ")"@,
        None::<T>.shown() == "None"@,
        on ==> on.shown() == "true"@,
        !on ==> on.shown() == "false"@,
{
    assert(items.push(last).drop_last() =~= items);
    assert(seq![last][0] == last);
}

/// The blanks of Unicode, and no others.
pub proof fn law_blanks_of_unicode(c: char)
    ensures
        is_space(c) <==> {
            ||| c == '\u{9}' || c == '\u{a}' || c == '\u{b}' || c == '\u{c}' || c == '\u{d}'
            ||| c == '\u{20}' || c == '\u{85}' || c == '\u{a0}' || c == '\u{1680}'
            ||| ('\u{2000}' <= c && c <= '\u{200a}')
            ||| c == '\u{2028}' || c == '\u{2029}' || c == '\u{202f}' || c == '\u{205f}' || c
                == '\u{3000}'
        },
{
}

/// A pattern is asked of a value as the glob has it. Where the two readings of a backslash agree,
/// and always where neither holds one, that is the answer.
pub proof fn law_hits_are_the_globs(hit: bool, pattern: Seq<char>, value: Seq<char>)
    requires
        is_hit(hit, pattern, value),
    ensures
        glob_matches(pattern, value, true) && glob_matches(pattern, value, false) ==> hit,
        !glob_matches(pattern, value, true) && !glob_matches(pattern, value, false) ==> !hit,
        !pattern.contains('\\') && !value.contains('\\') ==> hit == glob_matches(
            pattern,
            value,
            true,
        ) && hit == glob_matches(pattern, value, false),
        has_backslash(pattern) <==> pattern.contains('\\'),
{
}

} // verus!
