//! Where credentials are kept, what the vault opens with, how plaintext moves into it, and which
//! servers a discovery file offers.

use crate::config::paths::joined;
use crate::credentials::document::document_of;
use crate::credentials::encrypted_file::{
    argon2id, base64_bytes, base64_text, blob_of, cost_refusal, decrypted, derived, opened,
    opened_blob, sealed, too_long_to_seal, Failure, KdfParams,
};
use crate::credentials::error::CredentialsError;
use crate::credentials::lock::{abandoned, nonce_of, LOCK_FILE, LOCK_PAUSE_MS, LOCK_TRIES};
use crate::credentials::migration::{
    awaits, is_checked, is_first_missing, is_import, is_step, resolves_all, Action, Ending, Event,
    Loaded, Stage,
};
use crate::credentials::secrets::{
    first_text, found, held, pair_texts, secret, secret_in, string_entries, with_secret,
    without_secret,
};
use crate::credentials::stores::{
    is_plan, permission_warning, service_of, OpenStore, StoreFacts, StorePlan,
};
use crate::credentials::vault::{
    descriptor_refusal, is_written, unlocks, vault_document, vault_text, without_newlines,
    UnlockedVault,
};
use crate::credentials::{CredentialsBackend, CredentialsStorageConfig};
use crate::forge_discovery::{
    advertised, are_described, describes, is_server, servers_among, DiscoveredMcpServer,
};
use crate::keychain::{entry_service, KeychainError};
use crate::numbers::digits;
use crate::value::{lookup, Tree, Value};
use vstd::prelude::*;
use vstd::utf8::{decode_utf8, encode_utf8, valid_utf8};

verus! {

/// Which store is opened. Left to itself, an isolated home uses the vault where it can be unlocked
/// and else the plaintext file; any other home uses the keyring, with the plaintext file behind
/// it, where the keyring works, and else the plaintext file.
pub proof fn law_store_by_itself(
    plan: StorePlan,
    cfg: CredentialsStorageConfig,
    path: Seq<char>,
    dir: Seq<char>,
    facts: StoreFacts,
)
    requires
        is_plan(plan, cfg, path, dir, facts),
        cfg.backend is Auto,
    ensures
        facts.isolated_home && facts.unlock_material ==> (plan matches StorePlan::AfterMigration(
            vault,
            plain,
        ) && vault.cipher_path@ == joined(dir, "credentials.enc"@) && vault.key_params_path@
            == joined(dir, "credentials.kdf.json"@) && vault.unlocked is None && plain is Some
            && plain->0.place() == path),
        facts.isolated_home && !facts.unlock_material ==> (plan matches StorePlan::Ready(
            OpenStore::Plaintext(plain),
            warn,
        ) && plain.place() == path && warn),
        !facts.isolated_home && facts.keyring_works ==> (plan matches StorePlan::Ready(
            OpenStore::Fallback(ring, plain),
            warn,
        ) && plain.place() == path && !warn && (cfg.service_name is Some ==> ring.name()
            == cfg.service_name->0@) && (cfg.service_name is None ==> ring.name()
            == "genesis-core"@)),
        !facts.isolated_home && !facts.keyring_works ==> (plan matches StorePlan::Ready(
            OpenStore::Plaintext(plain),
            warn,
        ) && plain.place() == path && !warn),
{
}

/// A store that is configured is the one that is opened, whatever the machine offers.
pub proof fn law_configured_store(
    plan: StorePlan,
    cfg: CredentialsStorageConfig,
    path: Seq<char>,
    dir: Seq<char>,
    facts: StoreFacts,
)
    requires
        is_plan(plan, cfg, path, dir, facts),
    ensures
        cfg.backend is Plaintext ==> (plan matches StorePlan::Ready(
            OpenStore::Plaintext(plain),
            warn,
        ) && plain.place() == path && !warn),
        cfg.backend is Keyring ==> (plan matches StorePlan::Ready(OpenStore::Keyring(ring), warn)
            && !warn && (cfg.service_name is Some ==> ring.name() == cfg.service_name->0@) && (
        cfg.service_name is None ==> ring.name() == "genesis-core"@)),
        cfg.backend matches CredentialsBackend::EncryptedFile { cipher_path, key_params_path } ==> (
        plan matches StorePlan::AfterMigration(vault, plain) && vault.cipher_path@ == cipher_path@
            && vault.key_params_path@ == key_params_path@ && vault.unlocked is None && plain
            is None),
{
}

/// The keyring service is the configured one, else `genesis-core`; an entry's service begins with
/// that name and a dot.
pub proof fn law_service_names(cfg: CredentialsStorageConfig, service: Seq<char>)
    ensures
        cfg.service_name is Some ==> service_of(cfg) == cfg.service_name->0@,
        cfg.service_name is None ==> service_of(cfg) == "genesis-core"@,
        entry_service(service) == "genesis-core."@ + service,
{
    reveal_strlit("genesis-core");
    reveal_strlit(".");
    reveal_strlit("genesis-core.");
    assert("genesis-core"@ + "."@ =~= "genesis-core."@);
}

/// A file is warned of where anyone but its owner may do anything with it; the warning gives the
/// path and the permissions in octal.
pub proof fn law_permission_warnings(path: Seq<char>, mode: u32)
    ensures
        mode & 0o077 == 0 ==> permission_warning(path, mode) is None,
        mode & 0o077 != 0 ==> permission_warning(path, mode) == Some(
            "warning: "@ + path + " has permissions 0o"@ + digits((mode & 0o777) as nat, 8)
                + "; tightening to 0o600 on next write"@,
        ),
        mode == 0o600 || mode == 0o400 || mode == 0o700 ==> permission_warning(path, mode) is None,
        mode == 0o644 || mode == 0o640 || mode == 0o604 || mode == 0o666 || mode == 0o755
            ==> permission_warning(path, mode) is Some,
{
    assert(0o600u32 & 0o077 == 0 && 0o400u32 & 0o077 == 0 && 0o700u32 & 0o077 == 0 && 0o644u32
        & 0o077 != 0 && 0o640u32 & 0o077 != 0 && 0o604u32 & 0o077 != 0 && 0o666u32 & 0o077 != 0
        && 0o755u32 & 0o077 != 0) by (bit_vector);
}

/// Key derivation is refused too little memory, no passes, no lanes and too many; nothing else of
/// its costs is refused.
pub proof fn law_refused_costs(m_cost: u32, t_cost: u32, p_cost: u32)
    ensures
        m_cost < 8 || m_cost < p_cost * 8 ==> cost_refusal(m_cost, t_cost, p_cost) == Some(
            "memory cost is too small"@,
        ),
        m_cost >= 8 && m_cost >= p_cost * 8 && t_cost == 0 ==> cost_refusal(
            m_cost,
            t_cost,
            p_cost,
        ) == Some("time cost is too small"@),
        m_cost >= 8 && t_cost > 0 && p_cost == 0 ==> cost_refusal(m_cost, t_cost, p_cost) == Some(
            "not enough threads"@,
        ),
        m_cost >= p_cost * 8 && t_cost > 0 && p_cost > 0xFFFFFF ==> cost_refusal(
            m_cost,
            t_cost,
            p_cost,
        ) == Some("too many threads"@),
        m_cost >= 8 && m_cost >= p_cost * 8 && t_cost > 0 && 0 < p_cost <= 0xFFFFFF
            ==> cost_refusal(m_cost, t_cost, p_cost) is None,
{
}

/// The parameters that a new vault gets: 64 MiB, three passes, one lane, and the salt in base 64.
pub proof fn law_fresh_parameters(params: KdfParams, salt: Seq<u8>)
    requires
        params.is_fresh(salt),
    ensures
        params.m_cost == 65536,
        params.t_cost == 3,
        params.p_cost == 1,
        params.version == 1,
        params.salt_b64@ == base64_text(salt),
        base64_bytes(params.salt_b64@) == Ok::<Seq<u8>, Seq<char>>(salt),
        cost_refusal(params.m_cost, params.t_cost, params.p_cost) is None,
{
}

/// The key comes of the passphrase, the salt and the costs. A salt that is not base 64 is refused
/// first, then costs, then a salt of fewer than eight bytes.
pub proof fn law_derived_keys(password: Seq<char>, params: KdfParams)
    ensures
        base64_bytes(params.salt_b64@) matches Err(why) ==> derived(password, params) == Err::<
            Seq<u8>,
            Failure,
        >(Failure::Base64(why)),
        base64_bytes(params.salt_b64@) matches Ok(salt) ==> {
            let refused = cost_refusal(params.m_cost, params.t_cost, params.p_cost);
            &&& refused is Some ==> derived(password, params) == Err::<Seq<u8>, Failure>(
                Failure::KdfParams(refused->0),
            )
            &&& refused is None && encode_utf8(password).len() <= 0xFFFF_FFFF && salt.len() < 8
                ==> derived(password, params) == Err::<Seq<u8>, Failure>(
                Failure::Argon2("salt is too short"@),
            )
            &&& refused is None && encode_utf8(password).len() > 0xFFFF_FFFF ==> derived(
                password,
                params,
            ) == Err::<Seq<u8>, Failure>(Failure::Argon2("password is too long"@))
            &&& refused is None && encode_utf8(password).len() <= 0xFFFF_FFFF && salt.len() >= 8
                && salt.len() <= 0xFFFF_FFFF ==> derived(password, params) == Ok::<
                Seq<u8>,
                Failure,
            >(argon2id(password, salt, params.m_cost, params.t_cost, params.p_cost))
        },
{
}

/// A sealed file is the nonce and then the sealed message; it is opened with the first 24 bytes as
/// the nonce. A file of fewer than 40 bytes is too short, and one that does not open is reported as
/// the cipher's failure.
pub proof fn law_sealed_files(
    key: Seq<u8>,
    nonce: Seq<u8>,
    message: Seq<u8>,
    blob: Seq<u8>,
    password: Seq<char>,
    params: KdfParams,
)
    requires
        nonce.len() == 24,
    ensures
        blob_of(key, nonce, message) == nonce + sealed(key, nonce, message),
        nonce.len() + sealed(key, nonce, message).len() <= 0x3F_FFFF_FF80 + 40 ==> opened_blob(
            key,
            blob_of(key, nonce, message),
        ) == opened(key, nonce, sealed(key, nonce, message)),
        blob.len() < 40 ==> decrypted(blob, password, params) == Err::<Seq<u8>, Failure>(
            Failure::TooShort,
        ),
        blob.len() >= 40 && derived(password, params) is Err ==> decrypted(blob, password, params)
            == derived(password, params),
        derived(password, params) matches Ok(k) ==> (blob.len() >= 40 ==> match opened_blob(
            k,
            blob,
        ) {
            Some(plain) => decrypted(blob, password, params) == Ok::<Seq<u8>, Failure>(plain),
            None => decrypted(blob, password, params) == Err::<Seq<u8>, Failure>(
                Failure::Aead("aead::Error"@),
            ),
        }),
        too_long_to_seal(message) <==> message.len() > 0x3F_FFFF_FF80,
{
    let whole = blob_of(key, nonce, message);
    assert(whole.take(24) =~= nonce);
    assert(whole.skip(24) =~= sealed(key, nonce, message));
}

/// A passphrase unlocks the vault where it opens the file, or where there is no file yet; then the
/// vault holds the passphrase and the parameters. Where it does not open the file the vault stays
/// locked.
pub proof fn law_unlocking(
    passphrase: String,
    params: KdfParams,
    blob: Option<&Vec<u8>>,
    r: Result<(), CredentialsError>,
    after: Option<UnlockedVault>,
)
    requires
        unlocks(passphrase, params, blob, r, after),
    ensures
        blob is None ==> r is Ok,
        blob is Some ==> (r is Ok <==> decrypted(blob->0@, passphrase@, params) is Ok),
        r is Ok ==> after is Some && after->0.passphrase == passphrase && after->0.params == params,
        r is Err ==> after is None,
        r is Err ==> (r->Err_0 matches CredentialsError::BackendUnavailable(w) && w@
            == "vault unlock failed (wrong passphrase or corrupt file): "@ + decrypted(
            blob->0@,
            passphrase@,
            params,
        )->Err_0.says()),
{
}

/// The vault's text is what its file opens to; no file is no text, and what does not open or is no
/// UTF-8 is an error.
pub proof fn law_vault_text(vault: UnlockedVault, blob: Option<Seq<u8>>)
    ensures
        blob is None ==> vault_text(vault, blob) == Ok::<Option<Seq<char>>, Seq<char>>(None),
        blob matches Some(bytes) ==> match decrypted(bytes, vault.passphrase@, vault.params) {
            Err(f) => vault_text(vault, blob) == Err::<Option<Seq<char>>, Seq<char>>(
                "vault decrypt failed: "@ + f.says(),
            ),
            Ok(plain) => if valid_utf8(plain) {
                vault_text(vault, blob) == Ok::<Option<Seq<char>>, Seq<char>>(
                    Some(decode_utf8(plain)),
                )
            } else {
                vault_text(vault, blob) is Err
            },
        },
        blob is None ==> vault_document(vault, blob) == Some(Map::<Seq<char>, Tree>::empty()),
{
}

/// What is written to the vault opens to the text under the same passphrase and parameters, and to
/// nothing else.
pub proof fn law_vault_files_open_to_their_text(
    vault: UnlockedVault,
    text: Seq<char>,
    r: Result<Vec<u8>, CredentialsError>,
)
    requires
        is_written(vault, text, r),
    ensures
        r matches Ok(blob) ==> decrypted(blob@, vault.passphrase@, vault.params) == Ok::<
            Seq<u8>,
            Failure,
        >(encode_utf8(text)),
        r is Err ==> derived(vault.passphrase@, vault.params) is Err || encode_utf8(text).len()
            > 0x3F_FFFF_FF80,
{
}

/// A descriptor gives the passphrase where it is open and readable; else it is said why not.
pub proof fn law_passphrase_descriptors(fd_flags: i32, status_flags: i32)
    ensures
        fd_flags == -1 ==> descriptor_refusal(fd_flags, status_flags) == Some(
            "is not an open file descriptor"@,
        ),
        fd_flags != -1 && status_flags == -1 ==> descriptor_refusal(fd_flags, status_flags) == Some(
            "could not be queried for read access"@,
        ),
        fd_flags != -1 && status_flags == 1 ==> descriptor_refusal(fd_flags, status_flags) == Some(
            "is write-only; a readable fd is required"@,
        ),
        fd_flags != -1 && (status_flags == 0 || status_flags == 2) ==> descriptor_refusal(
            fd_flags,
            status_flags,
        ) is None,
{
    assert(1i32 & 3 == 1 && 0i32 & 3 != 1 && 2i32 & 3 != 1) by (bit_vector);
}

/// A passphrase is read without the line ends behind it; everything else of it stays.
pub proof fn law_passphrase_ends(s: Seq<char>)
    ensures
        without_newlines(s.push('\n')) == without_newlines(s),
        s.len() == 0 || s.last() != '\n' ==> without_newlines(s) == s,
{
    assert(s.push('\n').drop_last() =~= s);
}

/// A lock is taken over once it is older than sixty seconds; an age that is not known is never
/// too old. The lock is tried two hundred times, with a pause of fifty milliseconds.
pub proof fn law_old_locks(secs: u64, nanos: u32, process: u32, acquisition: u64)
    ensures
        nanos < 1000000000 ==> (abandoned(Some((secs, nanos))) <==> secs * 1000000000 + nanos
            > 60000000000),
        !abandoned(None),
        LOCK_TRIES == 200,
        LOCK_PAUSE_MS == 50,
        LOCK_FILE@ == ".credentials.migrate.lock"@,
        nonce_of(process, acquisition) == digits(process as nat, 10) + seq!['-'] + digits(
            acquisition as nat,
            10,
        ),
{
    reveal_strlit("-");
    assert("-"@ =~= seq!['-']);
}

/// Moving plaintext into the vault starts only where the vault can be unlocked and there is
/// plaintext, and then with the lock.
pub proof fn law_migration_starts(
    unlock_material: bool,
    plaintext_exists: bool,
    next: Stage,
    action: Action,
)
    requires
        is_step(Stage::Start, Event::Begin { unlock_material, plaintext_exists }, next, action),
    ensures
        unlock_material && plaintext_exists ==> next is Locking && action is TakeLock,
        !unlock_material || !plaintext_exists ==> next is Done && (action matches Action::Finish(
            Ending::Nothing,
        )),
{
}

/// Whatever fails ends the move with that failure, and plaintext is never removed by it.
pub proof fn law_migration_failures(
    stage: Stage,
    event: Event,
    next: Stage,
    action: Action,
    e: CredentialsError,
)
    requires
        awaits(stage, event),
        is_step(stage, event, next, action),
        event == Event::Lock(Err(e)) || event == Event::Plaintext(Err(e)) || event == Event::Vault(
            Err(e),
        ) || event == Event::Written(Err(e)) || event == Event::ReadBack(Err(e)),
    ensures
        next is Done,
        action == Action::Finish(Ending::Failed(e)),
{
}

/// The steps of a move come in one order: lock, read, look, open, write, read back, finish.
pub proof fn law_migration_order(stage: Stage, event: Event, next: Stage, action: Action)
    requires
        awaits(stage, event),
        is_step(stage, event, next, action),
        !(next is Done),
    ensures
        stage is Start ==> next is Locking && action is TakeLock,
        stage is Locking ==> next is Reading && action is ReadPlaintext,
        stage is Reading ==> next is Looking && action is LookAtVault,
        stage is Looking ==> next is Importing && action is ReadVault,
        stage is Importing ==> next is Writing && action is WriteVault,
        stage is Writing ==> next is Checking && action is ReadVaultBack,
        !(stage is Checking),
        stage matches Stage::Looking(loaded) ==> next == Stage::Importing(loaded),
        stage matches Stage::Importing(loaded) ==> next == Stage::Writing(loaded),
        stage matches Stage::Writing(loaded) ==> next == Stage::Checking(loaded),
        stage is Looking ==> (event matches Event::VaultFiles { cipher_exists, params_usable }
            && action == (Action::ReadVault { discard: cipher_exists && !params_usable })),
{
}

/// The move ends well only where every secret that was loaded is read back; plaintext may go only
/// where nothing was left out.
pub proof fn law_migration_ends(
    stage: Stage,
    event: Event,
    next: Stage,
    action: Action,
    i: int,
)
    requires
        awaits(stage, event),
        is_step(stage, event, next, action),
        action matches Action::Finish(Ending::Moved { .. }),
    ensures
        stage matches Stage::Checking(loaded) && event matches Event::ReadBack(Ok(doc)) && (0 <= i
            < loaded.secrets().len() ==> secret(doc@, loaded.secrets()[i].0@) is Some) && (
        action matches Action::Finish(Ending::Moved { count, skipped, remove_plaintext }) && count
            == loaded.secrets().len() && skipped == loaded.total() - loaded.secrets().len() && (
        remove_plaintext <==> loaded.secrets().len() == loaded.total())),
{
}

/// Where a secret is not read back, the move fails, and the first that is missing is named.
pub proof fn law_missing_secrets_stop_the_move(
    doc: Map<Seq<char>, Value>,
    loaded: Loaded,
    action: Action,
    i: int,
)
    requires
        is_checked(doc, loaded, action),
        0 <= i < loaded.secrets().len(),
        secret(doc, loaded.secrets()[i].0@) is None,
        forall|j: int| 0 <= j < i ==> secret(doc, (#[trigger] loaded.secrets()[j]).0@) is Some,
    ensures
        action matches Action::Finish(Ending::Failed(CredentialsError::BackendUnavailable(why)))
            && why@ == "vault migration readback missing key '"@ + loaded.secrets()[i].0@ + "'"@,
{
    let pairs = loaded.secrets();
    assert(!resolves_all(doc, pairs)) by {
        assert(secret(doc, pairs[i].0@) is None);
    }
    let k = choose|k: int| #[trigger]
        is_first_missing(doc, pairs, k) && (action matches Action::Finish(Ending::Failed(e))
            && e.is_unavailable(
            "vault migration readback missing key '"@ + pairs[k].0@ + "'"@,
        ));
    if k < i {
        assert(secret(doc, pairs[k].0@) is Some);
    }
    if i < k {
        assert(secret(doc, pairs[i].0@) is Some);
    }
}

/// What the vault holds already stays; what it lacks it gets from the plaintext, the first of each
/// name; nothing beside its secrets changes.
pub proof fn law_imported_secrets(
    after: Map<Seq<char>, Value>,
    before: Map<Seq<char>, Value>,
    pairs: Seq<(String, String)>,
    k: Seq<char>,
    i: int,
)
    requires
        is_import(after, before, pairs),
    ensures
        secret(before, k) is Some ==> secret(after, k) == secret(before, k),
        found(held(before), k) is None && 0 <= i < pairs.len() && pairs[i].0@ == k
            && (forall|j: int|
            0 <= j < i ==> (#[trigger] pairs[j]).0@ != k) ==> secret(after, k) == Some(pairs[i].1@),
        found(held(before), k) is None && (forall|j: int|
            0 <= j < pairs.len() ==> (#[trigger] pairs[j]).0@ != k) ==> secret(after, k) is None,
        k != "secrets"@ ==> after.contains_key(k) == before.contains_key(k),
        k != "secrets"@ && before.contains_key(k) ==> after[k] == before[k],
{
    let texts = pair_texts(pairs);
    if 0 <= i < pairs.len() && pairs[i].0@ == k && (forall|j: int|
        0 <= j < i ==> (#[trigger] pairs[j]).0@ != k) {
        lemma_first_of_name(pairs, k, i);
    }
    if forall|j: int| 0 <= j < pairs.len() ==> (#[trigger] pairs[j]).0@ != k {
        lemma_no_such_name(pairs, k);
    }
    if secret(before, k) is Some {
        assert(found(held(before), k) is Some);
        assert(found(held(after), k) == found(held(before), k));
    }
    if found(held(before), k) is None {
        assert(crate::credentials::secrets::text_of(found(held(after), k)) == first_text(texts, k));
    }
    if k != "secrets"@ {
        assert(after.remove("secrets"@).contains_key(k) == before.remove("secrets"@).contains_key(
            k,
        ));
        if before.contains_key(k) {
            assert(after.remove("secrets"@)[k] == before.remove("secrets"@)[k]);
        }
    }
}

proof fn lemma_first_of_name(pairs: Seq<(String, String)>, k: Seq<char>, i: int)
    requires
        0 <= i < pairs.len(),
        pairs[i].0@ == k,
        forall|j: int| 0 <= j < i ==> (#[trigger] pairs[j]).0@ != k,
    ensures
        first_text(pair_texts(pairs), k) == Some(pairs[i].1@),
    decreases pairs.len(),
{
    let texts = pair_texts(pairs);
    let front = pairs.drop_last();
    assert(texts.drop_last() =~= pair_texts(front));
    assert(texts.last() == (pairs.last().0@, pairs.last().1@));
    if i < front.len() {
        assert forall|j: int| 0 <= j < i implies (#[trigger] front[j]).0@ != k by {
            assert(front[j] == pairs[j]);
        }
        lemma_first_of_name(front, k, i);
    } else {
        assert forall|j: int| 0 <= j < front.len() implies (#[trigger] front[j]).0@ != k by {
            assert(front[j] == pairs[j]);
        }
        lemma_no_such_name(front, k);
    }
}

proof fn lemma_no_such_name(pairs: Seq<(String, String)>, k: Seq<char>)
    requires
        forall|j: int| 0 <= j < pairs.len() ==> (#[trigger] pairs[j]).0@ != k,
    ensures
        first_text(pair_texts(pairs), k) is None,
    decreases pairs.len(),
{
    if pairs.len() > 0 {
        let texts = pair_texts(pairs);
        let front = pairs.drop_last();
        assert(texts.drop_last() =~= pair_texts(front));
        assert(texts.last() == (pairs.last().0@, pairs.last().1@));
        assert(pairs[pairs.len() - 1].0@ != k);
        assert forall|j: int| 0 <= j < front.len() implies (#[trigger] front[j]).0@ != k by {
            assert(front[j] == pairs[j]);
        }
        lemma_no_such_name(front, k);
    }
}

/// The secrets of a document are what its secrets table holds; one that has no such table holds
/// none.
pub proof fn law_held_secrets(doc: Map<Seq<char>, Value>, entries: Vec<(String, Value)>, i: int)
    ensures
        !doc.contains_key("secrets"@) ==> held(doc).len() == 0,
        doc.contains_key("secrets"@) && !(doc["secrets"@] is Table) ==> held(doc).len() == 0,
        doc.contains_key("secrets"@) && doc["secrets"@] == Value::Table(entries) ==> held(doc)
            == entries@,
        0 <= i < entries@.len() && (forall|j: int|
            0 <= j < i ==> (#[trigger] entries@[j]).0@ != entries@[i].0@) ==> found(
            entries@,
            entries@[i].0@,
        ) == Some(entries@[i].1),
        doc.contains_key("secrets"@) && doc["secrets"@] == Value::Table(entries) && 0 <= i
            < entries@.len() && (forall|j: int|
            0 <= j < i ==> (#[trigger] entries@[j]).0@ != entries@[i].0@) ==> match entries@[i].1 {
            Value::Text(s) => secret(doc, entries@[i].0@) == Some(s@),
            _ => secret(doc, entries@[i].0@) is None,
        },
{
    if 0 <= i < entries@.len() && (forall|j: int|
        0 <= j < i ==> (#[trigger] entries@[j]).0@ != entries@[i].0@) {
        lemma_found_first(entries@, entries@[i].0@, i);
    }
}

proof fn lemma_found_first(entries: Seq<(String, Value)>, key: Seq<char>, i: int)
    requires
        0 <= i < entries.len(),
        entries[i].0@ == key,
        forall|j: int| 0 <= j < i ==> (#[trigger] entries[j]).0@ != key,
    ensures
        found(entries, key) == Some(entries[i].1),
    decreases i,
{
    if i > 0 {
        let rest = entries.drop_first();
        assert(entries[0].0@ != key);
        assert forall|j: int| 0 <= j < i - 1 implies (#[trigger] rest[j]).0@ != key by {
            assert(rest[j] == entries[j + 1]);
        }
        lemma_found_first(rest, key, i - 1);
    }
}

/// The secrets that a plaintext document gives are the texts of its secrets table, in their order;
/// what is no text is passed over.
pub proof fn law_loaded_secrets(entries: Seq<(String, Value)>, last: (String, Value))
    ensures
        string_entries(Seq::empty()).len() == 0,
        last.1 matches Value::Text(s) ==> string_entries(entries.push(last)) == string_entries(
            entries,
        ).push((last.0@, s@)),
        !(last.1 is Text) ==> string_entries(entries.push(last)) == string_entries(entries),
{
    assert(entries.push(last).drop_last() =~= entries);
}

/// A secret is what stands under its name in the document's secrets table, where that is a text.
pub proof fn law_secrets_stand_in_their_table(
    d: Map<Seq<char>, Tree>,
    fields: Seq<(Seq<char>, Tree)>,
    key: Seq<char>,
    other: Seq<char>,
    value: Seq<char>,
)
    ensures
        !d.contains_key("secrets"@) ==> secret_in(d, key) is None,
        d.contains_key("secrets"@) && !(d["secrets"@] is Table) ==> secret_in(d, key) is None,
        d.contains_key("secrets"@) && d["secrets"@] == Tree::Table(fields) ==> match lookup(
            fields,
            key,
        ) {
            Some(Tree::Text(s)) => secret_in(d, key) == Some(s),
            _ => secret_in(d, key) is None,
        },
        other != "secrets"@ ==> with_secret(d, key, value).contains_key(other) == d.contains_key(
            other,
        ) && without_secret(d, key).contains_key(other) == d.contains_key(other),
        other != "secrets"@ && d.contains_key(other) ==> with_secret(d, key, value)[other]
            == d[other] && without_secret(d, key)[other] == d[other],
{
}

/// A file that is not there is the empty document.
pub proof fn law_missing_file_is_empty(key: Seq<char>)
    ensures
        document_of(None) == Ok::<Map<Seq<char>, Tree>, Seq<char>>(Map::empty()),
        secret_in(Map::<Seq<char>, Tree>::empty(), key) is None,
{
}

/// What is said of a credentials store or a keychain that fails.
pub proof fn law_store_failures_are_explained(
    e: CredentialsError,
    f: Failure,
    k: KeychainError,
)
    ensures
        e matches CredentialsError::Io(why) ==> e.says() == "io error: "@ + why@,
        e matches CredentialsError::TomlParse(why) ==> e.says() == "toml parse error: "@ + why@,
        e matches CredentialsError::TomlSerialize(why) ==> e.says() == "toml serialize error: "@
            + why@,
        e matches CredentialsError::Keyring(why) ==> e.says() == "keyring error: "@ + why@,
        e matches CredentialsError::BackendUnavailable(why) ==> e.says()
            == "backend not available: "@ + why@,
        f matches Failure::Io(why) ==> f.says() == "io error: "@ + why,
        f matches Failure::KdfParams(why) ==> f.says() == "kdf params invalid: "@ + why,
        f matches Failure::Aead(why) ==> f.says() == "aead error: "@ + why,
        f matches Failure::Argon2(why) ==> f.says() == "argon2 error: "@ + why,
        f matches Failure::Serde(why) ==> f.says() == "serde error: "@ + why,
        f matches Failure::Base64(why) ==> f.says() == "base64 error: "@ + why,
        f is TooShort ==> f.says() == "file too short"@,
        k matches KeychainError::NotFound { service, account } ==> k.says()
            == "secret not found for service="@ + service@ + " account="@ + account@,
        k matches KeychainError::NoKeychain(why) ==> k.says()
            == "no keychain backend available: "@ + why@,
        k matches KeychainError::Backend(why) ==> k.says() == "keychain backend error: "@ + why@,
{
}

/// A server of a discovery file written as an object is described by its own fields.
pub proof fn law_described_servers(fields: Seq<(Seq<char>, Tree)>, s: DiscoveredMcpServer)
    requires
        describes(Tree::Table(fields), s),
    ensures
        lookup(fields, "name"@) == Some(Tree::Text(s.name@)),
        lookup(fields, "transport"@) == Some(Tree::Text(s.transport@)),
        lookup(fields, "url"@) == Some(Tree::Text(s.url@)),
        lookup(fields, "metadata_url"@) == Some(Tree::Text(s.metadata_url@)),
        s.display_name matches Some(shown) ==> lookup(fields, "display_name"@) == Some(
            Tree::Text(shown@),
        ),
        s.display_name is None ==> !(lookup(fields, "display_name"@) matches Some(Tree::Text(_))),
        lookup(fields, "auth"@) matches Some(auth) && (auth matches Tree::Table(inner) ==> lookup(
            inner,
            "scheme"@,
        ) == Some(Tree::Text(s.auth.scheme@)) && (s.auth.grant_url matches Some(url) ==> lookup(
            inner,
            "grant_url"@,
        ) == Some(Tree::Text(url@)))),
{
}

/// A server of a discovery file written as an array is described by its places: the name, the shown
/// name, the transport, the address, the authentication and the metadata's address.
pub proof fn law_described_rows(items: Seq<Tree>, s: DiscoveredMcpServer)
    requires
        describes(Tree::List(items), s),
    ensures
        items.len() == 6,
        items[0] == Tree::Text(s.name@),
        s.display_name matches Some(shown) ==> items[1] == Tree::Text(shown@),
        s.display_name is None ==> items[1] is Null,
        items[2] == Tree::Text(s.transport@),
        items[3] == Tree::Text(s.url@),
        items[5] == Tree::Text(s.metadata_url@),
        items[4] matches Tree::List(inner) ==> inner.len() > 0 && inner[0] == Tree::Text(
            s.auth.scheme@,
        ),
{
}

/// An entry that lacks a name, a transport, an address, its authentication or its metadata's
/// address is no server.
pub proof fn law_incomplete_servers(fields: Seq<(Seq<char>, Tree)>)
    ensures
        is_server(Tree::Table(fields)) ==> (lookup(fields, "name"@) matches Some(Tree::Text(_)))
            && (
        lookup(fields, "transport"@) matches Some(Tree::Text(_))) && (lookup(fields, "url"@)
            matches Some(Tree::Text(_))) && (lookup(fields, "metadata_url"@)
            matches Some(Tree::Text(_))) && lookup(fields, "auth"@) is Some,
        lookup(fields, "display_name"@) matches Some(Tree::Bool(_)) ==> !is_server(
            Tree::Table(fields),
        ),
{
}

/// A complete entry is a server, in either of its forms; an array with too many members is none.
pub proof fn law_complete_servers(
    fields: Seq<(Seq<char>, Tree)>,
    inner: Seq<(Seq<char>, Tree)>,
    items: Seq<Tree>,
    pair: Seq<Tree>,
)
    ensures
        (lookup(fields, "name"@) matches Some(Tree::Text(_))) && (lookup(fields, "transport"@)
            matches Some(Tree::Text(_))) && (lookup(fields, "url"@) matches Some(Tree::Text(_)))
                && (
        lookup(fields, "metadata_url"@) matches Some(Tree::Text(_))) && lookup(
            fields,
            "display_name"@,
        ) is None && lookup(fields, "auth"@) == Some(Tree::Table(inner)) && (lookup(inner,
            "scheme"@)
            matches Some(Tree::Text(_))) && lookup(inner, "grant_url"@) is None ==> is_server(
            Tree::Table(fields),
        ),
        lookup(fields, "auth"@) == Some(Tree::Table(inner)) && !(lookup(inner, "scheme"@)
            matches Some(Tree::Text(_))) ==> !is_server(Tree::Table(fields)),
        lookup(fields, "auth"@) == Some(Tree::Table(inner)) && (lookup(inner, "grant_url"@)
            matches Some(Tree::Bool(_))) ==> !is_server(Tree::Table(fields)),
        items.len() == 6 && items[0] is Text && (items[1] is Text || items[1] is Null) && items[2]
            is Text && items[3] is Text && items[4] == Tree::List(pair) && items[5] is Text
            && pair.len() == 2 && pair[0] is Text && (pair[1] is Text || pair[1] is Null)
            ==> is_server(Tree::List(items)),
        items.len() > 6 ==> !is_server(Tree::List(items)),
        items.len() < 6 ==> !is_server(Tree::List(items)),
        items.len() == 6 && items[4] == Tree::List(pair) && (pair.len() == 0 || pair.len() > 2)
            ==> !is_server(Tree::List(items)),
{
}

/// The servers that a file offers are those under `servers` that are complete, in their order; a
/// file of another shape offers none.
pub proof fn law_offered_servers(
    fields: Seq<(Seq<char>, Tree)>,
    items: Seq<Tree>,
    last: Tree,
    found_servers: Seq<DiscoveredMcpServer>,
)
    ensures
        lookup(fields, "servers"@) == Some(Tree::List(items)) ==> advertised(Tree::Table(fields))
            == servers_among(items),
        !(lookup(fields, "servers"@) matches Some(Tree::List(_))) ==> advertised(
            Tree::Table(fields),
        ).len() == 0,
        is_server(last) ==> servers_among(items.push(last)) == servers_among(items).push(last),
        !is_server(last) ==> servers_among(items.push(last)) == servers_among(items),
        servers_among(Seq::empty()).len() == 0,
        are_described(servers_among(items), found_servers) ==> found_servers.len() == servers_among(
            items,
        ).len(),
{
    assert(items.push(last).drop_last() =~= items);
}

} // verus!
