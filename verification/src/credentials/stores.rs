//! Which store the configuration selects, and how the stores divide a request.

use vstd::prelude::*;

use crate::config::paths::joined;
use crate::credentials::document::{
    any_crowded, document_of, document_text, plain_document, plaintext_document, shallow_document,
    text_of_document, toml_document, trees_in, DATE_MARK,
};
use crate::credentials::error::CredentialsError;
use crate::credentials::secrets::{
    delete_secret, get_secret, law_deleted_secret_is_gone, law_stored_secret_is_found,
    lemma_plain_with_secret, lemma_plain_without_secret, lemma_same_secrets, lemma_secret_in,
    put_secret, secret_in, with_secret, without_secret,
};
use crate::credentials::vault::{default_vault_paths, EncryptedFileCredentialsStore};
use crate::credentials::{CredentialsBackend, CredentialsStorageConfig};
use crate::keychain::{KeychainReply, NO_ENTRY};
use crate::numbers::{digits, octal};
use crate::replica::opt_text;
use crate::table::StrMap;
use crate::text::concat3;
use crate::value::{Tree, Value};

verus! {

/// A store that keeps a TOML file with restricted permissions.
#[derive(Debug)]
pub struct PlaintextCredentialsStore {
    path: String,
}

impl PlaintextCredentialsStore {
    /// The path of the file.
    pub closed spec fn place(self) -> Seq<char> {
        self.path@
    }

    /// A store that keeps the file at `path`.
    pub fn new(path: &str) -> (r: Self)
        ensures
            r.place() == path@,
    {
        PlaintextCredentialsStore { path: path.to_owned() }
    }

    /// The path of the file.
    pub fn path(&self) -> (r: &str)
        ensures
            r@ == self.place(),
    {
        self.path.as_str()
    }
}

/// The text of a file, if there is one.
pub open spec fn file_text(text: Option<&str>) -> Option<Seq<char>> {
    match text {
        Some(t) => Some(t@),
        None => None,
    }
}

/// Whether `r` is the text of a file with the document `d`. The text of a plain document has
/// the same secrets again.
pub open spec fn is_file_with(d: Map<Seq<char>, Tree>, r: Result<String, CredentialsError>) -> bool {
    &&& match r {
        Ok(text) => text_of_document(d) == Ok::<Seq<char>, Seq<char>>(text@),
        Err(e) => e matches CredentialsError::TomlSerialize(why) && text_of_document(d) == Err::<
            Seq<char>,
            Seq<char>,
        >(why@),
    }
    &&& plain_document(d) ==> match r {
        Ok(text) => toml_document(text@) matches Ok(e) && forall|k: Seq<char>|
            #[trigger] secret_in(e, k) == secret_in(d, k),
        Err(_) => any_crowded(d),
    }
}

pub(crate) fn write_document(doc: &StrMap<Value>) -> (r: Result<String, CredentialsError>)
    ensures
        is_file_with(trees_in(doc@), r),
{
    let r = document_text(doc);
    proof {
        if r is Ok && plain_document(trees_in(doc@)) {
            let e = toml_document(r->Ok_0@)->Ok_0;
            assert forall|k: Seq<char>| #[trigger] secret_in(e, k) == secret_in(
                trees_in(doc@),
                k,
            ) by {
                lemma_same_secrets(e, trees_in(doc@), k);
            }
        }
    }
    r
}

impl PlaintextCredentialsStore {
    /// The secret under `key` in the file whose text is `text`.
    pub fn get(text: Option<&str>, key: &str) -> (r: Result<Option<String>, CredentialsError>)
        ensures
            match document_of(file_text(text)) {
                Ok(d) => r matches Ok(found) && opt_text(found) == secret_in(d, key@),
                Err(w) => r matches Err(CredentialsError::TomlParse(why)) && why@ == w,
            },
    {
        match plaintext_document(text) {
            Ok(doc) => {
                proof {
                    lemma_secret_in(doc@, key@);
                }
                Ok(get_secret(&doc, key))
            },
            Err(e) => Err(e),
        }
    }

    /// The file whose text was `text` after storing `value` under `key`.
    pub fn put(text: Option<&str>, key: &str, value: &str) -> (r: Result<String, CredentialsError>)
        ensures
            match document_of(file_text(text)) {
                Ok(d) => {
                    &&& is_file_with(with_secret(d, key@, value@), r)
                    &&& shallow_document(d) && key@ != DATE_MARK@ ==> match r {
                        Ok(after) => toml_document(after@) matches Ok(e) && forall|k: Seq<char>|
                            #[trigger] secret_in(e, k) == if k == key@ {
                                Some(value@)
                            } else {
                                secret_in(d, k)
                            },
                        Err(_) => any_crowded(with_secret(d, key@, value@)),
                    }
                },
                Err(w) => r matches Err(CredentialsError::TomlParse(why)) && why@ == w,
            },
    {
        let mut doc = match plaintext_document(text) {
            Ok(doc) => doc,
            Err(e) => {
                return Err(e);
            },
        };
        let ghost d = trees_in(doc@);
        put_secret(&mut doc, key, value);
        let r = write_document(&doc);
        proof {
            if shallow_document(d) && key@ != DATE_MARK@ {
                lemma_plain_with_secret(d, key@, value@);
                assert forall|k: Seq<char>| #[trigger]
                    secret_in(with_secret(d, key@, value@), k) == if k == key@ {
                        Some(value@)
                    } else {
                        secret_in(d, k)
                    } by {
                    law_stored_secret_is_found(d, key@, value@, k);
                }
            }
        }
        r
    }

    /// The file whose text was `text` after deleting the secret under `key`.
    pub fn delete(text: Option<&str>, key: &str) -> (r: Result<String, CredentialsError>)
        ensures
            match document_of(file_text(text)) {
                Ok(d) => {
                    &&& is_file_with(without_secret(d, key@), r)
                    &&& shallow_document(d) ==> match r {
                        Ok(after) => toml_document(after@) matches Ok(e) && forall|k: Seq<char>|
                            #[trigger] secret_in(e, k) == if k == key@ {
                                None
                            } else {
                                secret_in(d, k)
                            },
                        Err(_) => any_crowded(without_secret(d, key@)),
                    }
                },
                Err(w) => r matches Err(CredentialsError::TomlParse(why)) && why@ == w,
            },
    {
        let mut doc = match plaintext_document(text) {
            Ok(doc) => doc,
            Err(e) => {
                return Err(e);
            },
        };
        let ghost d = trees_in(doc@);
        delete_secret(&mut doc, key);
        let r = write_document(&doc);
        proof {
            if shallow_document(d) {
                lemma_plain_without_secret(d, key@);
                assert forall|k: Seq<char>| #[trigger]
                    secret_in(without_secret(d, key@), k) == if k == key@ {
                        None
                    } else {
                        secret_in(d, k)
                    } by {
                    law_deleted_secret_is_gone(d, key@, k);
                }
            }
        }
        r
    }
}

/// A store in the OS keyring.
#[derive(Debug)]
pub struct KeyringCredentialsStore {
    service: String,
}

impl KeyringCredentialsStore {
    /// The service name of its entries.
    pub closed spec fn name(self) -> Seq<char> {
        self.service@
    }

    /// A store whose entries have the service name `service`.
    pub fn new(service: &str) -> (r: Self)
        ensures
            r.name() == service@,
    {
        KeyringCredentialsStore { service: service.to_owned() }
    }

    /// The service name of its entries.
    pub fn service(&self) -> (r: &str)
        ensures
            r@ == self.name(),
    {
        self.service.as_str()
    }
}

impl KeyringCredentialsStore {
    /// What asking the keyring for a secret comes to.
    pub fn get(reply: KeychainReply<String>) -> (r: Result<Option<String>, CredentialsError>)
        ensures
            match reply {
                KeychainReply::Value(s) => r == Ok::<Option<String>, CredentialsError>(Some(s)),
                KeychainReply::NoEntry => r == Ok::<Option<String>, CredentialsError>(None),
                KeychainReply::Unreachable(why) | KeychainReply::Other(why) => r == Err::<
                    Option<String>,
                    CredentialsError,
                >(CredentialsError::Keyring(why)),
            },
    {
        match reply {
            KeychainReply::Value(s) => Ok(Some(s)),
            KeychainReply::NoEntry => Ok(None),
            KeychainReply::Unreachable(why) => Err(CredentialsError::Keyring(why)),
            KeychainReply::Other(why) => Err(CredentialsError::Keyring(why)),
        }
    }

    /// What handing the keyring a secret comes to.
    pub fn put(reply: KeychainReply<()>) -> (r: Result<(), CredentialsError>)
        ensures
            match reply {
                KeychainReply::Value(_) => r is Ok,
                KeychainReply::NoEntry => r matches Err(CredentialsError::Keyring(w)) && w@
                    == NO_ENTRY@,
                KeychainReply::Unreachable(why) | KeychainReply::Other(why) => r == Err::<
                    (),
                    CredentialsError,
                >(CredentialsError::Keyring(why)),
            },
    {
        match reply {
            KeychainReply::Value(_) => Ok(()),
            KeychainReply::NoEntry => Err(CredentialsError::Keyring(NO_ENTRY.to_owned())),
            KeychainReply::Unreachable(why) => Err(CredentialsError::Keyring(why)),
            KeychainReply::Other(why) => Err(CredentialsError::Keyring(why)),
        }
    }

    /// What deleting a secret of the keyring comes to. There is no harm in deleting what is
    /// not there.
    pub fn delete(reply: KeychainReply<()>) -> (r: Result<(), CredentialsError>)
        ensures
            match reply {
                KeychainReply::Value(_) | KeychainReply::NoEntry => r is Ok,
                KeychainReply::Unreachable(why) | KeychainReply::Other(why) => r == Err::<
                    (),
                    CredentialsError,
                >(CredentialsError::Keyring(why)),
            },
    {
        match reply {
            KeychainReply::Value(_) => Ok(()),
            KeychainReply::NoEntry => Ok(()),
            KeychainReply::Unreachable(why) => Err(CredentialsError::Keyring(why)),
            KeychainReply::Other(why) => Err(CredentialsError::Keyring(why)),
        }
    }
}

/// The account that is asked for to find out whether the keyring answers.
pub const KEYRING_PROBE: &'static str = "__genesis_core_keyring_probe__";

/// Whether the keyring answers, by its reply for [`KEYRING_PROBE`].
pub fn keyring_available(reply: &KeychainReply<String>) -> (r: bool)
    ensures
        r == (*reply is Value || *reply is NoEntry),
{
    match reply {
        KeychainReply::Value(_) => true,
        KeychainReply::NoEntry => true,
        KeychainReply::Unreachable(_) => false,
        KeychainReply::Other(_) => false,
    }
}

/// A store that has been selected.
pub enum OpenStore {
    /// The plaintext file.
    Plaintext(PlaintextCredentialsStore),
    /// The OS keyring.
    Keyring(KeyringCredentialsStore),
    /// The OS keyring, with the plaintext file behind it.
    Fallback(KeyringCredentialsStore, PlaintextCredentialsStore),
    /// The encrypted file.
    Vault(EncryptedFileCredentialsStore),
}

/// What opening the configured store comes to.
pub enum StorePlan {
    /// The store is ready. The flag asks for the warning that secrets of an isolated home
    /// are not encrypted.
    Ready(OpenStore, bool),
    /// Plaintext secrets move into the vault first. Where that fails, the plaintext store
    /// serves instead, if there is one here.
    AfterMigration(EncryptedFileCredentialsStore, Option<PlaintextCredentialsStore>),
}

/// What decides about the store besides the configuration.
pub struct StoreFacts {
    /// `GENESIS_HOME` is set.
    pub isolated_home: bool,
    /// A vault can be unlocked without asking the user.
    pub unlock_material: bool,
    /// The OS keyring answers.
    pub keyring_works: bool,
}

/// The service name of the keyring entries.
pub open spec fn service_of(cfg: CredentialsStorageConfig) -> Seq<char> {
    match cfg.service_name {
        Some(name) => name@,
        None => "genesis-core"@,
    }
}

fn service_or_default(cfg: &CredentialsStorageConfig) -> (r: String)
    ensures
        r@ == service_of(*cfg),
{
    match &cfg.service_name {
        Some(name) => name.clone(),
        None => "genesis-core".to_owned(),
    }
}

/// The keyring service whose availability [`open_store`] depends on, if it does.
pub fn service_to_probe(cfg: &CredentialsStorageConfig, isolated_home: bool) -> (r: Option<String>)
    ensures
        match r {
            Some(service) => cfg.backend is Auto && !isolated_home && service@ == service_of(*cfg),
            None => !(cfg.backend is Auto) || isolated_home,
        },
{
    match cfg.backend {
        CredentialsBackend::Auto => {
            if isolated_home {
                None
            } else {
                Some(service_or_default(cfg))
            }
        },
        _ => None,
    }
}

/// Whether `plan` is how the store that `cfg` selects is opened. `path` is the plaintext file
/// and `dir` its directory.
pub open spec fn is_plan(
    plan: StorePlan,
    cfg: CredentialsStorageConfig,
    path: Seq<char>,
    dir: Seq<char>,
    facts: StoreFacts,
) -> bool {
    match cfg.backend {
        CredentialsBackend::Auto => if facts.isolated_home && facts.unlock_material {
            plan matches StorePlan::AfterMigration(vault, Some(plain)) && vault.cipher_path@
                == joined(dir, "credentials.enc"@) && vault.key_params_path@ == joined(
                dir,
                "credentials.kdf.json"@,
            ) && vault.unlocked is None && plain.place() == path
        } else if facts.isolated_home {
            plan matches StorePlan::Ready(OpenStore::Plaintext(plain), true) && plain.place()
                == path
        } else if facts.keyring_works {
            plan matches StorePlan::Ready(OpenStore::Fallback(ring, plain), false) && ring.name()
                == service_of(cfg) && plain.place() == path
        } else {
            plan matches StorePlan::Ready(OpenStore::Plaintext(plain), false) && plain.place()
                == path
        },
        CredentialsBackend::Plaintext => plan matches StorePlan::Ready(
            OpenStore::Plaintext(plain),
            false,
        ) && plain.place() == path,
        CredentialsBackend::Keyring => plan matches StorePlan::Ready(
            OpenStore::Keyring(ring),
            false,
        ) && ring.name() == service_of(cfg),
        CredentialsBackend::EncryptedFile { cipher_path, key_params_path } => plan matches
            StorePlan::AfterMigration(vault, None) && vault.cipher_path@ == cipher_path@
            && vault.key_params_path@ == key_params_path@ && vault.unlocked is None,
    }
}

/// How the configured store is opened. `plaintext_path` is the plaintext file and `dir` its
/// directory.
pub fn open_store(
    cfg: &CredentialsStorageConfig,
    plaintext_path: &str,
    dir: &str,
    facts: &StoreFacts,
) -> (r: StorePlan)
    ensures
        is_plan(r, *cfg, plaintext_path@, dir@, *facts),
{
    match &cfg.backend {
        CredentialsBackend::Auto => {
            if facts.isolated_home {
                let plain = PlaintextCredentialsStore::new(plaintext_path);
                if facts.unlock_material {
                    let (cipher_path, key_params_path) = default_vault_paths(dir);
                    let vault = EncryptedFileCredentialsStore::new(cipher_path, key_params_path);
                    return StorePlan::AfterMigration(vault, Some(plain));
                }
                return StorePlan::Ready(OpenStore::Plaintext(plain), true);
            }
            let plain = PlaintextCredentialsStore::new(plaintext_path);
            if facts.keyring_works {
                let ring = KeyringCredentialsStore::new(service_or_default(cfg).as_str());
                StorePlan::Ready(OpenStore::Fallback(ring, plain), false)
            } else {
                StorePlan::Ready(OpenStore::Plaintext(plain), false)
            }
        },
        CredentialsBackend::Plaintext => StorePlan::Ready(
            OpenStore::Plaintext(PlaintextCredentialsStore::new(plaintext_path)),
            false,
        ),
        CredentialsBackend::Keyring => StorePlan::Ready(
            OpenStore::Keyring(KeyringCredentialsStore::new(service_or_default(cfg).as_str())),
            false,
        ),
        CredentialsBackend::EncryptedFile { cipher_path, key_params_path } => {
            StorePlan::AfterMigration(
                EncryptedFileCredentialsStore::new(cipher_path.clone(), key_params_path.clone()),
                None,
            )
        },
    }
}

/// The store that a plan comes to, given how the migration ended.
pub fn settle(plan: StorePlan, migration: Result<(), CredentialsError>) -> (r: Result<
    OpenStore,
    CredentialsError,
>)
    ensures
        match plan {
            StorePlan::Ready(store, _) => r == Ok::<OpenStore, CredentialsError>(store),
            StorePlan::AfterMigration(vault, plain) => match (migration, plain) {
                (Ok(_), _) => r == Ok::<OpenStore, CredentialsError>(OpenStore::Vault(vault)),
                (Err(_), Some(p)) => r == Ok::<OpenStore, CredentialsError>(
                    OpenStore::Plaintext(p),
                ),
                (Err(e), None) => r == Err::<OpenStore, CredentialsError>(e),
            },
        },
{
    match plan {
        StorePlan::Ready(store, _) => Ok(store),
        StorePlan::AfterMigration(vault, plain) => match migration {
            Ok(_) => Ok(OpenStore::Vault(vault)),
            Err(e) => match plain {
                Some(p) => Ok(OpenStore::Plaintext(p)),
                None => Err(e),
            },
        },
    }
}

/// An isolated home never shares its secrets through the OS keyring, unless the
/// configuration names the keyring.
pub proof fn law_isolated_home_avoids_keyring(
    plan: StorePlan,
    cfg: CredentialsStorageConfig,
    path: Seq<char>,
    dir: Seq<char>,
    facts: StoreFacts,
)
    requires
        is_plan(plan, cfg, path, dir, facts),
        facts.isolated_home,
        !(cfg.backend is Keyring),
    ensures
        match plan {
            StorePlan::Ready(store, _) => store is Plaintext,
            StorePlan::AfterMigration(_, _) => true,
        },
{
}

/// Where the configuration asks for the encrypted file, no plaintext store ever takes its
/// place.
pub proof fn law_chosen_encryption_is_kept(
    plan: StorePlan,
    cfg: CredentialsStorageConfig,
    path: Seq<char>,
    dir: Seq<char>,
    facts: StoreFacts,
)
    requires
        is_plan(plan, cfg, path, dir, facts),
        cfg.backend is EncryptedFile,
    ensures
        plan matches StorePlan::AfterMigration(_, plain) && plain is None,
{
}

/// Every configuration of the store is accepted.
pub fn validate_credentials_config(_cfg: &CredentialsStorageConfig) -> (r: Result<
    (),
    CredentialsError,
>)
    ensures
        r is Ok,
{
    Ok(())
}

/// What a read of the fallback store gives: the keyring's secret, else what the plaintext
/// file answers. A keyring that fails does not hide a secret in the file.
pub fn fallback_get(
    keyring: Result<Option<String>, CredentialsError>,
    plaintext: Result<Option<String>, CredentialsError>,
) -> (r: Result<Option<String>, CredentialsError>)
    ensures
        match keyring {
            Ok(Some(_)) => r == keyring,
            _ => r == plaintext,
        },
{
    match keyring {
        Ok(Some(s)) => Ok(Some(s)),
        _ => plaintext,
    }
}

/// Whether a write to the fallback store goes to the plaintext file, given how the keyring
/// took it.
pub fn fallback_put_needs_plaintext(keyring: &Result<(), CredentialsError>) -> (r: bool)
    ensures
        r == keyring is Err,
{
    keyring.is_err()
}

/// What deleting a secret from the keyring and from the plaintext file comes to. It goes from
/// both, so that it cannot come back from the file; only the file's failure counts.
pub fn fallback_delete(
    keyring: Result<(), CredentialsError>,
    plaintext: Result<(), CredentialsError>,
) -> (r: Result<(), CredentialsError>)
    ensures
        r == plaintext,
{
    let _ = keyring;
    plaintext
}

/// The warning for a credentials file that others than its owner may use, by its permission
/// bits.
pub open spec fn permission_warning(path: Seq<char>, mode: u32) -> Option<Seq<char>> {
    if mode & 0o077 != 0 {
        Some(
            "warning: "@ + path + " has permissions 0o"@ + digits((mode & 0o777) as nat, 8)
                + "; tightening to 0o600 on next write"@,
        )
    } else {
        None
    }
}

/// The warning for a credentials file that others than its owner may use, by its permission
/// bits.
pub fn warn_if_world_readable(path: &str, mode: u32) -> (r: Option<String>)
    ensures
        match r {
            Some(w) => permission_warning(path@, mode) == Some(w@),
            None => permission_warning(path@, mode) is None,
        },
{
    let bits: u32 = mode & 0o777;
    if mode & 0o077 != 0 {
        let head = concat3("warning: ", path, " has permissions 0o");
        Some(
            concat3(
                head.as_str(),
                octal(bits).as_str(),
                "; tightening to 0o600 on next write",
            ),
        )
    } else {
        None
    }
}

} // verus!
