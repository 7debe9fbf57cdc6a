use wcore_config::credentials::document::{
    document_text, plaintext_document, CROWDED, MAX_DEPTH,
};
use wcore_config::credentials::encrypted_file::{
    decrypt, derive_key, encrypt, encrypt_with_key, encrypt_with_nonce, EncryptedFileError,
    KdfParams, NONCE_LEN,
};
use wcore_config::credentials::lock::{
    is_stale, lock_busy, lock_nonce, owns_lock, LockStep, LockTries, LockTry, LOCK_TRIES,
};
use wcore_config::credentials::migration::{
    migrate_plaintext_into_vault, Action, Ending, Event, Stage,
};
use wcore_config::credentials::secrets::{
    delete_secret, get_secret, import_secrets, load_all, put_secret,
};
use wcore_config::credentials::stores::{
    fallback_delete, fallback_get, fallback_put_needs_plaintext, keyring_available,
    service_to_probe, warn_if_world_readable, KeyringCredentialsStore,
};
use wcore_config::credentials::vault::{
    default_vault_paths, passphrase_read, passphrase_source, validate_readable_fd,
    vault_unlock_material_present, PassphraseSource,
};
use wcore_config::credentials::{
    open_store, settle, validate_credentials_config, CredentialsBackend, CredentialsError,
    CredentialsStorageConfig, EncryptedFileCredentialsStore, KdfFile, OpenStore,
    PlaintextCredentialsStore, StoreFacts, StorePlan,
};
use wcore_config::keychain::KeychainReply;
use wcore_config::table::StrMap;
use wcore_config::value::Value;

fn parse(text: &str) -> StrMap<Value> {
    plaintext_document(Some(text)).unwrap()
}

fn render(doc: &StrMap<Value>) -> String {
    document_text(doc).unwrap()
}

/// The files that a vault and a plaintext store share.
struct Disk {
    plaintext: Option<String>,
    cipher: Option<Vec<u8>>,
    params: Option<Result<KdfParams, ()>>,
}

impl Disk {
    fn new(plaintext: Option<&str>) -> Disk {
        Disk {
            plaintext: plaintext.map(|s| s.to_string()),
            cipher: None,
            params: None,
        }
    }

    fn kdf(&self) -> KdfFile {
        match &self.params {
            None => KdfFile::Absent,
            Some(Err(())) => {
                KdfFile::Unreadable(EncryptedFileError::Serde("not valid".to_string()))
            }
            Some(Ok(p)) => KdfFile::Present(p.clone()),
        }
    }

    fn read(
        &self,
        store: &mut EncryptedFileCredentialsStore,
        passphrase: &str,
    ) -> Result<StrMap<Value>, CredentialsError> {
        store.unlock(passphrase.to_string(), self.kdf(), self.cipher.as_ref())?;
        store.unlocked.as_ref().unwrap().read_document(self.cipher.as_ref())
    }

    fn write(
        &mut self,
        store: &mut EncryptedFileCredentialsStore,
        passphrase: &str,
        doc: &StrMap<Value>,
    ) -> Result<(), CredentialsError> {
        store.unlock(passphrase.to_string(), self.kdf(), self.cipher.as_ref())?;
        let vault = store.unlocked.as_ref().unwrap();
        self.cipher = Some(vault.write_document(doc)?);
        self.params = Some(Ok(vault.params.clone()));
        Ok(())
    }

    fn migrate(
        &mut self,
        store: &mut EncryptedFileCredentialsStore,
        passphrase: &str,
    ) -> Result<(), CredentialsError> {
        let mut stage = Stage::Start;
        let mut event = Event::Begin {
            unlock_material: true,
            plaintext_exists: self.plaintext.is_some(),
        };
        loop {
            let (next, action) = migrate_plaintext_into_vault(stage, event);
            stage = next;
            event = match action {
                Action::TakeLock => Event::Lock(Ok(())),
                Action::ReadPlaintext => {
                    Event::Plaintext(Ok(parse(self.plaintext.as_deref().unwrap_or(""))))
                }
                Action::LookAtVault => Event::VaultFiles {
                    cipher_exists: self.cipher.is_some(),
                    params_usable: matches!(self.params, Some(Ok(_))),
                },
                Action::ReadVault { discard } => {
                    if discard {
                        self.cipher = None;
                        self.params = None;
                    }
                    Event::Vault(self.read(store, passphrase))
                }
                Action::WriteVault(doc) => Event::Written(self.write(store, passphrase, &doc)),
                Action::ReadVaultBack => Event::ReadBack(self.read(store, passphrase)),
                Action::Finish(Ending::Nothing) => return Ok(()),
                Action::Finish(Ending::Failed(e)) => return Err(e),
                Action::Finish(Ending::Moved { remove_plaintext, .. }) => {
                    if remove_plaintext {
                        self.plaintext = None;
                    }
                    return Ok(());
                }
            };
        }
    }
}

fn store() -> EncryptedFileCredentialsStore {
    EncryptedFileCredentialsStore::new("vault.enc".to_string(), "vault.params.json".to_string())
}

fn secret_in(doc: &StrMap<Value>, key: &str) -> Option<String> {
    get_secret(doc, key)
}

#[test]
fn kdf_params_default_has_random_salt() {
    let a = KdfParams::default();
    let b = KdfParams::default();
    assert_ne!(a.salt_b64, b.salt_b64);
    assert_eq!(a.m_cost, 64 * 1024);
    assert_eq!(a.t_cost, 3);
    assert_eq!(a.p_cost, 1);
    assert_eq!(a.version, 1);
}

#[test]
fn encrypt_decrypt_roundtrip_empty() {
    let (blob, params) = encrypt(b"", "pw").unwrap();
    let pt = decrypt(&blob, "pw", &params).unwrap();
    assert_eq!(pt, b"");
}

#[test]
fn encrypt_decrypt_roundtrip_typical() {
    let secret = vec![0xABu8; 200];
    let (blob, params) = encrypt(&secret, "correct-horse-battery-staple").unwrap();
    let pt = decrypt(&blob, "correct-horse-battery-staple", &params).unwrap();
    assert_eq!(pt, secret);
}

#[test]
fn decrypt_wrong_password_errors() {
    let (blob, params) = encrypt(b"top secret", "right").unwrap();
    let err = decrypt(&blob, "wrong", &params).unwrap_err();
    assert!(
        matches!(err, EncryptedFileError::Aead(_)),
        "expected Aead error, got {err:?}"
    );
}

#[test]
fn decrypt_too_short_errors() {
    let params = KdfParams::default();
    let err = decrypt(&[0u8; 10], "pw", &params).unwrap_err();
    assert!(
        matches!(err, EncryptedFileError::TooShort),
        "expected TooShort, got {err:?}"
    );
}

#[test]
fn decrypt_tampered_ciphertext_errors() {
    let (mut blob, params) = encrypt(b"hello world", "pw").unwrap();
    let tamper_idx = NONCE_LEN + 1;
    blob[tamper_idx] ^= 0x01;
    let err = decrypt(&blob, "pw", &params).unwrap_err();
    assert!(
        matches!(err, EncryptedFileError::Aead(_)),
        "expected Aead error after tamper, got {err:?}"
    );
}

#[test]
fn derive_key_deterministic_with_same_params() {
    let params = KdfParams::default();
    let k1 = derive_key("password123", &params).unwrap();
    let k2 = derive_key("password123", &params).unwrap();
    assert_eq!(k1, k2);
}

#[test]
fn derive_key_differs_with_different_password() {
    let params = KdfParams::default();
    let k1 = derive_key("password1", &params).unwrap();
    let k2 = derive_key("password2", &params).unwrap();
    assert_ne!(k1, k2);
}

/// The salt is base64, and the key is the one that Argon2id gives.
#[test]
fn key_and_salt_are_those_of_the_crates() {
    let salt = vec![7u8; 16];
    let params = KdfParams {
        m_cost: 64,
        t_cost: 1,
        ..KdfParams::with_salt(&salt)
    };
    assert_eq!(params.salt_b64, "BwcHBwcHBwcHBwcHBwcHBw");
    let mut expected = [0u8; 32];
    argon2::Argon2::new(
        argon2::Algorithm::Argon2id,
        argon2::Version::V0x13,
        argon2::Params::new(64, 1, 1, Some(32)).unwrap(),
    )
    .hash_password_into(b"pw", &salt, &mut expected)
    .unwrap();
    assert_eq!(derive_key("pw", &params).unwrap(), expected);
}

#[test]
fn every_key_failure_is_reported() {
    let bad_salt = KdfParams {
        salt_b64: "???".to_string(),
        ..KdfParams::default()
    };
    assert!(matches!(
        derive_key("pw", &bad_salt),
        Err(EncryptedFileError::Base64(_))
    ));
    let no_memory = KdfParams {
        m_cost: 0,
        ..KdfParams::default()
    };
    assert!(matches!(
        derive_key("pw", &no_memory),
        Err(EncryptedFileError::KdfParams(_))
    ));
    let short_salt = KdfParams::with_salt(&vec![1u8, 2]);
    assert!(matches!(
        derive_key("pw", &short_salt),
        Err(EncryptedFileError::Argon2(_))
    ));
    assert_eq!(
        EncryptedFileError::TooShort.message(),
        "file too short"
    );
}

#[test]
fn sealed_bytes_start_with_the_nonce() {
    let key = [9u8; 32];
    let nonce = vec![5u8; NONCE_LEN];
    let blob = encrypt_with_nonce(b"abc", &key, nonce.clone()).unwrap();
    assert_eq!(&blob[..NONCE_LEN], &nonce[..]);
    assert_eq!(blob.len(), NONCE_LEN + 3 + 16);
    let a = encrypt_with_key(b"abc", &key).unwrap();
    let b = encrypt_with_key(b"abc", &key).unwrap();
    assert_ne!(a, b);
}

#[test]
fn plaintext_round_trip() {
    let mut doc = StrMap::new();
    assert!(secret_in(&doc, "anthropic_api_key").is_none());

    put_secret(&mut doc, "anthropic_api_key", "sk-ant-secret");
    assert_eq!(
        secret_in(&doc, "anthropic_api_key").as_deref(),
        Some("sk-ant-secret")
    );

    put_secret(&mut doc, "openai_api_key", "sk-test");
    assert_eq!(secret_in(&doc, "openai_api_key").as_deref(), Some("sk-test"));

    delete_secret(&mut doc, "anthropic_api_key");
    assert!(secret_in(&doc, "anthropic_api_key").is_none());
    assert_eq!(secret_in(&doc, "openai_api_key").as_deref(), Some("sk-test"));
}

#[test]
fn default_backend_is_auto() {
    let cfg = CredentialsStorageConfig::default();
    assert!(matches!(cfg.backend, CredentialsBackend::Auto));
}

#[test]
fn encrypted_file_write_then_read_via_backend() {
    let pass = "test-passphrase-1";
    let mut disk = Disk::new(None);
    let mut vault = store();
    let mut doc = disk.read(&mut vault, pass).unwrap();
    assert!(secret_in(&doc, "anthropic_api_key").is_none());

    put_secret(&mut doc, "anthropic_api_key", "sk-ant-secret");
    put_secret(&mut doc, "openai_api_key", "sk-openai");
    disk.write(&mut vault, pass, &doc).unwrap();
    assert!(disk.cipher.is_some(), "cipher blob not written");
    assert!(disk.params.is_some(), "kdf params not written");

    let mut doc = disk.read(&mut vault, pass).unwrap();
    assert_eq!(
        secret_in(&doc, "anthropic_api_key").as_deref(),
        Some("sk-ant-secret")
    );
    assert_eq!(secret_in(&doc, "openai_api_key").as_deref(), Some("sk-openai"));

    delete_secret(&mut doc, "anthropic_api_key");
    disk.write(&mut vault, pass, &doc).unwrap();
    let doc = disk.read(&mut vault, pass).unwrap();
    assert!(secret_in(&doc, "anthropic_api_key").is_none());
    assert_eq!(secret_in(&doc, "openai_api_key").as_deref(), Some("sk-openai"));
}

#[test]
fn encrypted_file_survives_fresh_store_instance() {
    let pass = "test-passphrase-2";
    let mut disk = Disk::new(None);
    let mut writer = store();
    assert!(!writer.is_unlocked());
    let mut doc = StrMap::new();
    put_secret(&mut doc, "k1", "v1");
    put_secret(&mut doc, "k2", "v2");
    disk.write(&mut writer, pass, &doc).unwrap();
    assert!(writer.is_unlocked());

    let mut reader = store();
    let doc = disk.read(&mut reader, pass).unwrap();
    assert_eq!(secret_in(&doc, "k1").as_deref(), Some("v1"));
    assert_eq!(secret_in(&doc, "k2").as_deref(), Some("v2"));
}

#[test]
fn encrypted_file_wrong_passphrase_fails_unlock() {
    let mut disk = Disk::new(None);
    let mut doc = StrMap::new();
    put_secret(&mut doc, "k", "v");
    disk.write(&mut store(), "correct-passphrase", &doc).unwrap();

    let err = disk.read(&mut store(), "wrong-passphrase").err().unwrap();
    assert!(
        matches!(err, CredentialsError::BackendUnavailable(ref m) if m.contains("vault unlock failed")),
        "expected BackendUnavailable with unlock-failed message, got {err:?}"
    );
}

#[test]
fn encrypted_file_tampered_blob_fails_unlock() {
    let pass = "test-passphrase-3";
    let mut disk = Disk::new(None);
    let mut doc = StrMap::new();
    put_secret(&mut doc, "k", "v");
    disk.write(&mut store(), pass, &doc).unwrap();

    let idx = 24 + 1;
    disk.cipher.as_mut().unwrap()[idx] ^= 0xff;

    let err = disk.read(&mut store(), pass).err().unwrap();
    assert!(
        matches!(err, CredentialsError::BackendUnavailable(_)),
        "expected BackendUnavailable after tamper, got {err:?}"
    );
}

#[test]
fn encrypted_file_factory_wires_backend() {
    let cfg = CredentialsStorageConfig {
        backend: CredentialsBackend::EncryptedFile {
            cipher_path: "/d/creds.enc".to_string(),
            key_params_path: "/d/creds.params.json".to_string(),
        },
        service_name: None,
    };
    let facts = StoreFacts {
        isolated_home: false,
        unlock_material: true,
        keyring_works: true,
    };
    match open_store(&cfg, "/d/unused.toml", "/d", &facts) {
        StorePlan::AfterMigration(vault, None) => {
            assert_eq!(vault.cipher_path, "/d/creds.enc");
            assert_eq!(vault.key_params_path, "/d/creds.params.json");
        }
        _ => panic!("the encrypted file was asked for"),
    }
    validate_credentials_config(&cfg).expect("encrypted-file validator passes");
}

#[test]
fn migrate_plaintext_into_vault_imports_verifies_and_removes() {
    let pass = "migrate-pass-1";
    let mut disk = Disk::new(Some(
        "[secrets]\nanthropic_api_key = \"sk-ant-1\"\nopenai_api_key = \"sk-oai-2\"\n",
    ));
    let mut vault = store();
    disk.migrate(&mut vault, pass).unwrap();

    let doc = disk.read(&mut vault, pass).unwrap();
    assert_eq!(secret_in(&doc, "anthropic_api_key").as_deref(), Some("sk-ant-1"));
    assert_eq!(secret_in(&doc, "openai_api_key").as_deref(), Some("sk-oai-2"));
    assert!(disk.cipher.is_some(), "vault ciphertext should be written");
    assert!(
        disk.plaintext.is_none(),
        "plaintext file should be removed after a verified migration"
    );
}

#[test]
fn migrate_merges_without_clobbering_existing_vault_keys() {
    let pass = "migrate-pass-2";
    let mut disk = Disk::new(Some(
        "[secrets]\nshared = \"plain-shared\"\nplaintext_only = \"plain-only\"\n",
    ));
    let mut vault = store();
    let mut doc = StrMap::new();
    put_secret(&mut doc, "shared", "vault-shared");
    disk.write(&mut vault, pass, &doc).unwrap();

    disk.migrate(&mut vault, pass).unwrap();
    let doc = disk.read(&mut vault, pass).unwrap();
    assert_eq!(secret_in(&doc, "shared").as_deref(), Some("vault-shared"));
    assert_eq!(secret_in(&doc, "plaintext_only").as_deref(), Some("plain-only"));
    assert!(
        disk.plaintext.is_none(),
        "plaintext should be removed after every key is resolvable in the vault"
    );
}

#[test]
fn migrate_discards_orphaned_ciphertext_without_kdf() {
    let pass = "migrate-pass-orphan";
    let mut disk = Disk::new(Some("[secrets]\nk1 = \"v1\"\nk2 = \"v2\"\n"));
    disk.cipher = Some(b"orphaned-unreadable-ciphertext".to_vec());

    let mut vault = store();
    disk.migrate(&mut vault, pass).unwrap();

    let doc = disk.read(&mut vault, pass).unwrap();
    assert_eq!(secret_in(&doc, "k1").as_deref(), Some("v1"));
    assert_eq!(secret_in(&doc, "k2").as_deref(), Some("v2"));
    assert!(disk.params.is_some(), "kdf params should be rebuilt");
    assert!(disk.plaintext.is_none());
}

#[test]
fn migrate_discards_ciphertext_with_corrupt_kdf() {
    let pass = "migrate-pass-corruptkdf";
    let mut disk = Disk::new(Some("[secrets]\nk = \"v\"\n"));
    disk.cipher = Some(b"orphaned-ciphertext".to_vec());
    disk.params = Some(Err(()));

    let mut vault = store();
    disk.migrate(&mut vault, pass).unwrap();

    let doc = disk.read(&mut vault, pass).unwrap();
    assert_eq!(secret_in(&doc, "k").as_deref(), Some("v"));
    assert!(disk.plaintext.is_none());
}

#[test]
fn migration_lock_drop_removes_only_our_own_lock() {
    let ours = lock_nonce(41, 7);
    assert_eq!(ours, "41-7");
    assert!(!owns_lock(Some("another-process-nonce"), &ours));
    assert!(!owns_lock(None, &ours));
    assert!(owns_lock(Some("41-7"), &ours));
}

#[test]
fn migrate_keeps_plaintext_when_non_string_entries_present() {
    let pass = "migrate-pass-nonstr";
    let mut disk = Disk::new(Some("[secrets]\napi_key = \"sk-real\"\nport = 8080\n"));
    let mut vault = store();
    disk.migrate(&mut vault, pass).unwrap();

    let doc = disk.read(&mut vault, pass).unwrap();
    assert_eq!(secret_in(&doc, "api_key").as_deref(), Some("sk-real"));
    assert!(
        disk.plaintext.is_some(),
        "plaintext must be kept when it holds a non-string entry that cannot migrate"
    );
}

#[test]
fn migrate_is_noop_without_plaintext_secrets() {
    let pass = "migrate-pass-3";
    let mut disk = Disk::new(None);
    let mut vault = store();
    disk.migrate(&mut vault, pass).unwrap();
    assert!(
        disk.cipher.is_none(),
        "no vault should be created when there is nothing to migrate"
    );

    disk.plaintext = Some(String::new());
    disk.migrate(&mut vault, pass).unwrap();
    assert!(disk.cipher.is_none());
    assert!(disk.plaintext.is_some());
}

#[test]
fn open_store_encrypted_file_migrates_plaintext_once() {
    let pass = "migrate-pass-4";
    let cfg = CredentialsStorageConfig {
        backend: CredentialsBackend::EncryptedFile {
            cipher_path: "/d/credentials.enc".to_string(),
            key_params_path: "/d/credentials.kdf.json".to_string(),
        },
        service_name: None,
    };
    let facts = StoreFacts {
        isolated_home: false,
        unlock_material: true,
        keyring_works: false,
    };
    let mut disk = Disk::new(Some("[secrets]\nprovider_key = \"sk-live-xyz\"\n"));
    for _ in 0..2 {
        let plan = open_store(&cfg, "/d/credentials.toml", "/d", &facts);
        let mut vault = match plan {
            StorePlan::AfterMigration(vault, None) => vault,
            _ => panic!("the encrypted file was asked for"),
        };
        disk.migrate(&mut vault, pass).unwrap();
        let doc = disk.read(&mut vault, pass).unwrap();
        assert_eq!(secret_in(&doc, "provider_key").as_deref(), Some("sk-live-xyz"));
        assert!(disk.cipher.is_some());
        assert!(
            disk.plaintext.is_none(),
            "plaintext removed after migrating via open_store"
        );
    }
}

#[test]
fn open_store_auto_isolated_migrates_plaintext_to_vault() {
    let pass = "migrate-pass-5";
    let facts = StoreFacts {
        isolated_home: true,
        unlock_material: true,
        keyring_works: true,
    };
    let mut disk = Disk::new(Some("[secrets]\nisolated_key = \"sk-iso\"\n"));
    let cfg = CredentialsStorageConfig::default();
    let (cipher, _params) = default_vault_paths("/d");
    let mut vault = match open_store(&cfg, "/d/credentials.toml", "/d", &facts) {
        StorePlan::AfterMigration(vault, Some(plain)) => {
            assert_eq!(plain.path(), "/d/credentials.toml");
            vault
        }
        _ => panic!("an isolated home keeps its secrets in its vault"),
    };
    assert_eq!(vault.cipher_path, cipher);
    disk.migrate(&mut vault, pass).unwrap();
    let doc = disk.read(&mut vault, pass).unwrap();
    assert_eq!(secret_in(&doc, "isolated_key").as_deref(), Some("sk-iso"));
    assert!(
        disk.plaintext.is_none(),
        "plaintext removed after auto-isolated migration"
    );
}

#[test]
fn passphrase_fd_validation_rejects_bad_fds() {
    assert!(
        validate_readable_fd(5, 0, 0).is_ok(),
        "an open read-only fd must validate"
    );
    assert!(validate_readable_fd(5, 1, 2).is_ok());
    match validate_readable_fd(5, 0, 1) {
        Err(e) => assert_eq!(
            e.message(),
            "backend not available: GENESIS_VAULT_PASSPHRASE_FD=5 is write-only; a readable fd is required"
        ),
        Ok(()) => panic!("a write-only fd must be rejected"),
    }
    assert!(
        validate_readable_fd(9999, -1, -1).is_err(),
        "a closed/unopened fd must be rejected"
    );
    assert!(
        validate_readable_fd(-1, -1, -1).is_err(),
        "a negative fd must be rejected"
    );
}

#[test]
fn passphrase_comes_from_the_first_source() {
    let source = |has, fd: Option<&str>, pass: Option<&str>| {
        passphrase_source(has, fd.map(|s| s.to_string()), pass.map(|s| s.to_string()))
    };
    assert!(matches!(
        source(true, Some("+3"), Some("p")),
        Ok(PassphraseSource::Descriptor(3))
    ));
    assert!(matches!(
        source(false, Some("3"), Some("p")),
        Ok(PassphraseSource::Environment(_))
    ));
    assert!(matches!(source(true, None, None), Ok(PassphraseSource::Prompt)));
    assert!(source(true, Some("three"), None).is_err());
    assert_eq!(passphrase_read("pw\n\n"), "pw");
    assert_eq!(passphrase_read(" pw\r\n"), " pw\r");
    assert!(vault_unlock_material_present(true, true, false));
    assert!(!vault_unlock_material_present(false, true, false));
}

#[test]
fn stores_are_chosen_by_what_is_there() {
    let cfg = CredentialsStorageConfig::default();
    let facts = |isolated_home, unlock_material, keyring_works| StoreFacts {
        isolated_home,
        unlock_material,
        keyring_works,
    };
    match open_store(&cfg, "/d/c.toml", "/d", &facts(false, false, true)) {
        StorePlan::Ready(OpenStore::Fallback(ring, plain), false) => {
            assert_eq!(plain.path(), "/d/c.toml");
            assert_eq!(Some(ring.service().to_string()), service_to_probe(&cfg, false));
        }
        _ => panic!("the keyring works"),
    }
    assert!(matches!(
        open_store(&cfg, "/d/c.toml", "/d", &facts(false, false, false)),
        StorePlan::Ready(OpenStore::Plaintext(_), false)
    ));
    assert!(matches!(
        open_store(&cfg, "/d/c.toml", "/d", &facts(true, false, true)),
        StorePlan::Ready(OpenStore::Plaintext(_), true)
    ));
    assert_eq!(service_to_probe(&cfg, true), None);
}

#[test]
fn failed_migration_falls_back_only_where_it_may() {
    let facts = StoreFacts {
        isolated_home: true,
        unlock_material: true,
        keyring_works: false,
    };
    let auto = CredentialsStorageConfig::default();
    let plan = open_store(&auto, "/d/c.toml", "/d", &facts);
    assert!(matches!(settle(plan, Err(lock_busy())), Ok(OpenStore::Plaintext(_))));
    let plan = open_store(&auto, "/d/c.toml", "/d", &facts);
    assert!(matches!(settle(plan, Ok(())), Ok(OpenStore::Vault(_))));
    let chosen = CredentialsStorageConfig {
        backend: CredentialsBackend::EncryptedFile {
            cipher_path: "c".to_string(),
            key_params_path: "k".to_string(),
        },
        service_name: None,
    };
    let plan = open_store(&chosen, "/d/c.toml", "/d", &facts);
    assert!(settle(plan, Err(lock_busy())).is_err());
}

#[test]
fn keyring_is_asked_before_the_file() {
    let held = fallback_get(Ok(Some("ring".to_string())), Ok(Some("file".to_string())));
    assert_eq!(held.unwrap().as_deref(), Some("ring"));
    let held = fallback_get(Ok(None), Ok(Some("file".to_string())));
    assert_eq!(held.unwrap().as_deref(), Some("file"));
    let broken = Err(CredentialsError::Keyring("x".to_string()));
    assert!(fallback_put_needs_plaintext(&broken));
    assert_eq!(fallback_get(broken.map(|()| None), Ok(None)).unwrap(), None);
    assert!(!fallback_put_needs_plaintext(&Ok(())));
}

#[test]
fn keyring_replies_become_store_results() {
    let found = KeyringCredentialsStore::get(KeychainReply::Value("s".to_string()));
    assert_eq!(found.unwrap().as_deref(), Some("s"));
    assert_eq!(KeyringCredentialsStore::get(KeychainReply::NoEntry).unwrap(), None);
    let failed = KeyringCredentialsStore::get(KeychainReply::Other("torn".to_string()));
    assert_eq!(failed.unwrap_err().message(), "keyring error: torn");
    assert!(KeyringCredentialsStore::put(KeychainReply::Value(())).is_ok());
    assert!(KeyringCredentialsStore::put(KeychainReply::NoEntry).is_err());
    assert!(KeyringCredentialsStore::delete(KeychainReply::NoEntry).is_ok());
    assert!(KeyringCredentialsStore::delete(KeychainReply::Unreachable("x".to_string())).is_err());
    assert!(keyring_available(&KeychainReply::NoEntry));
    assert!(!keyring_available(&KeychainReply::Other("x".to_string())));
    let broken = || Err(CredentialsError::Keyring("x".to_string()));
    assert!(fallback_delete(broken(), Ok(())).is_ok());
    assert!(fallback_delete(Ok(()), broken()).is_err());
}

#[test]
fn lock_is_waited_for_and_stolen_when_stale() {
    assert!(!is_stale(Some((60, 0))));
    assert!(is_stale(Some((60, 1))));
    assert!(!is_stale(None));
    let mut tries = LockTries::new();
    assert!(matches!(tries.after(LockTry::Held(Some((1, 0)))), LockStep::Wait));
    assert!(matches!(tries.after(LockTry::Held(Some((90, 0)))), LockStep::Steal));
    assert!(matches!(tries.after(LockTry::Created), LockStep::Acquired));
    assert!(matches!(
        tries.after(LockTry::Failed(CredentialsError::Io("disk".to_string()))),
        LockStep::Fail(_)
    ));
    let mut made = 4;
    while tries.may_try() {
        tries.after(LockTry::Held(None));
        made += 1;
    }
    assert_eq!(made, LOCK_TRIES);
    assert_eq!(
        lock_busy().message(),
        "backend not available: credentials migration lock is busy; will retry on next open"
    );
}

#[test]
fn loose_permissions_are_warned_about() {
    assert_eq!(
        warn_if_world_readable("/d/c.toml", 0o100644).as_deref(),
        Some("warning: /d/c.toml has permissions 0o644; tightening to 0o600 on next write")
    );
    assert_eq!(warn_if_world_readable("/d/c.toml", 0o100600), None);
}

#[test]
fn failed_steps_end_the_migration() {
    let (_, action) = migrate_plaintext_into_vault(
        Stage::Locking,
        Event::Lock(Err(CredentialsError::Io("no".to_string()))),
    );
    assert!(matches!(action, Action::Finish(Ending::Failed(_))));
    let (_, action) = migrate_plaintext_into_vault(
        Stage::Start,
        Event::Begin {
            unlock_material: false,
            plaintext_exists: true,
        },
    );
    assert!(matches!(action, Action::Finish(Ending::Nothing)));
}

#[test]
fn only_text_entries_count_as_secrets() {
    let doc = parse("[secrets]\na = \"x\"\nb = 3\n");
    let (pairs, all) = load_all(&doc);
    assert_eq!(pairs, vec![("a".to_string(), "x".to_string())]);
    assert_eq!(all, 2);
    let mut target = parse("[secrets]\na = \"mine\"\n");
    import_secrets(&mut target, &vec![
        ("a".to_string(), "theirs".to_string()),
        ("c".to_string(), "new".to_string()),
    ]);
    assert_eq!(get_secret(&target, "a").as_deref(), Some("mine"));
    assert_eq!(get_secret(&target, "c").as_deref(), Some("new"));
}

/// What is decrypted must be text.
#[test]
fn vault_of_other_bytes_is_refused() {
    let pass = "bytes";
    let (blob, params) = encrypt(&[0xff, 0xfe], pass).unwrap();
    let mut vault = store();
    vault
        .unlock(pass.to_string(), KdfFile::Present(params), Some(&blob))
        .unwrap();
    let err = vault.unlocked.as_ref().unwrap().read(Some(&blob)).unwrap_err();
    assert!(err.message().contains("utf-8"), "{}", err.message());
}

#[test]
fn document_is_read_from_its_text() {
    let doc = parse(
        "answer = 42\nratio = 1.5\nborn = 1979-05-27\nlist = [true, \"x\"]\n[secrets]\na = \"1\"\n",
    );
    assert_eq!(get_secret(&doc, "a").as_deref(), Some("1"));
    assert!(matches!(doc.get("answer"), Some(Value::Atom(t)) if t == "42"));
    assert!(matches!(doc.get("ratio"), Some(Value::Atom(t)) if t == "1.5"));
    assert!(matches!(doc.get("born"), Some(Value::Atom(t)) if t == "1979-05-27"));
    match doc.get("list") {
        Some(Value::List(items)) => {
            assert_eq!(items.len(), 2);
            assert!(matches!(items[0], Value::Bool(true)));
            assert!(matches!(&items[1], Value::Text(t) if t == "x"));
        }
        _ => panic!("a list"),
    }
    let again = parse(&render(&doc));
    assert!(matches!(again.get("answer"), Some(Value::Atom(t)) if t == "42"));
    assert!(matches!(again.get("ratio"), Some(Value::Atom(t)) if t == "1.5"));
    assert!(matches!(again.get("born"), Some(Value::Atom(t)) if t == "1979-05-27"));
    assert!(plaintext_document(None).unwrap().is_empty());
    assert!(matches!(
        plaintext_document(Some("[secrets")),
        Err(CredentialsError::TomlParse(_))
    ));
}

#[test]
fn document_without_a_text_is_refused() {
    let mut doc = StrMap::new();
    doc.insert("x".to_string(), Value::Null);
    assert!(matches!(document_text(&doc), Err(CredentialsError::TomlSerialize(_))));
    let mut doc = StrMap::new();
    doc.insert("x".to_string(), Value::Atom("no number".to_string()));
    assert!(matches!(document_text(&doc), Err(CredentialsError::TomlSerialize(_))));
    let why = |names: [&str; 2]| {
        let mut doc = StrMap::new();
        for name in names {
            doc.insert(name.to_string(), Value::Atom(format!("no number {name}")));
        }
        match document_text(&doc) {
            Err(CredentialsError::TomlSerialize(why)) => why,
            _ => panic!("no number"),
        }
    };
    assert_eq!(why(["a", "b"]), why(["b", "a"]));
    let mut doc = StrMap::new();
    doc.insert("x".to_string(), Value::Text("\"".repeat(255)));
    assert!(document_text(&doc).is_ok());
    doc.insert("x".to_string(), Value::List(vec![Value::Text("'".repeat(256))]));
    assert!(matches!(
        document_text(&doc),
        Err(CredentialsError::TomlSerialize(why)) if why == CROWDED
    ));
}

#[test]
fn plaintext_store_gives_back_what_was_put() {
    let tricky = "a\"b'c\\d\r\n\te\u{7f}\u{e9} '''\"\"\"";
    let text = PlaintextCredentialsStore::put(None, "k.1", tricky).unwrap();
    let text = PlaintextCredentialsStore::put(Some(&text), "other", "2").unwrap();
    let get = |t: &str, k: &str| PlaintextCredentialsStore::get(Some(t), k).unwrap();
    assert_eq!(get(&text, "k.1").as_deref(), Some(tricky));
    assert_eq!(get(&text, "other").as_deref(), Some("2"));
    assert_eq!(get(&text, "none"), None);
    let text = PlaintextCredentialsStore::delete(Some(&text), "k.1").unwrap();
    assert_eq!(get(&text, "k.1"), None);
    assert_eq!(get(&text, "other").as_deref(), Some("2"));
    assert_eq!(PlaintextCredentialsStore::get(None, "k").unwrap(), None);
    assert!(matches!(
        PlaintextCredentialsStore::put(Some("="), "k", "v"),
        Err(CredentialsError::TomlParse(_))
    ));
}

#[test]
fn vault_gives_back_what_was_put() {
    let mut vault = store();
    vault.unlock("pass".to_string(), KdfFile::Absent, None).unwrap();
    let open = vault.unlocked.as_ref().unwrap();
    assert_eq!(open.params.m_cost, 64 * 1024);
    assert_eq!(open.params.t_cost, 3);
    assert_eq!(open.params.p_cost, 1);
    assert_eq!(open.params.version, 1);
    assert_eq!(open.params.salt_b64.len(), 22);
    let params = KdfParams {
        m_cost: 64,
        t_cost: 1,
        ..KdfParams::default()
    };
    let mut vault = store();
    vault.unlock("pass".to_string(), KdfFile::Present(params), None).unwrap();
    let open = vault.unlocked.as_ref().unwrap();
    assert_eq!(open.get(None, "a").unwrap(), None);
    let blob = open.put(None, "a", "1").unwrap();
    let blob = open.put(Some(&blob), "b", "2").unwrap();
    assert_eq!(open.get(Some(&blob), "a").unwrap().as_deref(), Some("1"));
    assert_eq!(open.get(Some(&blob), "b").unwrap().as_deref(), Some("2"));
    let blob = open.delete(Some(&blob), "a").unwrap();
    assert_eq!(open.get(Some(&blob), "a").unwrap(), None);
    assert_eq!(open.get(Some(&blob), "b").unwrap().as_deref(), Some("2"));
    let torn = open.write("[secrets").unwrap();
    assert!(matches!(
        open.get(Some(&torn), "b"),
        Err(CredentialsError::TomlParse(_))
    ));
    assert!(open.get(Some(&vec![0u8; 50]), "b").is_err());
}

#[test]
fn too_many_lanes_are_refused() {
    let params = KdfParams {
        p_cost: 0x2000_0000,
        ..KdfParams::default()
    };
    match derive_key("p", &params) {
        Err(e) => assert!(e.message().contains("memory cost is too small"), "{}", e.message()),
        Ok(_) => panic!("too many lanes"),
    }
}

#[test]
fn every_short_text_comes_back() {
    let alphabet = ['a', '"', '\'', '\\', '\n', '\r', '\t', '\u{1}', ' ', '\u{7f}', '\u{feff}'];
    let mut texts = vec![String::new()];
    let mut last = texts.clone();
    for _ in 0..3 {
        let mut next = Vec::new();
        for t in &last {
            for c in alphabet {
                next.push(format!("{t}{c}"));
            }
        }
        texts.extend(next.iter().cloned());
        last = next;
    }
    for part in texts.chunks(500) {
        let mut doc = StrMap::new();
        let mut fields = Vec::new();
        for t in part {
            doc.insert(t.clone(), Value::Text(t.clone()));
            fields.push((t.clone(), Value::Text(t.clone())));
        }
        doc.insert("table".to_string(), Value::Table(fields));
        let again = parse(&render(&doc));
        for t in part {
            assert!(matches!(again.get(t), Some(Value::Text(v)) if v == t), "{t:?}");
        }
        match again.get("table") {
            Some(Value::Table(fields)) => {
                assert_eq!(fields.len(), part.len());
                for (k, v) in fields {
                    assert!(matches!(v, Value::Text(v) if v == k), "{k:?}");
                    assert!(part.contains(k), "{k:?}");
                }
            }
            _ => panic!("a table"),
        }
    }
}

/// A row of numbers that look random.
struct Dice(u64);

impl Dice {
    fn roll(&mut self, sides: u64) -> u64 {
        self.0 = self.0.wrapping_mul(6364136223846793005).wrapping_add(1442695040888963407);
        (self.0 >> 33) % sides
    }

    fn text(&mut self) -> String {
        let alphabet = ['a', '"', '\'', '\\', '\n', '\r', ' ', '.', '\u{e9}', '1'];
        let n = self.roll(5);
        (0..n).map(|_| alphabet[self.roll(10) as usize]).collect()
    }

    fn value(&mut self, atoms: &[String], depth: u64) -> Value {
        match self.roll(if depth == 0 { 3 } else { 6 }) {
            0 => Value::Text(self.text()),
            1 => Value::Bool(self.roll(2) == 0),
            2 => Value::Atom(atoms[self.roll(atoms.len() as u64) as usize].clone()),
            3 => {
                let n = self.roll(4);
                Value::List((0..n).map(|_| self.value(atoms, depth - 1)).collect())
            }
            4 => {
                let n = self.roll(4);
                Value::List((0..n).map(|_| self.table(atoms, depth - 1)).collect())
            }
            _ => self.table(atoms, depth - 1),
        }
    }

    fn table(&mut self, atoms: &[String], depth: u64) -> Value {
        let mut fields: Vec<(String, Value)> = Vec::new();
        for _ in 0..self.roll(5) {
            let key = self.text();
            if fields.iter().all(|(k, _)| *k != key) {
                fields.push((key, self.value(atoms, depth)));
            }
        }
        Value::Table(fields)
    }
}

fn same(a: &Value, b: &Value) -> bool {
    match (a, b) {
        (Value::Bool(x), Value::Bool(y)) => x == y,
        (Value::Atom(x), Value::Atom(y)) => x == y,
        (Value::Text(x), Value::Text(y)) => x == y,
        (Value::List(x), Value::List(y)) => {
            x.len() == y.len() && x.iter().zip(y).all(|(a, b)| same(a, b))
        }
        (Value::Table(x), Value::Table(y)) => {
            x.len() == y.len()
                && y.iter().all(|(k, v)| x.iter().any(|(j, w)| j == k && same(w, v)))
        }
        _ => false,
    }
}

const WRITTEN_ATOMS: [&str; 32] = [
    "0", "-7", "+12", "0xff", "1_000", "9223372036854775807", "-9223372036854775808", "1.5", "-0.0",
    "0.1", "1e3", "1e300", "-1e999", "1e-300", "123456789.125", "inf", "-inf", "nan", "-nan",
    "1979-05-27", "1979-05-27T07:32:00Z", "1979-05-27t07:32:00z", "1979-05-27 07:32:00.5",
    "1979-05-27T23:59:60.120300-07:30", "1979-05-27T00:32:00.999999999+00:00", "07:32:00",
    "00:00:60.5", "2000-02-29", "0000-01-01", "1979-05-27T00:00:00.1234567891+23:59",
    "5e-324", "1.7976931348623157e308",
];

#[test]
fn numbers_dates_and_lists_come_back() {
    let atoms: Vec<String> = WRITTEN_ATOMS
        .iter()
        .map(|raw| match parse(&format!("x = {raw}")).get("x") {
            Some(Value::Atom(s)) => s.clone(),
            _ => panic!("{raw}"),
        })
        .collect();
    let mut dice = Dice(1);
    for _ in 0..1500 {
        let mut doc = StrMap::new();
        for _ in 0..dice.roll(6) {
            let key = dice.text();
            let depth = dice.roll(6);
            doc.insert(key, dice.value(&atoms, depth));
        }
        let text = render(&doc);
        let again = parse(&text);
        assert_eq!(again.entries().len(), doc.entries().len(), "{text}");
        for (k, v) in doc.entries() {
            assert!(again.get(k).is_some_and(|w| same(w, v)), "{k:?} in {text}");
        }
    }
}

#[test]
fn hand_edited_document_keeps_the_rest() {
    let text = "port = 8080\nbig = 1e300\nlist = [1, [2.5], { a = 1979-05-27 }]\n[secrets]\n\
                old = \"o\"\nn = 1\n[other.deep]\nx = true\n";
    let text = PlaintextCredentialsStore::put(Some(text), "new", "v").unwrap();
    let get = |t: &str, k: &str| PlaintextCredentialsStore::get(Some(t), k).unwrap();
    assert_eq!(get(&text, "new").as_deref(), Some("v"));
    assert_eq!(get(&text, "old").as_deref(), Some("o"));
    assert_eq!(get(&text, "n"), None);
    let doc = parse(&text);
    assert!(matches!(doc.get("port"), Some(Value::Atom(s)) if s == "8080"));
    assert!(matches!(doc.get("big"), Some(Value::Atom(s)) if s.len() == 303));
    assert!(matches!(doc.get("list"), Some(Value::List(items)) if items.len() == 3));
    assert!(doc.contains_key("other"));
}

#[test]
fn depth_that_is_promised_can_be_read() {
    for depth in [1, 32, 78, 79, 80] {
        let mut list = Value::Bool(true);
        let mut table = Value::Bool(true);
        let mut both = Value::Bool(true);
        let mut inline = Value::Bool(true);
        for i in 0..depth {
            list = Value::List(vec![list]);
            table = Value::Table(vec![("k".to_string(), table)]);
            inline = if i % 2 == 0 {
                Value::List(vec![inline, Value::Bool(false)])
            } else {
                Value::Table(vec![("k".to_string(), inline)])
            };
            both = if i % 2 == 0 {
                Value::List(vec![both])
            } else {
                Value::Table(vec![("k".to_string(), both)])
            };
        }
        for v in [list, table, both, inline] {
            let mut doc = StrMap::new();
            doc.insert("x".to_string(), v);
            let again = plaintext_document(Some(&render(&doc)));
            if depth <= MAX_DEPTH as usize {
                assert!(same(again.unwrap().get("x").unwrap(), doc.get("x").unwrap()));
            }
        }
    }
}
