//! Credential storage.

pub mod document;
pub mod encrypted_file;
pub mod error;
pub mod lock;
pub mod migration;
pub mod secrets;
pub mod stores;
pub mod vault;

pub use encrypted_file::{EncryptedFileError, KdfParams};
pub use error::CredentialsError;
pub use stores::{
    open_store, settle, validate_credentials_config, KeyringCredentialsStore, OpenStore,
    PlaintextCredentialsStore, StoreFacts, StorePlan,
};
pub use vault::{EncryptedFileCredentialsStore, KdfFile, UnlockedVault};

use crate::replica::Replica;
use vstd::prelude::*;

verus! {

/// Where credentials are stored.
#[derive(Debug, Clone)]
pub enum CredentialsBackend {
    /// The OS keyring, with the plaintext file as fallback.
    Auto,
    /// A plaintext file.
    Plaintext,
    /// The OS keyring.
    Keyring,
    /// An encrypted file.
    EncryptedFile {
        /// Path of the ciphertext file.
        cipher_path: String,
        /// Path of the file with the key-derivation parameters.
        key_params_path: String,
    },
}

impl CredentialsBackend {
    /// Whether the backend is the built-in one.
    pub open spec fn is_default(self) -> bool {
        self is Auto
    }
}

impl Default for CredentialsBackend {
    fn default() -> (r: Self)
        ensures
            r.is_default(),
    {
        CredentialsBackend::Auto
    }
}

impl Replica for CredentialsBackend {
    open spec fn same(self, other: Self) -> bool {
        match (self, other) {
            (CredentialsBackend::Auto, CredentialsBackend::Auto) => true,
            (CredentialsBackend::Plaintext, CredentialsBackend::Plaintext) => true,
            (CredentialsBackend::Keyring, CredentialsBackend::Keyring) => true,
            (
                CredentialsBackend::EncryptedFile { cipher_path: a, key_params_path: b },
                CredentialsBackend::EncryptedFile { cipher_path: c, key_params_path: d },
            ) => a.same(c) && b.same(d),
            _ => false,
        }
    }

    fn replicate(&self) -> (r: Self) {
        match self {
            CredentialsBackend::Auto => CredentialsBackend::Auto,
            CredentialsBackend::Plaintext => CredentialsBackend::Plaintext,
            CredentialsBackend::Keyring => CredentialsBackend::Keyring,
            CredentialsBackend::EncryptedFile { cipher_path, key_params_path } => {
                CredentialsBackend::EncryptedFile {
                    cipher_path: cipher_path.replicate(),
                    key_params_path: key_params_path.replicate(),
                }
            },
        }
    }

    fn agrees(&self, other: &Self) -> (b: bool) {
        match (self, other) {
            (CredentialsBackend::Auto, CredentialsBackend::Auto) => true,
            (CredentialsBackend::Plaintext, CredentialsBackend::Plaintext) => true,
            (CredentialsBackend::Keyring, CredentialsBackend::Keyring) => true,
            (
                CredentialsBackend::EncryptedFile { cipher_path: a, key_params_path: b },
                CredentialsBackend::EncryptedFile { cipher_path: c, key_params_path: d },
            ) => a.agrees(c) && b.agrees(d),
            _ => false,
        }
    }

    proof fn same_as_itself(self) {
    }

    proof fn same_through(self, middle: Self, other: Self) {
    }
}

/// The `[storage.credentials]` block.
#[derive(Debug, Clone)]
pub struct CredentialsStorageConfig {
    /// The backend.
    pub backend: CredentialsBackend,
    /// Service name for the keyring backend.
    pub service_name: Option<String>,
}

impl CredentialsStorageConfig {
    /// Whether every setting has its built-in value.
    pub open spec fn is_default(self) -> bool {
        &&& self.backend.is_default()
        &&& self.service_name is None
    }
}

impl Default for CredentialsStorageConfig {
    fn default() -> (r: Self)
        ensures
            r.is_default(),
    {
        CredentialsStorageConfig {
            backend: CredentialsBackend::default(),
            service_name: None,
        }
    }
}

impl Replica for CredentialsStorageConfig {
    open spec fn same(self, other: Self) -> bool {
        &&& self.backend.same(other.backend)
        &&& self.service_name.same(other.service_name)
    }

    fn replicate(&self) -> (r: Self) {
        CredentialsStorageConfig {
            backend: self.backend.replicate(),
            service_name: self.service_name.replicate(),
        }
    }

    fn agrees(&self, other: &Self) -> (b: bool) {
        self.backend.agrees(&other.backend)
            && self.service_name.agrees(&other.service_name)
    }

    proof fn same_as_itself(self) {
        self.backend.same_as_itself();
        self.service_name.same_as_itself();
    }

    proof fn same_through(self, middle: Self, other: Self) {
        self.backend.same_through(middle.backend, other.backend);
        self.service_name.same_through(middle.service_name, other.service_name);
    }
}
} // verus!
