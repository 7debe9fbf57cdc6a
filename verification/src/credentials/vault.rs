//! The encrypted credentials file: where its passphrase comes from, how it is unlocked, and
//! how its text is read and written.

use vstd::prelude::*;
use vstd::utf8::{decode_utf8, encode_utf8, valid_utf8};

use crate::config::paths::{join_path, joined};
use crate::credentials::document::{
    document_of, plain_document, plaintext_document, shallow_document, text_of_document, trees_in,
    DATE_MARK,
};
use crate::credentials::encrypted_file::{
    decrypt, decrypted, derive_key, derived, encrypt_with_key, too_long_to_seal,
    wipe_text, EncryptedFileError, Failure, KdfParams, SALT_LEN,
};
use crate::credentials::error::CredentialsError;
use crate::credentials::secrets::{
    delete_secret, get_secret, law_deleted_secret_is_gone, law_stored_secret_is_found,
    lemma_plain_with_secret, lemma_plain_without_secret, lemma_secret_in, put_secret, secret_in,
    with_secret, without_secret,
};
use crate::credentials::stores::write_document;
use crate::numbers::{parse_i32, parsed_i32, signed, signed_decimal};
use crate::replica::opt_text;
use crate::table::StrMap;
use crate::text::{chars_of, concat, concat3, slice_of, string_of};
use crate::value::{Tree, Value};

verus! {

/// Where the passphrase of a vault comes from.
#[derive(Debug)]
pub enum PassphraseSource {
    /// The open file with this descriptor.
    Descriptor(i32),
    /// The environment, which holds this passphrase.
    Environment(String),
    /// The user.
    Prompt,
}

/// Where the passphrase comes from: the descriptor that `GENESIS_VAULT_PASSPHRASE_FD` names,
/// on systems with file descriptors, else the value of `GENESIS_VAULT_PASSPHRASE`, else the
/// user.
pub fn passphrase_source(
    has_descriptors: bool,
    descriptor: Option<String>,
    passphrase: Option<String>,
) -> (r: Result<PassphraseSource, CredentialsError>)
    ensures
        match r {
            Ok(PassphraseSource::Descriptor(fd)) => {
                &&& has_descriptors
                &&& descriptor matches Some(s) && parsed_i32(s@) == Some(fd as int)
            },
            Ok(PassphraseSource::Environment(given)) => {
                &&& !has_descriptors || descriptor is None
                &&& passphrase == Some(given)
            },
            Ok(PassphraseSource::Prompt) => {
                &&& !has_descriptors || descriptor is None
                &&& passphrase is None
            },
            Err(e) => {
                &&& has_descriptors
                &&& descriptor matches Some(s) && parsed_i32(s@) is None && e.is_unavailable(
                    "GENESIS_VAULT_PASSPHRASE_FD is not a valid integer: "@ + s@,
                )
            },
        },
{
    if has_descriptors {
        if let Some(s) = descriptor {
            return match parse_i32(s.as_str()) {
                Some(fd) => Ok(PassphraseSource::Descriptor(fd)),
                None => Err(
                    CredentialsError::BackendUnavailable(
                        concat("GENESIS_VAULT_PASSPHRASE_FD is not a valid integer: ", s.as_str()),
                    ),
                ),
            };
        }
    }
    match passphrase {
        Some(given) => Ok(PassphraseSource::Environment(given)),
        None => Ok(PassphraseSource::Prompt),
    }
}

/// Why a descriptor cannot be read from, by the flags that the system reports for it. The
/// value -1 stands for a failed query.
pub open spec fn descriptor_refusal(fd_flags: i32, status_flags: i32) -> Option<Seq<char>> {
    if fd_flags == -1 {
        Some("is not an open file descriptor"@)
    } else if status_flags == -1 {
        Some("could not be queried for read access"@)
    } else if status_flags & 3 == 1 {
        Some("is write-only; a readable fd is required"@)
    } else {
        None
    }
}

/// Refuses a descriptor that is closed, cannot be queried or is open for writing only.
pub fn validate_readable_fd(fd: i32, fd_flags: i32, status_flags: i32) -> (r: Result<
    (),
    CredentialsError,
>)
    ensures
        match r {
            Ok(_) => descriptor_refusal(fd_flags, status_flags) is None,
            Err(e) => descriptor_refusal(fd_flags, status_flags) matches Some(why)
                && e.is_unavailable(
                "GENESIS_VAULT_PASSPHRASE_FD="@ + signed(fd as int) + " "@ + why,
            ),
        },
{
    let why = if fd_flags == -1 {
        "is not an open file descriptor"
    } else if status_flags == -1 {
        "could not be queried for read access"
    } else if status_flags & 3 == 1 {
        "is write-only; a readable fd is required"
    } else {
        return Ok(());
    };
    let head = concat3("GENESIS_VAULT_PASSPHRASE_FD=", signed_decimal(fd).as_str(), " ");
    Err(CredentialsError::BackendUnavailable(concat(head.as_str(), why)))
}

/// `s` without the newlines at its end.
pub open spec fn without_newlines(s: Seq<char>) -> Seq<char>
    decreases s.len(),
{
    if s.len() > 0 && s.last() == '\n' {
        without_newlines(s.drop_last())
    } else {
        s
    }
}

/// The passphrase in what was read from a descriptor.
pub fn passphrase_read(content: &str) -> (r: String)
    ensures
        r@ == without_newlines(content@),
{
    let cs = chars_of(content);
    let mut end: usize = cs.len();
    proof {
        assert(cs@.take(end as int) =~= cs@);
    }
    while end > 0 && cs[end - 1] == '\n'
        invariant
            end <= cs@.len(),
            without_newlines(cs@) == without_newlines(cs@.take(end as int)),
        decreases end,
    {
        proof {
            assert(cs@.take(end as int).last() == cs@[end - 1]);
            assert(cs@.take(end as int).drop_last() =~= cs@.take(end - 1));
        }
        end = end - 1;
    }
    proof {
        if end > 0 {
            assert(cs@.take(end as int).last() == cs@[end - 1]);
        }
        assert(cs@.subrange(0, end as int) =~= cs@.take(end as int));
    }
    string_of(&slice_of(&cs, 0, end))
}

/// Whether a vault can be unlocked without asking the user.
pub fn vault_unlock_material_present(
    has_descriptors: bool,
    descriptor_set: bool,
    passphrase_set: bool,
) -> (r: bool)
    ensures
        r == (has_descriptors && descriptor_set || passphrase_set),
{
    (has_descriptors && descriptor_set) || passphrase_set
}

/// The files of the vault in the directory `dir`: its ciphertext and its parameters.
pub fn default_vault_paths(dir: &str) -> (r: (String, String))
    ensures
        r.0@ == joined(dir@, "credentials.enc"@),
        r.1@ == joined(dir@, "credentials.kdf.json"@),
{
    (join_path(dir, "credentials.enc"), join_path(dir, "credentials.kdf.json"))
}

/// What makes a vault readable.
pub struct UnlockedVault {
    /// The passphrase.
    pub passphrase: String,
    /// The parameters of the key derivation.
    pub params: KdfParams,
}

impl Drop for UnlockedVault {
    /// The passphrase does not stay behind in memory.
    fn drop(&mut self)
        opens_invariants none
        no_unwind
    {
        wipe_text(&mut self.passphrase);
    }
}

/// The parameter file of a vault as it was found.
pub enum KdfFile {
    /// There is none.
    Absent,
    /// It cannot be read.
    Unreadable(EncryptedFileError),
    /// It holds these parameters.
    Present(KdfParams),
}

/// A vault on disk.
pub struct EncryptedFileCredentialsStore {
    /// Path of the ciphertext file.
    pub cipher_path: String,
    /// Path of the parameter file.
    pub key_params_path: String,
    /// What makes the vault readable, once it was unlocked.
    pub unlocked: Option<UnlockedVault>,
}

/// The error text of `std::str::from_utf8` on bytes that are not UTF-8.
pub uninterp spec fn utf8_complaint(bytes: Seq<u8>) -> Seq<char>;

/// `std::str::from_utf8`: the text of bytes that are valid UTF-8, and an error whose text
/// depends on the bytes alone otherwise.
#[verifier::external_body]
fn utf8_text(bytes: &Vec<u8>) -> (r: Result<String, String>)
    ensures
        match r {
            Ok(text) => valid_utf8(bytes@) && text@ == decode_utf8(bytes@),
            Err(why) => !valid_utf8(bytes@) && why@ == utf8_complaint(bytes@),
        },
{
    match std::str::from_utf8(bytes) {
        Ok(text) => Ok(text.to_owned()),
        Err(e) => Err(e.to_string()),
    }
}

fn unavailable(what: &str, e: &EncryptedFileError) -> (r: CredentialsError)
    ensures
        r.is_unavailable(what@ + e@.says()),
{
    CredentialsError::BackendUnavailable(concat(what, e.message().as_str()))
}

/// The text of a vault, or why it cannot be read. A vault without a ciphertext file has no
/// text.
pub open spec fn vault_text(vault: UnlockedVault, blob: Option<Seq<u8>>) -> Result<
    Option<Seq<char>>,
    Seq<char>,
> {
    match blob {
        None => Ok(None),
        Some(bytes) => match decrypted(bytes, vault.passphrase@, vault.params) {
            Err(f) => Err("vault decrypt failed: "@ + f.says()),
            Ok(plain) => if valid_utf8(plain) {
                Ok(Some(decode_utf8(plain)))
            } else {
                Err("vault plaintext utf8: "@ + utf8_complaint(plain))
            },
        },
    }
}

/// Whether `r` is what writing `text` to a vault comes to: a ciphertext file that decrypts to
/// it, or why there is none.
pub open spec fn is_written(
    vault: UnlockedVault,
    text: Seq<char>,
    r: Result<Vec<u8>, CredentialsError>,
) -> bool {
    match r {
        Ok(blob) => {
            &&& derived(vault.passphrase@, vault.params) is Ok
            &&& !too_long_to_seal(encode_utf8(text))
            &&& decrypted(blob@, vault.passphrase@, vault.params) == Ok::<Seq<u8>, Failure>(
                encode_utf8(text),
            )
        },
        Err(e) => match derived(vault.passphrase@, vault.params) {
            Err(f) => e.is_unavailable("derive_key: "@ + f.says()),
            Ok(_) => too_long_to_seal(encode_utf8(text)) && e.is_unavailable(
                "vault encrypt failed: "@ + Failure::Aead("aead::Error"@).says(),
            ),
        },
    }
}

/// The bytes of a file, if there is one.
pub open spec fn file_bytes(blob: Option<&Vec<u8>>) -> Option<Seq<u8>> {
    match blob {
        Some(b) => Some(b@),
        None => None,
    }
}

/// Whether `e` tells why the vault with the ciphertext file `blob` has no document.
pub open spec fn is_unreadable(
    vault: UnlockedVault,
    blob: Option<Seq<u8>>,
    e: CredentialsError,
) -> bool {
    match vault_text(vault, blob) {
        Err(why) => e.is_unavailable(why),
        Ok(text) => document_of(text) matches Err(w) && (e matches CredentialsError::TomlParse(why)
            && why@ == w),
    }
}

/// The document of a vault that can be read.
pub open spec fn vault_document(vault: UnlockedVault, blob: Option<Seq<u8>>) -> Option<
    Map<Seq<char>, Tree>,
> {
    match vault_text(vault, blob) {
        Err(_) => None,
        Ok(text) => match document_of(text) {
            Err(_) => None,
            Ok(d) => Some(d),
        },
    }
}

/// Whether `r` is what writing the document `d` to a vault comes to.
pub open spec fn is_written_document(
    vault: UnlockedVault,
    d: Map<Seq<char>, Tree>,
    r: Result<Vec<u8>, CredentialsError>,
) -> bool {
    match text_of_document(d) {
        Err(w) => r matches Err(CredentialsError::TomlSerialize(why)) && why@ == w,
        Ok(text) => is_written(vault, text, r),
    }
}

/// Whether the ciphertext file `blob` has the same secrets as the document `d`.
pub open spec fn keeps_secrets(
    vault: UnlockedVault,
    blob: Seq<u8>,
    d: Map<Seq<char>, Tree>,
) -> bool {
    vault_document(vault, Some(blob)) matches Some(e) && forall|k: Seq<char>|
        #[trigger] secret_in(e, k) == secret_in(d, k)
}

/// Whether the ciphertext file `blob` has `value` under `key`, no secret if there is none, and
/// else the same secrets as the document `d`.
pub open spec fn has_changed(
    vault: UnlockedVault,
    blob: Seq<u8>,
    d: Map<Seq<char>, Tree>,
    key: Seq<char>,
    value: Option<Seq<char>>,
) -> bool {
    vault_document(vault, Some(blob)) matches Some(e) && forall|k: Seq<char>|
        #[trigger] secret_in(e, k) == if k == key {
            value
        } else {
            secret_in(d, k)
        }
}

impl UnlockedVault {
    /// The document of the vault whose ciphertext file is `blob`.
    pub fn read_document(&self, blob: Option<&Vec<u8>>) -> (r: Result<
        StrMap<Value>,
        CredentialsError,
    >)
        ensures
            match r {
                Ok(doc) => {
                    &&& vault_document(*self, file_bytes(blob)) == Some(trees_in(doc@))
                    &&& shallow_document(trees_in(doc@)) ==> plain_document(trees_in(doc@))
                },
                Err(e) => is_unreadable(*self, file_bytes(blob), e),
            },
    {
        match self.read(blob) {
            Ok(None) => plaintext_document(None),
            Ok(Some(text)) => plaintext_document(Some(text.as_str())),
            Err(e) => Err(e),
        }
    }

    /// The ciphertext file for the document `doc`. That of a plain document has the same
    /// secrets again.
    pub fn write_document(&self, doc: &StrMap<Value>) -> (r: Result<Vec<u8>, CredentialsError>)
        ensures
            is_written_document(*self, trees_in(doc@), r),
            plain_document(trees_in(doc@)) ==> (r matches Ok(blob) ==> keeps_secrets(
                *self,
                blob@,
                trees_in(doc@),
            )),
    {
        let text = match write_document(doc) {
            Ok(text) => text,
            Err(e) => {
                return Err(e);
            },
        };
        let r = self.write(text.as_str());
        proof {
            if r is Ok {
                law_vault_gives_back_what_was_written(*self, text@, r->Ok_0@);
            }
        }
        r
    }

    /// The secret under `key` in the vault whose ciphertext file is `blob`.
    pub fn get(&self, blob: Option<&Vec<u8>>, key: &str) -> (r: Result<
        Option<String>,
        CredentialsError,
    >)
        ensures
            match r {
                Ok(found) => vault_document(*self, file_bytes(blob)) matches Some(d) && opt_text(
                    found,
                ) == secret_in(d, key@),
                Err(e) => is_unreadable(*self, file_bytes(blob), e),
            },
    {
        match self.read_document(blob) {
            Ok(doc) => {
                proof {
                    lemma_secret_in(doc@, key@);
                }
                Ok(get_secret(&doc, key))
            },
            Err(e) => Err(e),
        }
    }

    /// The ciphertext file of the vault after storing `value` under `key`.
    pub fn put(&self, blob: Option<&Vec<u8>>, key: &str, value: &str) -> (r: Result<
        Vec<u8>,
        CredentialsError,
    >)
        ensures
            match vault_document(*self, file_bytes(blob)) {
                None => r matches Err(e) && is_unreadable(*self, file_bytes(blob), e),
                Some(d) => {
                    &&& is_written_document(*self, with_secret(d, key@, value@), r)
                    &&& shallow_document(d) && key@ != DATE_MARK@ ==> (r matches Ok(after)
                        ==> has_changed(*self, after@, d, key@, Some(value@)))
                },
            },
    {
        let mut doc = match self.read_document(blob) {
            Ok(doc) => doc,
            Err(e) => {
                return Err(e);
            },
        };
        proof {
            let d = trees_in(doc@);
            if shallow_document(d) && key@ != DATE_MARK@ {
                lemma_plain_with_secret(d, key@, value@);
                assert forall|k: Seq<char>| #[trigger]
                    secret_in(with_secret(d, key@, value@), k) == if k == key@ {
                        Some(value@)
                    } else {
                        secret_in(d, k)
                    } by {
                    law_stored_secret_is_found(d, key@, value@, k);
                }
            }
        }
        put_secret(&mut doc, key, value);
        self.write_document(&doc)
    }

    /// The ciphertext file of the vault after deleting the secret under `key`.
    pub fn delete(&self, blob: Option<&Vec<u8>>, key: &str) -> (r: Result<
        Vec<u8>,
        CredentialsError,
    >)
        ensures
            match vault_document(*self, file_bytes(blob)) {
                None => r matches Err(e) && is_unreadable(*self, file_bytes(blob), e),
                Some(d) => {
                    &&& is_written_document(*self, without_secret(d, key@), r)
                    &&& shallow_document(d) ==> (r matches Ok(after) ==> has_changed(
                        *self,
                        after@,
                        d,
                        key@,
                        None,
                    ))
                },
            },
    {
        let mut doc = match self.read_document(blob) {
            Ok(doc) => doc,
            Err(e) => {
                return Err(e);
            },
        };
        proof {
            let d = trees_in(doc@);
            if shallow_document(d) {
                lemma_plain_without_secret(d, key@);
                assert forall|k: Seq<char>| #[trigger]
                    secret_in(without_secret(d, key@), k) == if k == key@ {
                        None
                    } else {
                        secret_in(d, k)
                    } by {
                    law_deleted_secret_is_gone(d, key@, k);
                }
            }
        }
        delete_secret(&mut doc, key);
        self.write_document(&doc)
    }
}

impl UnlockedVault {
    /// The text of the vault whose ciphertext file is `blob`.
    pub fn read(&self, blob: Option<&Vec<u8>>) -> (r: Result<Option<String>, CredentialsError>)
        ensures
            ({
                let bytes = match blob {
                    Some(b) => Some(b@),
                    None => None,
                };
                match r {
                    Ok(None) => vault_text(*self, bytes) matches Ok(t) && t is None,
                    Ok(Some(text)) => vault_text(*self, bytes) matches Ok(t) && t == Some(text@),
                    Err(e) => vault_text(*self, bytes) matches Err(why) && e.is_unavailable(why),
                }
            }),
    {
        let bytes = match blob {
            Some(bytes) => bytes,
            None => {
                return Ok(None);
            },
        };
        let plain = match decrypt(bytes.as_slice(), self.passphrase.as_str(), &self.params) {
            Ok(plain) => plain,
            Err(e) => {
                return Err(unavailable("vault decrypt failed: ", &e));
            },
        };
        match utf8_text(&plain) {
            Ok(text) => Ok(Some(text)),
            Err(why) => Err(
                CredentialsError::BackendUnavailable(concat("vault plaintext utf8: ", why.as_str())),
            ),
        }
    }

    /// The ciphertext file for `text`. Reading it gives `text` back.
    pub fn write(&self, text: &str) -> (r: Result<Vec<u8>, CredentialsError>)
        ensures
            is_written(*self, text@, r),
    {
        let key = match derive_key(self.passphrase.as_str(), &self.params) {
            Ok(key) => key,
            Err(e) => {
                return Err(unavailable("derive_key: ", &e));
            },
        };
        match encrypt_with_key(text.as_bytes(), &key) {
            Ok(blob) => Ok(blob),
            Err(e) => Err(unavailable("vault encrypt failed: ", &e)),
        }
    }
}

/// Reading a ciphertext file that was written for `text` under the same passphrase and
/// parameters gives `text`.
pub proof fn law_vault_gives_back_what_was_written(
    vault: UnlockedVault,
    text: Seq<char>,
    blob: Seq<u8>,
)
    requires
        decrypted(blob, vault.passphrase@, vault.params) matches Ok(plain) && plain == encode_utf8(
            text,
        ),
    ensures
        vault_text(vault, Some(blob)) matches Ok(t) && t == Some(text),
{
    vstd::utf8::encode_utf8_valid_utf8(text);
    vstd::utf8::encode_utf8_decode_utf8(text);
}

impl EncryptedFileCredentialsStore {
    /// A locked vault with these files.
    pub fn new(cipher_path: String, key_params_path: String) -> (r: Self)
        ensures
            r.cipher_path == cipher_path,
            r.key_params_path == key_params_path,
            r.unlocked is None,
    {
        EncryptedFileCredentialsStore { cipher_path, key_params_path, unlocked: None }
    }

    /// Whether the vault was unlocked.
    pub fn is_unlocked(&self) -> (r: bool)
        ensures
            r == self.unlocked is Some,
    {
        self.unlocked.is_some()
    }

    /// Unlocks the vault with `passphrase`, unless it is unlocked already. The parameters
    /// are those of the parameter file, or `fresh` where there is none. A ciphertext file
    /// that is there must open under the passphrase: a wrong passphrase never becomes the
    /// one that later writes use.
    pub fn unlock_with(
        &mut self,
        passphrase: String,
        kdf: KdfFile,
        blob: Option<&Vec<u8>>,
        fresh: KdfParams,
    ) -> (r: Result<(), CredentialsError>)
        ensures
            final(self).cipher_path == old(self).cipher_path,
            final(self).key_params_path == old(self).key_params_path,
            old(self).unlocked is Some ==> r is Ok && final(self).unlocked == old(self).unlocked,
            old(self).unlocked is None ==> match kdf {
                KdfFile::Unreadable(e) => {
                    &&& r matches Err(x) && x.is_unavailable("kdf params: "@ + e@.says())
                    &&& final(self).unlocked is None
                },
                KdfFile::Absent => unlocks(passphrase, fresh, blob, r, final(self).unlocked),
                KdfFile::Present(params) => unlocks(
                    passphrase,
                    params,
                    blob,
                    r,
                    final(self).unlocked,
                ),
            },
    {
        let mut passphrase = passphrase;
        if self.unlocked.is_some() {
            wipe_text(&mut passphrase);
            return Ok(());
        }
        let params = match kdf {
            KdfFile::Present(params) => params,
            KdfFile::Absent => fresh,
            KdfFile::Unreadable(e) => {
                wipe_text(&mut passphrase);
                return Err(unavailable("kdf params: ", &e));
            },
        };
        if let Some(bytes) = blob {
            match decrypt(bytes.as_slice(), passphrase.as_str(), &params) {
                Ok(_) => {},
                Err(e) => {
                    wipe_text(&mut passphrase);
                    return Err(
                        unavailable(
                            "vault unlock failed (wrong passphrase or corrupt file): ",
                            &e,
                        ),
                    );
                },
            }
        }
        self.unlocked = Some(UnlockedVault { passphrase, params });
        Ok(())
    }

    /// [`Self::unlock_with`] with new random parameters for a vault that has none yet.
    pub fn unlock(&mut self, passphrase: String, kdf: KdfFile, blob: Option<&Vec<u8>>) -> (r: Result<
        (),
        CredentialsError,
    >)
        ensures
            final(self).cipher_path == old(self).cipher_path,
            final(self).key_params_path == old(self).key_params_path,
            old(self).unlocked is Some ==> r is Ok && final(self).unlocked == old(self).unlocked,
            old(self).unlocked is None ==> match kdf {
                KdfFile::Unreadable(e) => {
                    &&& r matches Err(x) && x.is_unavailable("kdf params: "@ + e@.says())
                    &&& final(self).unlocked is None
                },
                KdfFile::Absent => exists|fresh: KdfParams, salt: Seq<u8>|
                    salt.len() == SALT_LEN && #[trigger] fresh.is_fresh(salt) && #[trigger] unlocks(
                        passphrase,
                        fresh,
                        blob,
                        r,
                        final(self).unlocked,
                    ),
                KdfFile::Present(params) => unlocks(
                    passphrase,
                    params,
                    blob,
                    r,
                    final(self).unlocked,
                ),
            },
    {
        let fresh = KdfParams::default();
        self.unlock_with(passphrase, kdf, blob, fresh)
    }
}

/// What unlocking with a passphrase and parameters comes to: the vault is unlocked with them,
/// unless there is a ciphertext file that does not open under them.
pub open spec fn unlocks(
    passphrase: String,
    params: KdfParams,
    blob: Option<&Vec<u8>>,
    r: Result<(), CredentialsError>,
    after: Option<UnlockedVault>,
) -> bool {
    let opens = match blob {
        Some(bytes) => decrypted(bytes@, passphrase@, params),
        None => Ok(Seq::empty()),
    };
    match opens {
        Ok(_) => r is Ok && after == Some(UnlockedVault { passphrase, params }),
        Err(f) => {
            &&& r matches Err(e) && e.is_unavailable(
                "vault unlock failed (wrong passphrase or corrupt file): "@ + f.says(),
            )
            &&& after is None
        },
    }
}

} // verus!
