//! The primitives of the encrypted credentials file: an Argon2id key over a passphrase and
//! XChaCha20-Poly1305 over the content.
//!
//! The ciphertext file is the nonce, the ciphertext and the tag in a row. The parameters of
//! the key derivation are not secret and stand in a file of their own.

use argon2::{Algorithm, Argon2, Params, Version};
use base64::engine::general_purpose::URL_SAFE_NO_PAD;
use base64::Engine;
use chacha20poly1305::aead::{Aead, OsRng};
use chacha20poly1305::{Key, KeyInit, XChaCha20Poly1305, XNonce};
use rand::RngCore;
use vstd::prelude::*;
use vstd::utf8::encode_utf8;
use zeroize::Zeroize;

use crate::text::concat;

verus! {

/// Default memory cost of the key derivation, in KiB.
pub const DEFAULT_M_COST_KIB: u32 = 65536;

/// Default number of passes of the key derivation.
pub const DEFAULT_T_COST: u32 = 3;

/// Default number of lanes of the key derivation.
pub const DEFAULT_P_COST: u32 = 1;

/// Length of a salt, in bytes.
pub const SALT_LEN: usize = 16;

/// Length of a nonce, in bytes.
pub const NONCE_LEN: usize = 24;

/// Length of the tag behind the ciphertext, in bytes.
pub const TAG_LEN: usize = 16;

/// Length of a key, in bytes.
pub const KEY_LEN: usize = 32;

/// Parameters of the key derivation.
#[derive(Debug, Clone, PartialEq, Eq)]
pub struct KdfParams {
    /// The salt, in URL-safe base64 without padding.
    pub salt_b64: String,
    /// Memory cost in KiB.
    pub m_cost: u32,
    /// Number of passes.
    pub t_cost: u32,
    /// Number of lanes.
    pub p_cost: u32,
    /// Version of this format.
    pub version: u8,
}

/// Why a vault could not be written or read.
#[derive(Debug)]
pub enum EncryptedFileError {
    /// Reading or writing a file failed, with the reason.
    Io(String),
    /// The cost parameters are not acceptable, with the reason.
    KdfParams(String),
    /// Encryption or authentication failed, with the reason.
    Aead(String),
    /// The key derivation failed, with the reason.
    Argon2(String),
    /// The parameter file is not valid, with the reason.
    Serde(String),
    /// The salt is not valid base64, with the reason.
    Base64(String),
    /// The ciphertext file cannot hold a nonce and a tag.
    TooShort,
}

/// The model of an [`EncryptedFileError`].
pub enum Failure {
    /// Of a file.
    Io(Seq<char>),
    /// Of the cost parameters.
    KdfParams(Seq<char>),
    /// Of the cipher.
    Aead(Seq<char>),
    /// Of the key derivation.
    Argon2(Seq<char>),
    /// Of the parameter file.
    Serde(Seq<char>),
    /// Of the salt.
    Base64(Seq<char>),
    /// Too few bytes.
    TooShort,
}

impl View for EncryptedFileError {
    type V = Failure;

    open spec fn view(&self) -> Failure {
        match self {
            EncryptedFileError::Io(why) => Failure::Io(why@),
            EncryptedFileError::KdfParams(why) => Failure::KdfParams(why@),
            EncryptedFileError::Aead(why) => Failure::Aead(why@),
            EncryptedFileError::Argon2(why) => Failure::Argon2(why@),
            EncryptedFileError::Serde(why) => Failure::Serde(why@),
            EncryptedFileError::Base64(why) => Failure::Base64(why@),
            EncryptedFileError::TooShort => Failure::TooShort,
        }
    }
}

impl Failure {
    /// What the failure says to the user.
    pub open spec fn says(self) -> Seq<char> {
        match self {
            Failure::Io(why) => "io error: "@ + why,
            Failure::KdfParams(why) => "kdf params invalid: "@ + why,
            Failure::Aead(why) => "aead error: "@ + why,
            Failure::Argon2(why) => "argon2 error: "@ + why,
            Failure::Serde(why) => "serde error: "@ + why,
            Failure::Base64(why) => "base64 error: "@ + why,
            Failure::TooShort => "file too short"@,
        }
    }
}

impl EncryptedFileError {
    /// What the error says to the user.
    pub fn message(&self) -> (r: String)
        ensures
            r@ == self@.says(),
    {
        match self {
            EncryptedFileError::Io(why) => concat("io error: ", why.as_str()),
            EncryptedFileError::KdfParams(why) => concat("kdf params invalid: ", why.as_str()),
            EncryptedFileError::Aead(why) => concat("aead error: ", why.as_str()),
            EncryptedFileError::Argon2(why) => concat("argon2 error: ", why.as_str()),
            EncryptedFileError::Serde(why) => concat("serde error: ", why.as_str()),
            EncryptedFileError::Base64(why) => concat("base64 error: ", why.as_str()),
            EncryptedFileError::TooShort => "file too short".to_owned(),
        }
    }
}

/// The URL-safe base64 text of `bytes`, without padding.
pub uninterp spec fn base64_text(bytes: Seq<u8>) -> Seq<char>;

/// The bytes that a URL-safe base64 text without padding stands for, or why it stands for
/// none.
pub uninterp spec fn base64_bytes(text: Seq<char>) -> Result<Seq<u8>, Seq<char>>;

/// `Engine::encode` of the `base64` crate with its `URL_SAFE_NO_PAD` engine: a function of
/// the bytes, whose result decodes to them again.
#[verifier::external_body]
fn base64_url(bytes: &Vec<u8>) -> (r: String)
    requires
        bytes@.len() <= 0x1000_0000,
    ensures
        r@ == base64_text(bytes@),
        base64_bytes(r@) is Ok,
        base64_bytes(r@)->Ok_0 == bytes@,
{
    URL_SAFE_NO_PAD.encode(bytes)
}

/// `Engine::decode` of the `base64` crate with its `URL_SAFE_NO_PAD` engine: a function of
/// the text, with the error by its text.
#[verifier::external_body]
fn base64_url_decode(text: &str) -> (r: Result<Vec<u8>, String>)
    ensures
        match r {
            Ok(bytes) => base64_bytes(text@) matches Ok(b) && b == bytes@,
            Err(why) => base64_bytes(text@) matches Err(w) && w == why@,
        },
{
    match URL_SAFE_NO_PAD.decode(text) {
        Ok(bytes) => Ok(bytes),
        Err(e) => Err(e.to_string()),
    }
}

/// Why Argon2 refuses cost parameters: too little memory, also for the number of lanes, no
/// pass, no lane, or more than `0xFFFFFF` lanes, in this order.
pub open spec fn cost_refusal(m_cost: u32, t_cost: u32, p_cost: u32) -> Option<Seq<char>> {
    if m_cost < 8 || m_cost < p_cost * 8 {
        Some("memory cost is too small"@)
    } else if t_cost < 1 {
        Some("time cost is too small"@)
    } else if p_cost < 1 {
        Some("not enough threads"@)
    } else if p_cost > 0xFFFFFF {
        Some("too many threads"@)
    } else {
        None
    }
}

/// The most lanes whose memory can be told in 32 bits. No memory cost is enough for more.
pub const MAX_LANES: u32 = 0x1FFF_FFFF;

/// `Params::new` of the `argon2` crate for an output of 32 bytes, which tests its arguments
/// in the order of [`cost_refusal`]; the result is the text of its error. The crate
/// multiplies the number of lanes by 8 in 32 bits.
#[verifier::external_body]
fn refused_costs(m_cost: u32, t_cost: u32, p_cost: u32) -> (r: Option<String>)
    requires
        p_cost <= 0x1FFF_FFFF,
    ensures
        match r {
            Some(why) => cost_refusal(m_cost, t_cost, p_cost) == Some(why@),
            None => cost_refusal(m_cost, t_cost, p_cost) is None,
        },
{
    match Params::new(m_cost, t_cost, p_cost, Some(KEY_LEN)) {
        Ok(_) => None,
        Err(e) => Some(e.to_string()),
    }
}

/// The 32-byte Argon2id key (version 0x13) of a password under a salt and accepted costs.
pub uninterp spec fn argon2id(
    password: Seq<char>,
    salt: Seq<u8>,
    m_cost: u32,
    t_cost: u32,
    p_cost: u32,
) -> Seq<u8>;

/// Why Argon2 refuses a password or a salt: a password of more than `0xFFFFFFFF` bytes, or a
/// salt of fewer than 8 or more than `0xFFFFFFFF`.
pub open spec fn input_refusal(password: Seq<char>, salt: Seq<u8>) -> Option<Seq<char>> {
    if encode_utf8(password).len() > 0xFFFF_FFFF {
        Some("password is too long"@)
    } else if salt.len() < 8 {
        Some("salt is too short"@)
    } else if salt.len() > 0xFFFF_FFFF {
        Some("salt is too long"@)
    } else {
        None
    }
}

/// `Argon2::hash_password_into` of the `argon2` crate, as Argon2id in version 0x13 with an
/// output of 32 bytes: a function of the password, the salt and the costs, which fails on
/// the lengths that [`input_refusal`] names and on no others. That the memory it asks for
/// can be had is not stated.
#[verifier::external_body]
fn hash_password(
    password: &str,
    salt: &Vec<u8>,
    m_cost: u32,
    t_cost: u32,
    p_cost: u32,
) -> (r: Result<[u8; 32], String>)
    requires
        cost_refusal(m_cost, t_cost, p_cost) is None,
    ensures
        match r {
            Ok(key) => input_refusal(password@, salt@) is None && key@ == argon2id(
                password@,
                salt@,
                m_cost,
                t_cost,
                p_cost,
            ),
            Err(why) => input_refusal(password@, salt@) == Some(why@),
        },
{
    let params = Params::new(m_cost, t_cost, p_cost, Some(KEY_LEN)).unwrap();
    let argon = Argon2::new(Algorithm::Argon2id, Version::V0x13, params);
    let mut key = [0u8; 32];
    match argon.hash_password_into(password.as_bytes(), salt, &mut key) {
        Ok(()) => Ok(key),
        Err(e) => Err(e.to_string()),
    }
}

/// The XChaCha20-Poly1305 ciphertext of a message, with the tag behind it.
pub uninterp spec fn sealed(key: Seq<u8>, nonce: Seq<u8>, message: Seq<u8>) -> Seq<u8>;

/// The message of an authentic XChaCha20-Poly1305 ciphertext.
pub uninterp spec fn opened(key: Seq<u8>, nonce: Seq<u8>, ciphertext: Seq<u8>) -> Option<Seq<u8>>;

/// The most bytes that the cipher takes: its counter has 32 bits, and the first of the blocks
/// of 64 bytes is not for the message.
pub const MAX_MESSAGE_LEN: u64 = 0x3F_FFFF_FF80;

/// Whether a message is too long for the counter of the cipher.
pub open spec fn too_long_to_seal(message: Seq<u8>) -> bool {
    message.len() > MAX_MESSAGE_LEN
}

/// `Aead::encrypt` of the `chacha20poly1305` crate: a function of the key, the nonce and the
/// message. The ciphertext is the length of the tag longer than the message, and decrypting
/// it under the same key and nonce gives the message back. The call does not fail on a
/// message that the counter of the cipher has room for.
#[verifier::external_body]
fn seal(key: &[u8; 32], nonce: &Vec<u8>, message: &[u8]) -> (r: Result<Vec<u8>, String>)
    requires
        nonce@.len() == 24,
        message@.len() <= 0x3F_FFFF_FF80,
    ensures
        match r {
            Ok(ciphertext) => {
                &&& ciphertext@ == sealed(key@, nonce@, message@)
                &&& ciphertext@.len() == message@.len() + 16
                &&& opened(key@, nonce@, ciphertext@) == Some(message@)
            },
            Err(_) => false,
        },
{
    match XChaCha20Poly1305::new(Key::from_slice(key)).encrypt(XNonce::from_slice(nonce), message) {
        Ok(ciphertext) => Ok(ciphertext),
        Err(e) => Err(e.to_string()),
    }
}

/// `Aead::decrypt` of the `chacha20poly1305` crate: a function of the key, the nonce and the
/// ciphertext, which fails where the tag does not authenticate it. The ciphertext is no
/// longer than one of a message that the counter of the cipher has room for.
#[verifier::external_body]
fn unseal(key: &[u8; 32], nonce: &Vec<u8>, ciphertext: &Vec<u8>) -> (r: Result<Vec<u8>, String>)
    requires
        nonce@.len() == 24,
        ciphertext@.len() <= 0x3F_FFFF_FF80 + 16,
    ensures
        match r {
            Ok(message) => opened(key@, nonce@, ciphertext@) == Some(message@),
            Err(why) => opened(key@, nonce@, ciphertext@) is None && why@ == "aead::Error"@,
        },
{
    let cipher = XChaCha20Poly1305::new(Key::from_slice(key));
    match cipher.decrypt(XNonce::from_slice(nonce), ciphertext.as_slice()) {
        Ok(message) => Ok(message),
        Err(e) => Err(e.to_string()),
    }
}

/// `RngCore::fill_bytes` of the `rand` crate on its thread generator: 16 bytes, of which
/// nothing more is known.
#[verifier::external_body]
fn random_salt() -> (r: Vec<u8>)
    ensures
        r@.len() == 16,
{
    let mut salt = vec![0u8; SALT_LEN];
    rand::thread_rng().fill_bytes(&mut salt);
    salt
}

/// `RngCore::fill_bytes` of the random source of the operating system: 24 bytes, of which
/// nothing more is known. The call panics where that source fails.
#[verifier::external_body]
fn random_nonce() -> (r: Vec<u8>)
    ensures
        r@.len() == 24,
{
    let mut nonce = vec![0u8; NONCE_LEN];
    OsRng.fill_bytes(&mut nonce);
    nonce
}

/// `Zeroize::zeroize` of the `zeroize` crate on a key: every byte becomes zero.
#[verifier::external_body]
fn wipe(key: &mut [u8; 32])
    ensures
        forall|i: int| 0 <= i < 32 ==> final(key)@[i] == 0,
{
    key.zeroize();
}

/// `Zeroize::zeroize` of the `zeroize` crate on a string: its bytes become zero and it holds
/// nothing any more. The call does not panic.
#[verifier::external_body]
pub(crate) fn wipe_text(text: &mut String)
    ensures
        final(text)@.len() == 0,
    opens_invariants none
    no_unwind
{
    text.zeroize();
}

impl KdfParams {
    /// Whether these are the parameters of a new vault with the salt `salt`.
    pub open spec fn is_fresh(self, salt: Seq<u8>) -> bool {
        &&& self.salt_b64@ == base64_text(salt)
        &&& base64_bytes(self.salt_b64@) == Ok::<Seq<u8>, Seq<char>>(salt)
        &&& self.m_cost == DEFAULT_M_COST_KIB
        &&& self.t_cost == DEFAULT_T_COST
        &&& self.p_cost == DEFAULT_P_COST
        &&& self.version == 1
    }

    /// The parameters of a new vault with the salt `salt`.
    pub fn with_salt(salt: &Vec<u8>) -> (r: KdfParams)
        requires
            salt@.len() <= 0x1000_0000,
        ensures
            r.is_fresh(salt@),
    {
        KdfParams {
            salt_b64: base64_url(salt),
            m_cost: DEFAULT_M_COST_KIB,
            t_cost: DEFAULT_T_COST,
            p_cost: DEFAULT_P_COST,
            version: 1,
        }
    }
}

impl Default for KdfParams {
    /// The parameters of a new vault, with a random salt.
    fn default() -> (r: Self)
        ensures
            exists|salt: Seq<u8>| salt.len() == SALT_LEN && #[trigger] r.is_fresh(salt),
    {
        let salt = random_salt();
        KdfParams::with_salt(&salt)
    }
}

/// The key of a vault, or why there is none: the salt is decoded, the costs are checked, and
/// then the key is derived.
pub open spec fn derived(password: Seq<char>, params: KdfParams) -> Result<Seq<u8>, Failure> {
    match base64_bytes(params.salt_b64@) {
        Err(why) => Err(Failure::Base64(why)),
        Ok(salt) => match cost_refusal(params.m_cost, params.t_cost, params.p_cost) {
            Some(why) => Err(Failure::KdfParams(why)),
            None => match input_refusal(password, salt) {
                Some(why) => Err(Failure::Argon2(why)),
                None => Ok(
                    argon2id(password, salt, params.m_cost, params.t_cost, params.p_cost),
                ),
            },
        },
    }
}

/// The key of a vault under `password`.
pub fn derive_key(password: &str, params: &KdfParams) -> (r: Result<[u8; 32], EncryptedFileError>)
    ensures
        match r {
            Ok(key) => derived(password@, *params) == Ok::<Seq<u8>, Failure>(key@),
            Err(e) => derived(password@, *params) == Err::<Seq<u8>, Failure>(e@),
        },
{
    let salt = match base64_url_decode(params.salt_b64.as_str()) {
        Ok(salt) => salt,
        Err(why) => {
            return Err(EncryptedFileError::Base64(why));
        },
    };
    if params.p_cost > MAX_LANES {
        return Err(EncryptedFileError::KdfParams("memory cost is too small".to_owned()));
    }
    match refused_costs(params.m_cost, params.t_cost, params.p_cost) {
        Some(why) => {
            return Err(EncryptedFileError::KdfParams(why));
        },
        None => {},
    }
    match hash_password(password, &salt, params.m_cost, params.t_cost, params.p_cost) {
        Ok(key) => Ok(key),
        Err(why) => Err(EncryptedFileError::Argon2(why)),
    }
}

/// The ciphertext file for `message` under a key and a nonce.
pub open spec fn blob_of(key: Seq<u8>, nonce: Seq<u8>, message: Seq<u8>) -> Seq<u8> {
    nonce + sealed(key, nonce, message)
}

/// What a ciphertext file holds under a key. One that is too long for the cipher holds
/// nothing.
pub open spec fn opened_blob(key: Seq<u8>, blob: Seq<u8>) -> Option<Seq<u8>> {
    if blob.len() > NONCE_LEN + MAX_MESSAGE_LEN + TAG_LEN {
        None
    } else {
        opened(key, blob.take(NONCE_LEN as int), blob.skip(NONCE_LEN as int))
    }
}

/// The ciphertext file for `message` under `key` and `nonce`.
pub fn encrypt_with_nonce(message: &[u8], key: &[u8; 32], nonce: Vec<u8>) -> (r: Result<
    Vec<u8>,
    EncryptedFileError,
>)
    requires
        nonce@.len() == NONCE_LEN,
    ensures
        match r {
            Ok(blob) => {
                &&& !too_long_to_seal(message@)
                &&& blob@ == blob_of(key@, nonce@, message@)
                &&& blob@.len() == NONCE_LEN + message@.len() + TAG_LEN
                &&& opened_blob(key@, blob@) == Some(message@)
            },
            Err(e) => too_long_to_seal(message@) && e@ == Failure::Aead("aead::Error"@),
        },
{
    if message.len() as u64 > MAX_MESSAGE_LEN {
        return Err(EncryptedFileError::Aead("aead::Error".to_owned()));
    }
    let mut ciphertext = match seal(key, &nonce, message) {
        Ok(ciphertext) => ciphertext,
        Err(why) => {
            return Err(EncryptedFileError::Aead(why));
        },
    };
    let ghost sealed_bytes = ciphertext@;
    let mut blob = nonce;
    blob.append(&mut ciphertext);
    proof {
        assert(blob@ =~= nonce@ + sealed_bytes);
        assert(blob@.take(NONCE_LEN as int) =~= nonce@);
        assert(blob@.skip(NONCE_LEN as int) =~= sealed_bytes);
    }
    Ok(blob)
}

/// The ciphertext file for `message` under `key`, with a random nonce.
pub fn encrypt_with_key(message: &[u8], key: &[u8; 32]) -> (r: Result<Vec<u8>, EncryptedFileError>)
    ensures
        match r {
            Ok(blob) => {
                &&& !too_long_to_seal(message@)
                &&& exists|nonce: Seq<u8>|
                    nonce.len() == NONCE_LEN && blob@ == #[trigger] blob_of(key@, nonce, message@)
                &&& blob@.len() == NONCE_LEN + message@.len() + TAG_LEN
                &&& opened_blob(key@, blob@) == Some(message@)
            },
            Err(e) => too_long_to_seal(message@) && e@ == Failure::Aead("aead::Error"@),
        },
{
    encrypt_with_nonce(message, key, random_nonce())
}

/// What a ciphertext file holds under a password, or why it cannot be read.
pub open spec fn decrypted(blob: Seq<u8>, password: Seq<char>, params: KdfParams) -> Result<
    Seq<u8>,
    Failure,
> {
    if blob.len() < NONCE_LEN + TAG_LEN {
        Err(Failure::TooShort)
    } else {
        match derived(password, params) {
            Err(f) => Err(f),
            Ok(key) => match opened_blob(key, blob) {
                Some(message) => Ok(message),
                None => Err(Failure::Aead("aead::Error"@)),
            },
        }
    }
}

/// The ciphertext file for `message` under `password` with new parameters, and those
/// parameters. Decrypting it under the same password gives the message back.
pub fn encrypt(message: &[u8], password: &str) -> (r: Result<
    (Vec<u8>, KdfParams),
    EncryptedFileError,
>)
    ensures
        match r {
            Ok((blob, params)) => {
                &&& exists|salt: Seq<u8>| salt.len() == SALT_LEN && #[trigger] params.is_fresh(salt)
                &&& decrypted(blob@, password@, params) == Ok::<Seq<u8>, Failure>(message@)
            },
            Err(e) => {
                ||| e@ == Failure::Argon2("password is too long"@) && encode_utf8(password@).len()
                    > 0xFFFF_FFFF
                ||| e@ == Failure::Aead("aead::Error"@) && too_long_to_seal(message@)
            },
        },
{
    let params = KdfParams::default();
    let mut key = match derive_key(password, &params) {
        Ok(key) => key,
        Err(e) => {
            return Err(e);
        },
    };
    let r = encrypt_with_key(message, &key);
    wipe(&mut key);
    match r {
        Ok(blob) => Ok((blob, params)),
        Err(e) => Err(e),
    }
}

/// What the ciphertext file `blob` holds under `password`.
pub fn decrypt(blob: &[u8], password: &str, params: &KdfParams) -> (r: Result<
    Vec<u8>,
    EncryptedFileError,
>)
    ensures
        match r {
            Ok(message) => decrypted(blob@, password@, *params) == Ok::<Seq<u8>, Failure>(message@),
            Err(e) => decrypted(blob@, password@, *params) == Err::<Seq<u8>, Failure>(e@),
        },
{
    if blob.len() < NONCE_LEN + TAG_LEN {
        return Err(EncryptedFileError::TooShort);
    }
    let (head, tail) = blob.split_at(NONCE_LEN);
    let nonce = vstd::slice::slice_to_vec(head);
    let ciphertext = vstd::slice::slice_to_vec(tail);
    proof {
        assert(nonce@ =~= blob@.take(NONCE_LEN as int));
        assert(ciphertext@ =~= blob@.skip(NONCE_LEN as int));
    }
    let mut key = match derive_key(password, params) {
        Ok(key) => key,
        Err(e) => {
            return Err(e);
        },
    };
    if ciphertext.len() as u64 > MAX_MESSAGE_LEN + 16 {
        wipe(&mut key);
        return Err(EncryptedFileError::Aead("aead::Error".to_owned()));
    }
    let r = unseal(&key, &nonce, &ciphertext);
    wipe(&mut key);
    match r {
        Ok(message) => Ok(message),
        Err(why) => Err(EncryptedFileError::Aead(why)),
    }
}

} // verus!
