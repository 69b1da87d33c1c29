//! The clipboard cipher: ChaCha20-Poly1305 under a fresh key and nonce.
//!
//! Key and nonce come from the operating system's random source and the
//! cipher itself from the `chacha20poly1305` crate. This module fixes what
//! is handed to them and what is made of their answers.

use vstd::prelude::*;
use vstd::slice::*;
use chacha20poly1305::aead::Aead;
use chacha20poly1305::{ChaCha20Poly1305, Key, KeyInit, Nonce};
use rand::rngs::OsRng;
use rand::RngCore;
use crate::erase::erase_bytes;
use crate::error::ClipboardError;

verus! {

/// Length of a key in bytes (256 bits).
pub const KEY_LEN: usize = 32;

/// Length of a nonce in bytes (96 bits).
pub const NONCE_LEN: usize = 12;

/// Length of the authentication tag that ends every ciphertext, in bytes.
pub const TAG_LEN: usize = 16;

/// The longest payload that the cipher takes, in bytes: 2^32 - 2 blocks of
/// 64 bytes. The block counter has 32 bits, and block 0 makes the key of
/// the authentication tag.
pub const MAX_PAYLOAD_LEN: u64 = 0x3F_FFFF_FF80;

/// The ciphertext, tag included, that ChaCha20-Poly1305 gives for
/// `plaintext` under `key` and `nonce`, with no associated data.
pub uninterp spec fn sealed(key: Seq<u8>, nonce: Seq<u8>, plaintext: Seq<u8>) -> Seq<u8>;

/// The plaintext that ChaCha20-Poly1305 gives back for `ciphertext` under
/// `key` and `nonce`, or `None` where the integrity check fails.
pub uninterp spec fn opened(key: Seq<u8>, nonce: Seq<u8>, ciphertext: Seq<u8>) -> Option<Seq<u8>>;

/// Whether a payload of `len` bytes can be encrypted and carried as text:
/// it is no longer than [`MAX_PAYLOAD_LEN`], and the base64 text of payload
/// and tag, four characters for every three bytes begun, fits in one
/// allocation. On a 64-bit machine the first condition implies the second.
pub open spec fn encryptable(len: nat) -> bool {
    &&& len <= MAX_PAYLOAD_LEN
    &&& (len + TAG_LEN + 2) / 3 * 4 <= usize::MAX / 2
}

/// Whether a ciphertext of `len` bytes can be handed to the cipher: its
/// payload is no longer than [`MAX_PAYLOAD_LEN`].
pub open spec fn decryptable(len: nat) -> bool {
    len <= MAX_PAYLOAD_LEN + TAG_LEN
}

#[verifier::external_type_specification]
#[verifier::external_body]
pub struct ExAeadError(chacha20poly1305::Error);

#[verifier::external_type_specification]
#[verifier::external_body]
pub struct ExRandError(rand::Error);

/// Draws `n` bytes from the operating system's random source, through
/// `rand`'s `OsRng.try_fill_bytes`.
///
/// Trusted: where the source answers, the result has `n` bytes. Nothing is
/// said of their values, and the source may fail.
#[verifier::external_body]
fn random_bytes(n: usize) -> (r: Result<Vec<u8>, rand::Error>)
    ensures
        r matches Ok(bytes) ==> bytes@.len() == n,
{
    let mut bytes = vec![0u8; n];
    OsRng.try_fill_bytes(&mut bytes)?;
    Ok(bytes)
}

/// Encrypts `plaintext` with `chacha20poly1305`'s `ChaCha20Poly1305::encrypt`.
///
/// Trusted: on the inputs that `requires` admits the cipher succeeds; it
/// returns the payload's ciphertext followed by the 16-byte tag, and
/// decrypting that under the same key and nonce gives the payload back.
/// The crate panics on a key or nonce of another length, where the payload
/// runs past the last block of the key stream, and where payload and tag
/// exceed an allocation; `requires` leaves all three out.
#[verifier::external_body]
fn seal(key: &[u8], nonce: &[u8], plaintext: &[u8]) -> (r: Result<Vec<u8>, chacha20poly1305::Error>)
    requires
        key@.len() == KEY_LEN,
        nonce@.len() == NONCE_LEN,
        plaintext@.len() <= MAX_PAYLOAD_LEN,
        plaintext@.len() + TAG_LEN <= usize::MAX / 2,
    ensures
        r is Ok,
        r matches Ok(ciphertext) ==> {
            &&& ciphertext@ == sealed(key@, nonce@, plaintext@)
            &&& ciphertext@.len() == plaintext@.len() + TAG_LEN
            &&& opened(key@, nonce@, ciphertext@) == Some(plaintext@)
        },
{
    ChaCha20Poly1305::new(Key::from_slice(key)).encrypt(Nonce::from_slice(nonce), plaintext)
}

/// Decrypts `ciphertext` with `chacha20poly1305`'s
/// `ChaCha20Poly1305::decrypt`.
///
/// Trusted: the result is what the cipher gives back, an error where the
/// integrity check fails; a plaintext is 16 bytes shorter than its
/// ciphertext. The crate panics on a key or nonce of another length, and
/// where an authentic payload runs past the last block of the key stream;
/// `requires` leaves both out.
#[verifier::external_body]
fn open(key: &[u8], nonce: &[u8], ciphertext: &[u8]) -> (r: Result<Vec<u8>, chacha20poly1305::Error>)
    requires
        key@.len() == KEY_LEN,
        nonce@.len() == NONCE_LEN,
        decryptable(ciphertext@.len()),
    ensures
        match r {
            Ok(plaintext) => opened(key@, nonce@, ciphertext@) == Some(plaintext@),
            Err(_) => opened(key@, nonce@, ciphertext@) is None,
        },
        r matches Ok(plaintext) ==> plaintext@.len() + TAG_LEN == ciphertext@.len(),
{
    ChaCha20Poly1305::new(Key::from_slice(key)).decrypt(Nonce::from_slice(nonce), ciphertext)
}

/// A payload encrypted under a key and a nonce of its own.
pub struct Sealed {
    /// The 32-byte key. It is never stored: whoever holds a `Sealed` shows
    /// the key once and erases it.
    pub key: Vec<u8>,
    /// The 12-byte nonce.
    pub nonce: Vec<u8>,
    /// The encrypted payload followed by the 16-byte tag.
    pub ciphertext: Vec<u8>,
}

/// What [`encrypt_with`] returns for a payload, a key and a nonce.
pub open spec fn encrypted(key: Seq<u8>, nonce: Seq<u8>, plaintext: Seq<u8>) -> Result<
    Seq<u8>,
    ClipboardError,
> {
    if key.len() == KEY_LEN && nonce.len() == NONCE_LEN && encryptable(plaintext.len()) {
        Ok(sealed(key, nonce, plaintext))
    } else {
        Err(ClipboardError::EncryptionError)
    }
}

/// What [`decrypt`] returns for a key, a nonce and a ciphertext: a key or
/// nonce of the wrong length, or a ciphertext longer than the cipher can
/// have made, is a format error and the cipher is not asked; otherwise the
/// cipher decides.
pub open spec fn decrypted(key: Seq<u8>, nonce: Seq<u8>, ciphertext: Seq<u8>) -> Result<
    Seq<u8>,
    ClipboardError,
> {
    if key.len() != KEY_LEN || nonce.len() != NONCE_LEN || !decryptable(ciphertext.len()) {
        Err(ClipboardError::FormatError)
    } else {
        authenticated(opened(key, nonce, ciphertext))
    }
}

/// What is made of the cipher's answer: a failed integrity check is an
/// authentication failure.
pub open spec fn authenticated(outcome: Option<Seq<u8>>) -> Result<Seq<u8>, ClipboardError> {
    match outcome {
        Some(plaintext) => Ok(plaintext),
        None => Err(ClipboardError::AuthenticationFailed),
    }
}

/// Whether an executable result stands for the given result over views.
pub open spec fn bytes_result_is(
    r: Result<Vec<u8>, ClipboardError>,
    model: Result<Seq<u8>, ClipboardError>,
) -> bool {
    match r {
        Ok(bytes) => model == Ok::<Seq<u8>, ClipboardError>(bytes@),
        Err(e) => model == Err::<Seq<u8>, ClipboardError>(e),
    }
}

/// Turns the cipher's answer into the library's result.
pub fn check_authentic(outcome: Option<Vec<u8>>) -> (r: Result<Vec<u8>, ClipboardError>)
    ensures
        match outcome {
            Some(plaintext) => r == Ok::<Vec<u8>, ClipboardError>(plaintext),
            None => r == Err::<Vec<u8>, ClipboardError>(ClipboardError::AuthenticationFailed),
        },
{
    match outcome {
        Some(plaintext) => Ok(plaintext),
        None => Err(ClipboardError::AuthenticationFailed),
    }
}

/// Whether [`encrypt_with`] accepts a payload of `len` bytes.
pub fn can_encrypt(len: usize) -> (b: bool)
    ensures
        b == encryptable(len as nat),
{
    len as u64 <= MAX_PAYLOAD_LEN && len <= usize::MAX / 2 - TAG_LEN - 2 && (len + TAG_LEN + 2) / 3
        <= usize::MAX / 8
}

/// Whether [`decrypt`] hands a ciphertext of `len` bytes to the cipher.
pub fn can_decrypt(len: usize) -> (b: bool)
    ensures
        b == decryptable(len as nat),
{
    len as u64 <= MAX_PAYLOAD_LEN + 16
}

/// Decryption gives a plaintext only where the cipher authenticated the
/// ciphertext under that key and nonce, and then the cipher's own; and
/// wherever the cipher is asked and rejects, it gives
/// `AuthenticationFailed`.
pub proof fn lemma_only_authentic_plaintext(key: Seq<u8>, nonce: Seq<u8>, ciphertext: Seq<u8>)
    ensures
        decrypted(key, nonce, ciphertext) matches Ok(plaintext) ==> opened(key, nonce, ciphertext)
            == Some(plaintext),
        opened(key, nonce, ciphertext) is None ==> decrypted(key, nonce, ciphertext) is Err,
        key.len() == KEY_LEN && nonce.len() == NONCE_LEN && decryptable(ciphertext.len())
            && opened(key, nonce, ciphertext) is None ==> decrypted(key, nonce, ciphertext) == Err::<
            Seq<u8>,
            ClipboardError,
        >(ClipboardError::AuthenticationFailed),
{
}

/// Draws a fresh 32-byte key. Fails with `EncryptionError`, and with no
/// other error, where the random source fails.
pub fn generate_key() -> (r: Result<Vec<u8>, ClipboardError>)
    ensures
        r matches Ok(key) ==> key@.len() == KEY_LEN,
        r matches Err(e) ==> e == ClipboardError::EncryptionError,
{
    match random_bytes(KEY_LEN) {
        Ok(key) => Ok(key),
        Err(_) => Err(ClipboardError::EncryptionError),
    }
}

/// Draws a fresh 12-byte nonce. Fails with `EncryptionError`, and with no
/// other error, where the random source fails.
pub fn generate_nonce() -> (r: Result<Vec<u8>, ClipboardError>)
    ensures
        r matches Ok(nonce) ==> nonce@.len() == NONCE_LEN,
        r matches Err(e) ==> e == ClipboardError::EncryptionError,
{
    match random_bytes(NONCE_LEN) {
        Ok(nonce) => Ok(nonce),
        Err(_) => Err(ClipboardError::EncryptionError),
    }
}

/// Encrypts `plaintext` under the given key and nonce.
///
/// Fails with `EncryptionError` exactly where the key is not 32 bytes, the
/// nonce not 12, or the payload not [`encryptable`]. On success the
/// ciphertext is 16 bytes longer than the payload, and decrypting it under
/// the same key and nonce gives the payload back.
pub fn encrypt_with(plaintext: &[u8], key: &[u8], nonce: &[u8]) -> (r: Result<
    Vec<u8>,
    ClipboardError,
>)
    ensures
        bytes_result_is(r, encrypted(key@, nonce@, plaintext@)),
        r matches Ok(ciphertext) ==> {
            &&& ciphertext@.len() == plaintext@.len() + TAG_LEN
            &&& decrypted(key@, nonce@, ciphertext@) == Ok::<Seq<u8>, ClipboardError>(plaintext@)
        },
{
    if key.len() != KEY_LEN || nonce.len() != NONCE_LEN || !can_encrypt(plaintext.len()) {
        return Err(ClipboardError::EncryptionError);
    }
    match seal(key, nonce, plaintext) {
        Ok(ciphertext) => Ok(ciphertext),
        Err(_) => Err(ClipboardError::EncryptionError),
    }
}

/// Encrypts `plaintext` under a key and a nonce drawn for this one call.
///
/// Fails with `EncryptionError`, and with no other error, where the random
/// source fails or the payload is not [`encryptable`]. On success key and
/// nonce have their lengths, the ciphertext is the cipher's for them, and
/// decrypting it under them gives the payload back.
pub fn encrypt(plaintext: &[u8]) -> (r: Result<Sealed, ClipboardError>)
    ensures
        r matches Ok(s) ==> {
            &&& s.key@.len() == KEY_LEN
            &&& s.nonce@.len() == NONCE_LEN
            &&& encryptable(plaintext@.len())
            &&& s.ciphertext@ == sealed(s.key@, s.nonce@, plaintext@)
            &&& s.ciphertext@.len() == plaintext@.len() + TAG_LEN
            &&& decrypted(s.key@, s.nonce@, s.ciphertext@) == Ok::<Seq<u8>, ClipboardError>(
                plaintext@,
            )
        },
        r matches Err(e) ==> e == ClipboardError::EncryptionError,
        !encryptable(plaintext@.len()) ==> r is Err,
{
    let mut key = match generate_key() {
        Ok(key) => key,
        Err(e) => {
            return Err(e);
        },
    };
    let mut nonce = match generate_nonce() {
        Ok(nonce) => nonce,
        Err(e) => {
            erase_bytes(&mut key);
            return Err(e);
        },
    };
    match encrypt_with(plaintext, key.as_slice(), nonce.as_slice()) {
        Ok(ciphertext) => Ok(Sealed { key, nonce, ciphertext }),
        Err(e) => {
            erase_bytes(&mut key);
            erase_bytes(&mut nonce);
            Err(e)
        },
    }
}

/// Decrypts `ciphertext` under `key` and `nonce`, and erases both before it
/// returns, whatever the outcome.
///
/// A key that is not 32 bytes, a nonce that is not 12 or a ciphertext that
/// is not [`decryptable`] gives `FormatError`, and the cipher is not asked.
/// Otherwise the result is the cipher's plaintext, or
/// `AuthenticationFailed` where its integrity check fails.
pub fn decrypt(key: &mut Vec<u8>, nonce: &mut Vec<u8>, ciphertext: &[u8]) -> (r: Result<
    Vec<u8>,
    ClipboardError,
>)
    ensures
        bytes_result_is(r, decrypted(old(key)@, old(nonce)@, ciphertext@)),
        final(key)@.len() == 0,
        final(nonce)@.len() == 0,
{
    if key.len() != KEY_LEN || nonce.len() != NONCE_LEN || !can_decrypt(ciphertext.len()) {
        erase_bytes(key);
        erase_bytes(nonce);
        return Err(ClipboardError::FormatError);
    }
    let outcome = match open(key.as_slice(), nonce.as_slice(), ciphertext) {
        Ok(plaintext) => Some(plaintext),
        Err(_) => None,
    };
    erase_bytes(key);
    erase_bytes(nonce);
    check_authentic(outcome)
}

} // verus!
