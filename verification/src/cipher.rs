//! The boundary to the cipher and to the text encoding of binary data.
//!
//! Nothing in this file is proved. Each function hands its arguments to an
//! outside crate, and its contract records what that crate is relied on to
//! do. The rest of the library is verified against these contracts.

use aes_gcm::aead::rand_core::RngCore;
use aes_gcm::aead::{Aead, KeyInit, OsRng};
use aes_gcm::{Aes256Gcm, Nonce};
use base64::engine::general_purpose;
use base64::Engine;
use vstd::prelude::*;

verus! {

/// Length of an AES-GCM nonce in bytes.
pub const NONCE_LEN: usize = 12;

/// Length of the authentication tag that closes every ciphertext.
pub const TAG_LEN: usize = 16;

/// The longest byte string whose base64 text, four characters for every
/// three bytes begun, is no longer than the `isize::MAX` bytes that one
/// allocation can hold.
pub const MAX_BASE64_INPUT: usize = (isize::MAX as usize / 4) * 3;

/// The longest plaintext, in bytes, that the cipher accepts.
pub const MAX_PLAINTEXT_LEN: u64 = 0x10_0000_0000;

/// The ciphertext, authentication tag included, that AES-256-GCM produces
/// for a plaintext under a key and a nonce, with no associated data.
pub uninterp spec fn aes_gcm_sealed(key: Seq<u8>, nonce: Seq<u8>, plaintext: Seq<u8>) -> Seq<u8>;

/// What AES-256-GCM decryption gives for a ciphertext under a key and a
/// nonce: the plaintext where the tag authenticates it, nothing otherwise.
pub uninterp spec fn aes_gcm_opened(key: Seq<u8>, nonce: Seq<u8>, ciphertext: Seq<u8>) -> Option<
    Seq<u8>,
>;

/// The padded standard-alphabet base64 text of a byte string.
pub uninterp spec fn base64_text(bytes: Seq<u8>) -> Seq<char>;

/// What decoding a text as padded standard-alphabet base64 gives: the
/// bytes, or the decoder's description of why the text is not base64.
pub uninterp spec fn base64_bytes(text: Seq<char>) -> Result<Seq<u8>, Seq<char>>;

/// Calls `Aes256Gcm::encrypt` of the crate `aes-gcm` with a cipher built
/// from `key`.
///
/// Relied on: the call fails exactly for a plaintext longer than the
/// cipher's limit, and then with the text `aead::Error`; a ciphertext is
/// 16 bytes longer than its plaintext and decrypts, under the same key and
/// nonce, to that plaintext.
#[verifier::external_body]
pub(crate) fn aes_gcm_encrypt(key: &[u8; 32], nonce: &[u8; 12], plaintext: &[u8]) -> (r: Result<
    Vec<u8>,
    String,
>)
    ensures
        r is Ok <==> plaintext@.len() <= MAX_PLAINTEXT_LEN,
        r matches Ok(c) ==> c@ == aes_gcm_sealed(key@, nonce@, plaintext@),
        r matches Ok(c) ==> c@.len() == plaintext@.len() + TAG_LEN,
        r matches Ok(c) ==> aes_gcm_opened(key@, nonce@, c@) == Some(plaintext@),
        r matches Err(e) ==> e@ == "aead::Error"@,
{
    let cipher = Aes256Gcm::new(key.into());
    cipher.encrypt(Nonce::from_slice(nonce), plaintext).map_err(|e| e.to_string())
}

/// Calls `Aes256Gcm::decrypt` of the crate `aes-gcm` with a cipher built
/// from `key`.
///
/// Relied on: the outcome depends on key, nonce and ciphertext alone; a
/// ciphertext shorter than the tag is refused; a plaintext is 16 bytes
/// shorter than its ciphertext; a refusal carries the text `aead::Error`.
#[verifier::external_body]
pub(crate) fn aes_gcm_decrypt(key: &[u8; 32], nonce: &[u8], ciphertext: &[u8]) -> (r: Result<
    Vec<u8>,
    String,
>)
    requires
        nonce@.len() == NONCE_LEN,
    ensures
        r matches Ok(p) ==> aes_gcm_opened(key@, nonce@, ciphertext@) == Some(p@),
        r matches Ok(p) ==> p@.len() + TAG_LEN == ciphertext@.len(),
        r matches Err(e) ==> aes_gcm_opened(key@, nonce@, ciphertext@) is None,
        r matches Err(e) ==> e@ == "aead::Error"@,
        ciphertext@.len() < TAG_LEN ==> r is Err,
{
    let cipher = Aes256Gcm::new(key.into());
    cipher.decrypt(Nonce::from_slice(nonce), ciphertext).map_err(|e| e.to_string())
}

/// Calls `OsRng::try_fill_bytes` of the crate `rand_core`, as `aes-gcm`
/// hands it on, for a fresh nonce.
///
/// Nothing is relied on but the length, which the type gives: the bytes
/// differ from call to call, and the system may refuse to supply them.
#[verifier::external_body]
pub(crate) fn random_nonce() -> (r: Result<[u8; 12], String>) {
    let mut bytes = [0u8; 12];
    OsRng.try_fill_bytes(&mut bytes).map(|_| bytes).map_err(|e| e.to_string())
}

/// Calls `Engine::encode` of the crate `base64` on its `STANDARD` engine.
///
/// Relied on: decoding the text gives the bytes back. The bound is the
/// input for which the function neither overflows when it computes the
/// length of the text nor asks for a buffer larger than an allocation may
/// be; past it the function panics.
#[verifier::external_body]
pub(crate) fn base64_encode(bytes: &[u8]) -> (r: String)
    requires
        bytes@.len() <= MAX_BASE64_INPUT,
    ensures
        r@ == base64_text(bytes@),
        base64_bytes(r@) is Ok,
        base64_bytes(r@)->Ok_0 == bytes@,
{
    general_purpose::STANDARD.encode(bytes)
}

/// Calls `Engine::decode` of the crate `base64` on its `STANDARD` engine.
///
/// Relied on: the outcome depends on the text alone.
#[verifier::external_body]
pub(crate) fn base64_decode(text: &str) -> (r: Result<Vec<u8>, String>)
    ensures
        r is Ok <==> base64_bytes(text@) is Ok,
        r matches Ok(b) ==> base64_bytes(text@)->Ok_0 == b@,
        r matches Err(e) ==> base64_bytes(text@)->Err_0 == e@,
{
    general_purpose::STANDARD.decode(text).map_err(|e| e.to_string())
}

} // verus!
