//! The boundary to the cryptographic primitive crates.
//!
//! Every function here is a trusted wrapper around exactly one outside
//! primitive.  The result of each primitive is a pure function of the
//! wrapper's arguments; it is given a name (an uninterpreted spec function)
//! and the wrapper's contract states the result in terms of that name
//! together with the few facts the crate's source shows directly: output
//! lengths, in-place length preservation, and that decryption inverts
//! encryption under the same key, nonce and associated data.

use vstd::prelude::*;
use aead::{AeadInPlace, KeyInit};
use sha2::Digest;
use zeroize::Zeroize;

verus! {

/// Ceiling on plaintext, ciphertext and associated-data lengths handed to the
/// AEAD primitives: far below every per-invocation limit of both ciphers, so
/// the underlying calls cannot fail.
pub const MAX_AEAD_LEN: usize = 0x1000_0000;

/// What SHA-256 returns: a function of the input bytes alone.
pub uninterp spec fn sha256_of(data: Seq<u8>) -> Seq<u8>;

/// What SHA-512 returns: a function of the input bytes alone.
pub uninterp spec fn sha512_of(data: Seq<u8>) -> Seq<u8>;

/// What BLAKE2b-512 returns: a function of the input bytes alone.
pub uninterp spec fn blake2b_of(data: Seq<u8>) -> Seq<u8>;

/// What BLAKE2s-256 returns: a function of the input bytes alone.
pub uninterp spec fn blake2s_of(data: Seq<u8>) -> Seq<u8>;

/// Relies on sha2::Sha256 through the Digest trait: a 32-byte digest.
#[verifier::external_body]
pub(crate) fn sha256_hash(data: &[u8]) -> (r: Vec<u8>)
    ensures
        r@ == sha256_of(data@),
        r@.len() == 32,
{
    sha2::Sha256::digest(data).as_slice().to_vec()
}

/// Relies on sha2::Sha512 through the Digest trait: a 64-byte digest.
#[verifier::external_body]
pub(crate) fn sha512_hash(data: &[u8]) -> (r: Vec<u8>)
    ensures
        r@ == sha512_of(data@),
        r@.len() == 64,
{
    sha2::Sha512::digest(data).as_slice().to_vec()
}

/// Relies on blake2::Blake2b512 through the Digest trait: a 64-byte digest.
#[verifier::external_body]
pub(crate) fn blake2b_hash(data: &[u8]) -> (r: Vec<u8>)
    ensures
        r@ == blake2b_of(data@),
        r@.len() == 64,
{
    blake2::Blake2b512::digest(data).as_slice().to_vec()
}

/// Relies on blake2::Blake2s256 through the Digest trait: a 32-byte digest.
#[verifier::external_body]
pub(crate) fn blake2s_hash(data: &[u8]) -> (r: Vec<u8>)
    ensures
        r@ == blake2s_of(data@),
        r@.len() == 32,
{
    blake2::Blake2s256::digest(data).as_slice().to_vec()
}

/// What HKDF-SHA-256 (RFC 5869, empty info) expands to: a function of salt,
/// input key material and requested length alone.
pub uninterp spec fn hkdf_sha256_okm(salt: Seq<u8>, ikm: Seq<u8>, okm_len: nat) -> Seq<u8>;

/// What HKDF-SHA-512 (RFC 5869, empty info) expands to.
pub uninterp spec fn hkdf_sha512_okm(salt: Seq<u8>, ikm: Seq<u8>, okm_len: nat) -> Seq<u8>;

/// What HKDF-BLAKE2b-512 (RFC 5869 over HMAC-BLAKE2b, empty info) expands to.
pub uninterp spec fn hkdf_blake2b_okm(salt: Seq<u8>, ikm: Seq<u8>, okm_len: nat) -> Seq<u8>;

/// What HKDF-BLAKE2s-256 (RFC 5869 over HMAC-BLAKE2s, empty info) expands to.
pub uninterp spec fn hkdf_blake2s_okm(salt: Seq<u8>, ikm: Seq<u8>, okm_len: nat) -> Seq<u8>;

/// Relies on hkdf::Hkdf<Sha256>: extract with the given salt, then expand
/// with empty info.  Expand only refuses lengths above 255 hash blocks.
#[verifier::external_body]
pub(crate) fn hkdf_sha256(salt: &[u8], ikm: &[u8], okm_len: usize) -> (r: Vec<u8>)
    requires
        okm_len <= 255 * 32,
    ensures
        r@ == hkdf_sha256_okm(salt@, ikm@, okm_len as nat),
        r@.len() == okm_len,
{
    let hk = hkdf::Hkdf::<sha2::Sha256>::new(Some(salt), ikm);
    let mut okm = vec![0u8; okm_len];
    hk.expand(&[], &mut okm).unwrap();
    okm
}

/// Relies on hkdf::Hkdf<Sha512>: extract with the given salt, then expand
/// with empty info.
#[verifier::external_body]
pub(crate) fn hkdf_sha512(salt: &[u8], ikm: &[u8], okm_len: usize) -> (r: Vec<u8>)
    requires
        okm_len <= 255 * 64,
    ensures
        r@ == hkdf_sha512_okm(salt@, ikm@, okm_len as nat),
        r@.len() == okm_len,
{
    let hk = hkdf::Hkdf::<sha2::Sha512>::new(Some(salt), ikm);
    let mut okm = vec![0u8; okm_len];
    hk.expand(&[], &mut okm).unwrap();
    okm
}

/// Relies on hkdf::Hkdf<Blake2b512, SimpleHmac<Blake2b512>>: extract with the
/// given salt, then expand with empty info.
#[verifier::external_body]
pub(crate) fn hkdf_blake2b(salt: &[u8], ikm: &[u8], okm_len: usize) -> (r: Vec<u8>)
    requires
        okm_len <= 255 * 64,
    ensures
        r@ == hkdf_blake2b_okm(salt@, ikm@, okm_len as nat),
        r@.len() == okm_len,
{
    let hk = hkdf::Hkdf::<blake2::Blake2b512, hkdf::hmac::SimpleHmac<blake2::Blake2b512>>::new(
        Some(salt),
        ikm,
    );
    let mut okm = vec![0u8; okm_len];
    hk.expand(&[], &mut okm).unwrap();
    okm
}

/// Relies on hkdf::Hkdf<Blake2s256, SimpleHmac<Blake2s256>>: extract with the
/// given salt, then expand with empty info.
#[verifier::external_body]
pub(crate) fn hkdf_blake2s(salt: &[u8], ikm: &[u8], okm_len: usize) -> (r: Vec<u8>)
    requires
        okm_len <= 255 * 32,
    ensures
        r@ == hkdf_blake2s_okm(salt@, ikm@, okm_len as nat),
        r@.len() == okm_len,
{
    let hk = hkdf::Hkdf::<blake2::Blake2s256, hkdf::hmac::SimpleHmac<blake2::Blake2s256>>::new(
        Some(salt),
        ikm,
    );
    let mut okm = vec![0u8; okm_len];
    hk.expand(&[], &mut okm).unwrap();
    okm
}

/// What ChaCha20-Poly1305 produces for a given key, nonce, associated data
/// and plaintext: the ciphertext followed by the 16-byte tag.
pub uninterp spec fn chacha_sealed(key: Seq<u8>, nonce: Seq<u8>, ad: Seq<u8>, pt: Seq<u8>) -> Seq<
    u8,
>;

/// What ChaCha20-Poly1305 decryption yields for a given key, nonce,
/// associated data, ciphertext and tag: the plaintext when the tag verifies,
/// nothing otherwise.
pub uninterp spec fn chacha_opened(
    key: Seq<u8>,
    nonce: Seq<u8>,
    ad: Seq<u8>,
    ct: Seq<u8>,
    tag: Seq<u8>,
) -> Option<Seq<u8>>;

/// What AES-256-GCM produces for a given key, nonce, associated data and
/// plaintext: the ciphertext followed by the 16-byte tag.
pub uninterp spec fn aes_gcm_sealed(key: Seq<u8>, nonce: Seq<u8>, ad: Seq<u8>, pt: Seq<u8>) -> Seq<
    u8,
>;

/// What AES-256-GCM decryption yields for a given key, nonce, associated
/// data, ciphertext and tag.
pub uninterp spec fn aes_gcm_opened(
    key: Seq<u8>,
    nonce: Seq<u8>,
    ad: Seq<u8>,
    ct: Seq<u8>,
    tag: Seq<u8>,
) -> Option<Seq<u8>>;

/// Relies on chacha20poly1305::ChaCha20Poly1305::encrypt_in_place_detached:
/// the buffer is replaced in place by a same-length ciphertext and the
/// detached 16-byte tag is returned; decrypting that ciphertext with the same
/// key, nonce and associated data returns the original plaintext.
#[verifier::external_body]
pub(crate) fn chacha_seal(key: &[u8], nonce: &[u8], ad: &[u8], buffer: &mut Vec<u8>) -> (tag: Vec<u8>)
    requires
        key@.len() == 32,
        nonce@.len() == 12,
        old(buffer)@.len() <= MAX_AEAD_LEN,
        ad@.len() <= MAX_AEAD_LEN,
    ensures
        final(buffer)@.len() == old(buffer)@.len(),
        tag@.len() == 16,
        final(buffer)@ + tag@ == chacha_sealed(key@, nonce@, ad@, old(buffer)@),
        chacha_opened(key@, nonce@, ad@, final(buffer)@, tag@) == Some(old(buffer)@),
{
    let cipher = chacha20poly1305::ChaCha20Poly1305::new(chacha20poly1305::Key::from_slice(key));
    let tag = cipher
        .encrypt_in_place_detached(chacha20poly1305::Nonce::from_slice(nonce), ad, buffer)
        .unwrap();
    tag.as_slice().to_vec()
}

/// Relies on chacha20poly1305::ChaCha20Poly1305::decrypt_in_place_detached:
/// the tag is verified over the ciphertext first; only on success is the
/// buffer replaced in place by the same-length plaintext, otherwise it is
/// left untouched.
#[verifier::external_body]
pub(crate) fn chacha_open(key: &[u8], nonce: &[u8], ad: &[u8], buffer: &mut Vec<u8>, tag: &[u8]) -> (ok:
    bool)
    requires
        key@.len() == 32,
        nonce@.len() == 12,
        tag@.len() == 16,
        old(buffer)@.len() <= MAX_AEAD_LEN,
        ad@.len() <= MAX_AEAD_LEN,
    ensures
        final(buffer)@.len() == old(buffer)@.len(),
        ok == (chacha_opened(key@, nonce@, ad@, old(buffer)@, tag@) is Some),
        ok ==> chacha_opened(key@, nonce@, ad@, old(buffer)@, tag@) == Some(final(buffer)@),
        !ok ==> final(buffer)@ == old(buffer)@,
{
    let cipher = chacha20poly1305::ChaCha20Poly1305::new(chacha20poly1305::Key::from_slice(key));
    cipher
        .decrypt_in_place_detached(
            chacha20poly1305::Nonce::from_slice(nonce),
            ad,
            buffer,
            chacha20poly1305::Tag::from_slice(tag),
        )
        .is_ok()
}

/// Relies on aes_gcm::Aes256Gcm::encrypt_in_place_detached: the buffer is
/// replaced in place by a same-length ciphertext and the detached 16-byte tag
/// is returned; decrypting that ciphertext with the same key, nonce and
/// associated data returns the original plaintext.
#[verifier::external_body]
pub(crate) fn aes_gcm_seal(key: &[u8], nonce: &[u8], ad: &[u8], buffer: &mut Vec<u8>) -> (tag: Vec<u8>)
    requires
        key@.len() == 32,
        nonce@.len() == 12,
        old(buffer)@.len() <= MAX_AEAD_LEN,
        ad@.len() <= MAX_AEAD_LEN,
    ensures
        final(buffer)@.len() == old(buffer)@.len(),
        tag@.len() == 16,
        final(buffer)@ + tag@ == aes_gcm_sealed(key@, nonce@, ad@, old(buffer)@),
        aes_gcm_opened(key@, nonce@, ad@, final(buffer)@, tag@) == Some(old(buffer)@),
{
    let cipher = aes_gcm::Aes256Gcm::new(aes_gcm::Key::<aes_gcm::Aes256Gcm>::from_slice(key));
    let tag = cipher
        .encrypt_in_place_detached(aes_gcm::Nonce::from_slice(nonce), ad, buffer)
        .unwrap();
    tag.as_slice().to_vec()
}

/// Relies on aes_gcm::Aes256Gcm::decrypt_in_place_detached: the tag is
/// verified over the ciphertext first; only on success is the buffer replaced
/// in place by the same-length plaintext, otherwise it is left untouched.
#[verifier::external_body]
pub(crate) fn aes_gcm_open(key: &[u8], nonce: &[u8], ad: &[u8], buffer: &mut Vec<u8>, tag: &[u8]) -> (ok:
    bool)
    requires
        key@.len() == 32,
        nonce@.len() == 12,
        tag@.len() == 16,
        old(buffer)@.len() <= MAX_AEAD_LEN,
        ad@.len() <= MAX_AEAD_LEN,
    ensures
        final(buffer)@.len() == old(buffer)@.len(),
        ok == (aes_gcm_opened(key@, nonce@, ad@, old(buffer)@, tag@) is Some),
        ok ==> aes_gcm_opened(key@, nonce@, ad@, old(buffer)@, tag@) == Some(final(buffer)@),
        !ok ==> final(buffer)@ == old(buffer)@,
{
    let cipher = aes_gcm::Aes256Gcm::new(aes_gcm::Key::<aes_gcm::Aes256Gcm>::from_slice(key));
    cipher
        .decrypt_in_place_detached(
            aes_gcm::Nonce::from_slice(nonce),
            ad,
            buffer,
            aes_gcm::Tag::from_slice(tag),
        )
        .is_ok()
}

/// Relies on zeroize::Zeroize for byte slices: every byte is overwritten with
/// zero through a volatile write the compiler may not elide; the length is
/// unchanged.
#[verifier::external_body]
pub(crate) fn wipe_bytes(data: &mut Vec<u8>)
    ensures
        final(data)@.len() == old(data)@.len(),
        forall|i: int| 0 <= i < final(data)@.len() ==> final(data)@[i] == 0u8,
{
    data.as_mut_slice().zeroize();
}

} // verus!
