//! Hash and HKDF operations, dispatched over the hash choice.
//!
//! `digest_of` and `spec_hkdf_okm` are the mathematical models: they pick the
//! named result of the chosen primitive.  The three `split_*` functions are
//! the Noise key derivations: HKDF with the chaining key as salt and empty
//! info, the output cut into hash-length blocks, key blocks truncated to the
//! AEAD key size.

use vstd::prelude::*;
use crate::config::{HashAlg, spec_hash_len, hash_len, AEAD_KEY_LEN};
use crate::bytes::concat_bytes;
use crate::crypto::{
    sha256_of, sha512_of, blake2b_of, blake2s_of, sha256_hash, sha512_hash, blake2b_hash,
    blake2s_hash, hkdf_sha256_okm, hkdf_sha512_okm, hkdf_blake2b_okm, hkdf_blake2s_okm,
    hkdf_sha256, hkdf_sha512, hkdf_blake2b, hkdf_blake2s,
};
use vstd::slice::{slice_subrange, slice_to_vec};

verus! {

/// The digest of `data` under the chosen hash function.
pub open spec fn digest_of(alg: HashAlg, data: Seq<u8>) -> Seq<u8> {
    match alg {
        HashAlg::Sha256 => sha256_of(data),
        HashAlg::Sha512 => sha512_of(data),
        HashAlg::Blake2b512 => blake2b_of(data),
        HashAlg::Blake2s256 => blake2s_of(data),
    }
}

/// The HKDF output key material of length `okm_len` for the chosen hash
/// function, with `salt` as the extract salt and empty expand info.
pub open spec fn spec_hkdf_okm(alg: HashAlg, salt: Seq<u8>, ikm: Seq<u8>, okm_len: nat) -> Seq<u8> {
    match alg {
        HashAlg::Sha256 => hkdf_sha256_okm(salt, ikm, okm_len),
        HashAlg::Sha512 => hkdf_sha512_okm(salt, ikm, okm_len),
        HashAlg::Blake2b512 => hkdf_blake2b_okm(salt, ikm, okm_len),
        HashAlg::Blake2s256 => hkdf_blake2s_okm(salt, ikm, okm_len),
    }
}

/// Hashes `data` with the chosen hash function.
pub fn hash_init(alg: HashAlg, data: &[u8]) -> (r: Vec<u8>)
    ensures
        r@ == digest_of(alg, data@),
        r@.len() == spec_hash_len(alg),
{
    match alg {
        HashAlg::Sha256 => sha256_hash(data),
        HashAlg::Sha512 => sha512_hash(data),
        HashAlg::Blake2b512 => blake2b_hash(data),
        HashAlg::Blake2s256 => blake2s_hash(data),
    }
}

/// The digest of `h || data`: one hash pass over the concatenation.
pub fn hash_mix(alg: HashAlg, h: &[u8], data: &[u8]) -> (r: Vec<u8>)
    requires
        h@.len() + data@.len() <= usize::MAX,
    ensures
        r@ == digest_of(alg, h@ + data@),
        r@.len() == spec_hash_len(alg),
{
    let joined = concat_bytes(h, data);
    hash_init(alg, joined.as_slice())
}

/// The digest of `h || a || b`: a single hash pass over the concatenation,
/// not a nested rehash.
pub fn hash_mix_parts(alg: HashAlg, h: &[u8], a: &[u8], b: &[u8]) -> (r: Vec<u8>)
    requires
        h@.len() + a@.len() + b@.len() <= usize::MAX,
    ensures
        r@ == digest_of(alg, h@ + a@ + b@),
        r@.len() == spec_hash_len(alg),
{
    let joined = concat_bytes(h, a);
    let joined = concat_bytes(joined.as_slice(), b);
    hash_init(alg, joined.as_slice())
}

/// Runs HKDF for the chosen hash function with `salt`, `ikm` and empty info.
pub fn hkdf_expand(alg: HashAlg, salt: &[u8], ikm: &[u8], okm_len: usize) -> (r: Vec<u8>)
    requires
        okm_len <= 255 * spec_hash_len(alg),
    ensures
        r@ == spec_hkdf_okm(alg, salt@, ikm@, okm_len as nat),
        r@.len() == okm_len,
{
    match alg {
        HashAlg::Sha256 => hkdf_sha256(salt, ikm, okm_len),
        HashAlg::Sha512 => hkdf_sha512(salt, ikm, okm_len),
        HashAlg::Blake2b512 => hkdf_blake2b(salt, ikm, okm_len),
        HashAlg::Blake2s256 => hkdf_blake2s(salt, ikm, okm_len),
    }
}

/// The two-block derivation: a fresh chaining key and a truncated AEAD key.
pub open spec fn spec_split_2(alg: HashAlg, ck: Seq<u8>, ikm: Seq<u8>) -> (Seq<u8>, Seq<u8>) {
    let l = spec_hash_len(alg) as int;
    let okm = spec_hkdf_okm(alg, ck, ikm, (2 * l) as nat);
    (okm.subrange(0, l), okm.subrange(l, l + AEAD_KEY_LEN as int))
}

/// The three-block derivation: a fresh chaining key, the full-width middle
/// block, and a truncated AEAD key.
pub open spec fn spec_split_3(alg: HashAlg, ck: Seq<u8>, ikm: Seq<u8>) -> (Seq<u8>, Seq<u8>, Seq<
    u8,
>) {
    let l = spec_hash_len(alg) as int;
    let okm = spec_hkdf_okm(alg, ck, ikm, (3 * l) as nat);
    (
        okm.subrange(0, l),
        okm.subrange(l, 2 * l),
        okm.subrange(2 * l, 2 * l + AEAD_KEY_LEN as int),
    )
}

/// The terminal derivation: the two transport keys, each truncated to the
/// AEAD key size, from HKDF over the chaining key and empty input.
pub open spec fn spec_split_final(alg: HashAlg, ck: Seq<u8>) -> (Seq<u8>, Seq<u8>) {
    let l = spec_hash_len(alg) as int;
    let okm = spec_hkdf_okm(alg, ck, Seq::<u8>::empty(), (2 * l) as nat);
    (okm.subrange(0, AEAD_KEY_LEN as int), okm.subrange(l, l + AEAD_KEY_LEN as int))
}

/// HKDF over `(ck, ikm)` cut into a fresh chaining key and an AEAD key.
pub fn split_2(alg: HashAlg, ck: &[u8], ikm: &[u8]) -> (r: (Vec<u8>, Vec<u8>))
    ensures
        (r.0@, r.1@) == spec_split_2(alg, ck@, ikm@),
        r.0@.len() == spec_hash_len(alg),
        r.1@.len() == AEAD_KEY_LEN,
{
    let l = hash_len(alg);
    let okm = hkdf_expand(alg, ck, ikm, 2 * l);
    let ck2 = slice_to_vec(slice_subrange(okm.as_slice(), 0, l));
    let key = slice_to_vec(slice_subrange(okm.as_slice(), l, l + AEAD_KEY_LEN));
    (ck2, key)
}

/// HKDF over `(ck, ikm)` cut into a fresh chaining key, the full-width
/// middle block, and an AEAD key.
pub fn split_3(alg: HashAlg, ck: &[u8], ikm: &[u8]) -> (r: (Vec<u8>, Vec<u8>, Vec<u8>))
    ensures
        (r.0@, r.1@, r.2@) == spec_split_3(alg, ck@, ikm@),
        r.0@.len() == spec_hash_len(alg),
        r.1@.len() == spec_hash_len(alg),
        r.2@.len() == AEAD_KEY_LEN,
{
    let l = hash_len(alg);
    let okm = hkdf_expand(alg, ck, ikm, 3 * l);
    let ck2 = slice_to_vec(slice_subrange(okm.as_slice(), 0, l));
    let middle = slice_to_vec(slice_subrange(okm.as_slice(), l, 2 * l));
    let key = slice_to_vec(slice_subrange(okm.as_slice(), 2 * l, 2 * l + AEAD_KEY_LEN));
    (ck2, middle, key)
}

/// HKDF over `(ck, empty)` cut into the two transport keys.
pub fn split_final(alg: HashAlg, ck: &[u8]) -> (r: (Vec<u8>, Vec<u8>))
    ensures
        (r.0@, r.1@) == spec_split_final(alg, ck@),
        r.0@.len() == AEAD_KEY_LEN,
        r.1@.len() == AEAD_KEY_LEN,
{
    let l = hash_len(alg);
    let empty: Vec<u8> = Vec::new();
    let okm = hkdf_expand(alg, ck, empty.as_slice(), 2 * l);
    let k1 = slice_to_vec(slice_subrange(okm.as_slice(), 0, AEAD_KEY_LEN));
    let k2 = slice_to_vec(slice_subrange(okm.as_slice(), l, l + AEAD_KEY_LEN));
    (k1, k2)
}

/// HKDF under a fixed hash choice is a pure function of the chaining key and
/// the input key material: equal inputs give equal derivations.
pub proof fn lemma_hkdf_deterministic(alg: HashAlg, ck1: Seq<u8>, ikm1: Seq<u8>, ck2: Seq<u8>, ikm2: Seq<u8>)
    requires
        ck1 == ck2,
        ikm1 == ikm2,
    ensures
        spec_split_2(alg, ck1, ikm1) == spec_split_2(alg, ck2, ikm2),
        spec_split_3(alg, ck1, ikm1) == spec_split_3(alg, ck2, ikm2),
        spec_split_final(alg, ck1) == spec_split_final(alg, ck2),
{
}

} // verus!
