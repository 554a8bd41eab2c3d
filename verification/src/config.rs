//! The choice of primitives a symmetric state is parameterized over: the hash
//! function, the AEAD cipher, and the byte order used to encode the 64-bit
//! nonce counter into the AEAD nonce field.

use vstd::prelude::*;
use crate::bytes::{zero_bytes, spec_u64_le, spec_u64_be, u64_le, u64_be, append_bytes};

verus! {

/// Key size shared by both supported AEAD ciphers.
pub const AEAD_KEY_LEN: usize = 32;

/// Detached-tag size shared by both supported AEAD ciphers.
pub const AEAD_TAG_LEN: usize = 16;

/// Nonce size shared by both supported AEAD ciphers.
pub const AEAD_NONCE_LEN: usize = 12;

/// The hash function that maintains the handshake hash and drives HKDF.
#[derive(Clone, Copy, Debug, PartialEq, Eq, Structural)]
pub enum HashAlg {
    Sha256,
    Sha512,
    Blake2b512,
    Blake2s256,
}

/// The AEAD cipher that protects handshake payloads and transport messages.
#[derive(Clone, Copy, Debug, PartialEq, Eq, Structural)]
pub enum AeadAlg {
    ChaCha20Poly1305,
    Aes256Gcm,
}

/// Output length of the hash function, in bytes.
pub open spec fn spec_hash_len(alg: HashAlg) -> usize {
    match alg {
        HashAlg::Sha256 => 32,
        HashAlg::Sha512 => 64,
        HashAlg::Blake2b512 => 64,
        HashAlg::Blake2s256 => 32,
    }
}

/// Output length of the hash function, in bytes.
#[verifier::when_used_as_spec(spec_hash_len)]
pub fn hash_len(alg: HashAlg) -> (r: usize)
    ensures
        r == spec_hash_len(alg),
{
    match alg {
        HashAlg::Sha256 => 32,
        HashAlg::Sha512 => 64,
        HashAlg::Blake2b512 => 64,
        HashAlg::Blake2s256 => 32,
    }
}

/// A full choice of primitives.  `big_endian` selects the byte order of the
/// nonce counter inside the AEAD nonce field.
#[derive(Clone, Copy, Debug, PartialEq, Eq, Structural)]
pub struct Config {
    pub hash: HashAlg,
    pub aead: AeadAlg,
    pub big_endian: bool,
}

impl Config {
    /// The conventional pairing: ChaCha20-Poly1305 uses little-endian nonces,
    /// AES-256-GCM uses big-endian nonces.
    pub fn new(hash: HashAlg, aead: AeadAlg) -> (r: Config)
        ensures
            r.hash == hash,
            r.aead == aead,
            r.big_endian == (aead is Aes256Gcm),
    {
        Config { hash, aead, big_endian: matches!(aead, AeadAlg::Aes256Gcm) }
    }

    /// The AEAD nonce encoding the counter `n`: the eight counter bytes are
    /// right-aligned in a zero-initialized nonce field.
    pub open spec fn spec_prepare_nonce(self, n: u64) -> Seq<u8> {
        zero_bytes(4) + if self.big_endian {
            spec_u64_be(n)
        } else {
            spec_u64_le(n)
        }
    }

    /// Encodes the counter `n` into an AEAD nonce.
    pub fn prepare_nonce(self, n: u64) -> (r: Vec<u8>)
        ensures
            r@ == self.spec_prepare_nonce(n),
            r@.len() == AEAD_NONCE_LEN,
    {
        let mut r: Vec<u8> = Vec::new();
        r.push(0u8);
        r.push(0u8);
        r.push(0u8);
        r.push(0u8);
        proof {
            assert(r@ =~= zero_bytes(4));
        }
        let ctr = if self.big_endian {
            u64_be(n)
        } else {
            u64_le(n)
        };
        append_bytes(&mut r, ctr.as_slice());
        r
    }
}

/// The nonce layout law: the AEAD nonce is four zero bytes followed by the
/// counter, little-endian under the little-endian policy and big-endian under
/// the big-endian one.
pub proof fn lemma_nonce_layout(cfg: Config, n: u64)
    ensures
        !cfg.big_endian ==> cfg.spec_prepare_nonce(n) == zero_bytes(4) + spec_u64_le(n),
        cfg.big_endian ==> cfg.spec_prepare_nonce(n) == zero_bytes(4) + spec_u64_be(n),
{
}

} // verus!
