//! Core of a Noise-protocol symmetric engine.
//!
//! The crate maintains the handshake-hash and chaining-key state of a Noise
//! handshake, mixes shared secrets and pre-shared keys into that state via
//! HKDF, performs authenticated encryption of handshake payloads, and at the
//! end of the handshake derives a pair of transport ciphers bound to
//! per-direction nonce counters.  Diffie-Hellman, handshake patterns and I/O
//! are the caller's business: shared secrets arrive here as plain bytes.


mod bytes;
mod config;
mod crypto;
mod hash;
mod cipher_state;
mod symmetric_state;

pub use crate::bytes::{u64_le, u64_be, spec_u64_le, spec_u64_be, zero_bytes, append_bytes,
    concat_bytes};
pub use crate::config::{
    HashAlg, AeadAlg, Config, hash_len, spec_hash_len, lemma_nonce_layout, AEAD_KEY_LEN,
    AEAD_TAG_LEN, AEAD_NONCE_LEN,
};
pub use crate::hash::{
    digest_of, spec_hkdf_okm, hash_init, hash_mix, hash_mix_parts, hkdf_expand, split_2, split_3,
    split_final, spec_split_2, spec_split_3, spec_split_final, lemma_hkdf_deterministic,
};
pub use crate::cipher_state::{
    MacMismatch, CipherInner, Cipher, spec_aead_sealed, spec_aead_opened, aead_seal, aead_open,
};
pub use crate::crypto::MAX_AEAD_LEN;
pub use crate::symmetric_state::{
    SymmetricState, Output, OutputRaw, Key, spec_init_hash, spec_finish_keys,
    lemma_split_perspectives,
};
