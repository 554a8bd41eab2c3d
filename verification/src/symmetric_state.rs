//! The Noise symmetric state: a chaining key, a running handshake hash, and
//! — once any secret has been mixed in — an AEAD key with a per-message nonce
//! index.
//!
//! Every transforming operation consumes the state and returns a fresh one,
//! so an intermediate state cannot be reused.  Shared secrets and pre-shared
//! keys handed to the mixing operations are zeroized before they return.

use vstd::prelude::*;
use vstd::slice::slice_to_vec;
use crate::config::{Config, spec_hash_len, hash_len, AEAD_KEY_LEN, AEAD_TAG_LEN};
use crate::bytes::{zero_bytes, append_bytes};
use crate::hash::{
    digest_of, hash_init, hash_mix, hash_mix_parts, spec_split_2, spec_split_3, spec_split_final,
    split_2, split_3, split_final,
};
use crate::cipher_state::{
    MacMismatch, Cipher, spec_aead_sealed, spec_aead_opened, aead_seal, aead_open,
};
use crate::crypto::{wipe_bytes, MAX_AEAD_LEN};

verus! {

/// The keyed part of a symmetric state: the AEAD key and the nonce index,
/// which starts at 0 after every keying operation and advances by one per
/// AEAD operation.
pub struct Key {
    aead_key: Vec<u8>,
    nonce: u64,
}

/// The transport ciphers and final handshake hash produced by `finish`.
pub struct Output {
    pub sender: Cipher,
    pub receiver: Cipher,
    pub hash: Vec<u8>,
}

/// The raw transport keys and final handshake hash produced by `finish_raw`.
pub struct OutputRaw {
    pub sender: Vec<u8>,
    pub receiver: Vec<u8>,
    pub hash: Vec<u8>,
}

impl Clone for OutputRaw {
    /// A clone duplicates the key and hash bytes.
    fn clone(&self) -> (r: OutputRaw)
        ensures
            r.sender@ == self.sender@,
            r.receiver@ == self.receiver@,
            r.hash@ == self.hash@,
    {
        OutputRaw {
            sender: slice_to_vec(self.sender.as_slice()),
            receiver: slice_to_vec(self.receiver.as_slice()),
            hash: slice_to_vec(self.hash.as_slice()),
        }
    }
}

/// The handshake hash `h` right-padded or hashed from the protocol name, as
/// prescribed for `initialize`: names no longer than the hash output are
/// zero-padded to it, longer names are hashed.
pub open spec fn spec_init_hash(cfg: Config, name: Seq<u8>) -> Seq<u8> {
    if name.len() <= spec_hash_len(cfg.hash) {
        name + zero_bytes((spec_hash_len(cfg.hash) - name.len()) as nat)
    } else {
        digest_of(cfg.hash, name)
    }
}

/// The transport keys the terminal split assigns to (sender, receiver):
/// the two truncated HKDF blocks, crossed when `swap` expresses the
/// responder's perspective.
pub open spec fn spec_finish_keys(cfg: Config, ck: Seq<u8>, swap: bool) -> (Seq<u8>, Seq<u8>) {
    let pair = spec_split_final(cfg.hash, ck);
    if swap {
        (pair.1, pair.0)
    } else {
        pair
    }
}

/// The two perspectives on one terminal split pair up crosswise: what the
/// plain split hands its sender, the swapped split hands its receiver, and
/// the other way round.  Two parties that derive from the same chaining key,
/// one with `swap` and one without, therefore hold matching transport keys.
pub proof fn lemma_split_perspectives(cfg: Config, ck: Seq<u8>)
    ensures
        spec_finish_keys(cfg, ck, false).0 == spec_finish_keys(cfg, ck, true).1,
        spec_finish_keys(cfg, ck, false).1 == spec_finish_keys(cfg, ck, true).0,
{
}

/// The Noise symmetric state.
pub struct SymmetricState {
    cfg: Config,
    chaining_key: Vec<u8>,
    hash: Vec<u8>,
    key: Option<Key>,
}

impl Clone for SymmetricState {
    /// A clone is a twin: it carries the same chaining key, handshake hash,
    /// AEAD key and nonce index, so both copies walk on identically.
    fn clone(&self) -> (r: SymmetricState)
        ensures
            r.cfg_spec() == self.cfg_spec(),
            r.ck_spec() == self.ck_spec(),
            r.h_spec() == self.h_spec(),
            r.is_keyed() == self.is_keyed(),
            r.key_spec() == self.key_spec(),
            r.nonce_spec() == self.nonce_spec(),
    {
        let key = match &self.key {
            Some(k) => Some(Key { aead_key: slice_to_vec(k.aead_key.as_slice()), nonce: k.nonce }),
            None => None,
        };
        SymmetricState {
            cfg: self.cfg,
            chaining_key: slice_to_vec(self.chaining_key.as_slice()),
            hash: slice_to_vec(self.hash.as_slice()),
            key,
        }
    }
}

impl SymmetricState {
    /// The primitive choice.
    pub closed spec fn cfg_spec(self) -> Config {
        self.cfg
    }

    /// The chaining key bytes.
    pub closed spec fn ck_spec(self) -> Seq<u8> {
        self.chaining_key@
    }

    /// The handshake hash bytes.
    pub closed spec fn h_spec(self) -> Seq<u8> {
        self.hash@
    }

    /// Whether a secret has been mixed in, so the AEAD key exists.
    pub closed spec fn is_keyed(self) -> bool {
        self.key is Some
    }

    /// The AEAD key bytes; meaningful only when keyed.
    pub closed spec fn key_spec(self) -> Seq<u8> {
        match self.key {
            Some(k) => k.aead_key@,
            None => Seq::<u8>::empty(),
        }
    }

    /// The nonce index; meaningful only when keyed.
    pub closed spec fn nonce_spec(self) -> u64 {
        match self.key {
            Some(k) => k.nonce,
            None => 0,
        }
    }

    /// Well-formedness: chaining key and hash have the hash-output length,
    /// and the AEAD key, when present, has the AEAD key size.
    pub open spec fn wf(self) -> bool {
        &&& self.ck_spec().len() == spec_hash_len(self.cfg_spec().hash)
        &&& self.h_spec().len() == spec_hash_len(self.cfg_spec().hash)
        &&& (self.is_keyed() ==> self.key_spec().len() == AEAD_KEY_LEN)
    }

    /// Initializes the state from a protocol name: `h` is the name zero-padded
    /// to the hash length, or its digest when longer; `ck` starts equal to
    /// `h`; no AEAD key yet.
    pub fn new(cfg: Config, name: &[u8]) -> (r: SymmetricState)
        ensures
            r.cfg_spec() == cfg,
            r.h_spec() == spec_init_hash(cfg, name@),
            r.ck_spec() == r.h_spec(),
            !r.is_keyed(),
            r.wf(),
    {
        let l = hash_len(cfg.hash);
        let hash: Vec<u8> = if name.len() <= l {
            let mut padded = slice_to_vec(name);
            while padded.len() < l
                invariant
                    name@.len() <= padded@.len() <= l,
                    padded@ == name@ + zero_bytes((padded@.len() - name@.len()) as nat),
                decreases l - padded@.len(),
            {
                padded.push(0u8);
                proof {
                    assert(padded@ =~= name@ + zero_bytes(
                        (padded@.len() - name@.len()) as nat,
                    ));
                }
            }
            proof {
                assert(name@ + zero_bytes(0) =~= name@);
            }
            padded
        } else {
            hash_init(cfg.hash, name)
        };
        let chaining_key = slice_to_vec(hash.as_slice());
        SymmetricState { cfg, chaining_key, hash, key: None }
    }

    /// A copy of the current handshake hash.
    pub fn hash(&self) -> (r: Vec<u8>)
        ensures
            r@ == self.h_spec(),
    {
        slice_to_vec(self.hash.as_slice())
    }

    /// A copy of the current chaining key, for callers that persist an
    /// unkeyed state between handshake steps.
    pub fn chaining_key(&self) -> (r: Vec<u8>)
        ensures
            r@ == self.ck_spec(),
    {
        slice_to_vec(self.chaining_key.as_slice())
    }

    /// Rebuilds an unkeyed state from a persisted chaining key and handshake
    /// hash.  Succeeds exactly when both have the hash-output length.
    pub fn from_parts(cfg: Config, chaining_key: Vec<u8>, hash: Vec<u8>) -> (r: Option<
        SymmetricState,
    >)
        ensures
            r is Some <==> (chaining_key@.len() == spec_hash_len(cfg.hash) && hash@.len()
                == spec_hash_len(cfg.hash)),
            r matches Some(s) ==> {
                &&& s.wf()
                &&& s.cfg_spec() == cfg
                &&& s.ck_spec() == chaining_key@
                &&& s.h_spec() == hash@
                &&& !s.is_keyed()
            },
    {
        let l = hash_len(cfg.hash);
        if chaining_key.len() == l && hash.len() == l {
            Some(SymmetricState { cfg, chaining_key, hash, key: None })
        } else {
            None
        }
    }

    /// Mixes `data` into the handshake hash: `h` becomes `H(h || data)`.
    /// Chaining key and AEAD key are untouched.
    pub fn mix_hash(self, data: &[u8]) -> (r: SymmetricState)
        requires
            self.wf(),
            self.h_spec().len() + data@.len() <= usize::MAX,
        ensures
            r.wf(),
            r.cfg_spec() == self.cfg_spec(),
            r.ck_spec() == self.ck_spec(),
            r.h_spec() == digest_of(self.cfg_spec().hash, self.h_spec() + data@),
            r.is_keyed() == self.is_keyed(),
            r.key_spec() == self.key_spec(),
            r.nonce_spec() == self.nonce_spec(),
    {
        let SymmetricState { cfg, chaining_key, hash, key } = self;
        let hash = hash_mix(cfg.hash, hash.as_slice(), data);
        SymmetricState { cfg, chaining_key, hash, key }
    }

    /// Mixes a shared secret: the chaining key and a fresh AEAD key are
    /// derived by the two-block HKDF, the nonce index resets to 0, and the
    /// caller's secret is zeroized.  The handshake hash is untouched.
    pub fn mix_shared_secret(self, data: &mut Vec<u8>) -> (r: SymmetricState)
        requires
            self.wf(),
        ensures
            r.wf(),
            r.cfg_spec() == self.cfg_spec(),
            r.h_spec() == self.h_spec(),
            r.ck_spec() == spec_split_2(self.cfg_spec().hash, self.ck_spec(), old(data)@).0,
            r.is_keyed(),
            r.key_spec() == spec_split_2(self.cfg_spec().hash, self.ck_spec(), old(data)@).1,
            r.nonce_spec() == 0,
            final(data)@.len() == old(data)@.len(),
            forall|i: int| 0 <= i < final(data)@.len() ==> final(data)@[i] == 0u8,
    {
        let SymmetricState { cfg, chaining_key, hash, key: _ } = self;
        let (chaining_key, aead_key) = split_2(cfg.hash, chaining_key.as_slice(), data.as_slice());
        wipe_bytes(data);
        SymmetricState { cfg, chaining_key, hash, key: Some(Key { aead_key, nonce: 0 }) }
    }

    /// Mixes a pre-shared key: the three-block HKDF yields the fresh chaining
    /// key, a full-width middle block that is mixed into the handshake hash,
    /// and a fresh AEAD key; the nonce index resets to 0 and the caller's
    /// secret is zeroized.
    pub fn mix_psk(self, data: &mut Vec<u8>) -> (r: SymmetricState)
        requires
            self.wf(),
        ensures
            r.wf(),
            r.cfg_spec() == self.cfg_spec(),
            r.ck_spec() == spec_split_3(self.cfg_spec().hash, self.ck_spec(), old(data)@).0,
            r.h_spec() == digest_of(
                self.cfg_spec().hash,
                self.h_spec() + spec_split_3(self.cfg_spec().hash, self.ck_spec(), old(data)@).1,
            ),
            r.is_keyed(),
            r.key_spec() == spec_split_3(self.cfg_spec().hash, self.ck_spec(), old(data)@).2,
            r.nonce_spec() == 0,
            final(data)@.len() == old(data)@.len(),
            forall|i: int| 0 <= i < final(data)@.len() ==> final(data)@[i] == 0u8,
    {
        let SymmetricState { cfg, chaining_key, hash, key: _ } = self;
        let (chaining_key, mut middle, aead_key) = split_3(
            cfg.hash,
            chaining_key.as_slice(),
            data.as_slice(),
        );
        wipe_bytes(data);
        let hash = hash_mix(cfg.hash, hash.as_slice(), middle.as_slice());
        wipe_bytes(&mut middle);
        SymmetricState { cfg, chaining_key, hash, key: Some(Key { aead_key, nonce: 0 }) }
    }

    /// The terminal derivation as raw key bytes: the two transport keys from
    /// the final HKDF over the chaining key, crossed when `swap` is set, with
    /// the final handshake hash.  The chaining key is zeroized.
    pub fn finish_raw(self, swap: bool) -> (r: OutputRaw)
        requires
            self.wf(),
        ensures
            r.sender@ == spec_finish_keys(self.cfg_spec(), self.ck_spec(), swap).0,
            r.receiver@ == spec_finish_keys(self.cfg_spec(), self.ck_spec(), swap).1,
            r.hash@ == self.h_spec(),
            r.sender@.len() == AEAD_KEY_LEN,
            r.receiver@.len() == AEAD_KEY_LEN,
    {
        let SymmetricState { cfg, mut chaining_key, hash, key: _ } = self;
        let (send_key, receive_key) = split_final(cfg.hash, chaining_key.as_slice());
        wipe_bytes(&mut chaining_key);
        if swap {
            OutputRaw { sender: receive_key, receiver: send_key, hash }
        } else {
            OutputRaw { sender: send_key, receiver: receive_key, hash }
        }
    }

    /// The terminal derivation: the transport cipher pair and the final
    /// handshake hash.  `swap` expresses the responder's perspective on the
    /// final key pair; both ciphers start at counter 0 with the given step.
    /// The chaining key is zeroized.
    pub fn finish(self, step: u64, swap: bool) -> (r: Output)
        requires
            self.wf(),
            step == 1 || step == 2,
        ensures
            r.sender.wf(),
            r.receiver.wf(),
            r.sender.cfg_spec() == self.cfg_spec(),
            r.receiver.cfg_spec() == self.cfg_spec(),
            r.sender.key_spec() == spec_finish_keys(self.cfg_spec(), self.ck_spec(), swap).0,
            r.receiver.key_spec() == spec_finish_keys(self.cfg_spec(), self.ck_spec(), swap).1,
            r.sender.send_spec(),
            !r.receiver.send_spec(),
            r.sender.nonce_spec() == 0,
            r.receiver.nonce_spec() == 0,
            r.sender.step_spec() == step,
            r.receiver.step_spec() == step,
            r.hash@ == self.h_spec(),
    {
        let SymmetricState { cfg, mut chaining_key, hash, key: _ } = self;
        let (send_key, receive_key) = split_final(cfg.hash, chaining_key.as_slice());
        wipe_bytes(&mut chaining_key);
        if swap {
            Output {
                sender: Cipher::new(cfg, receive_key, step, true),
                receiver: Cipher::new(cfg, send_key, step, false),
                hash,
            }
        } else {
            Output {
                sender: Cipher::new(cfg, send_key, step, true),
                receiver: Cipher::new(cfg, receive_key, step, false),
                hash,
            }
        }
    }

    /// Advances the nonce index without an AEAD operation, for protocol
    /// variants that skip a slot.
    pub fn increase(self) -> (r: SymmetricState)
        requires
            self.wf(),
            self.is_keyed(),
            self.nonce_spec() < u64::MAX,
        ensures
            r.wf(),
            r.cfg_spec() == self.cfg_spec(),
            r.ck_spec() == self.ck_spec(),
            r.h_spec() == self.h_spec(),
            r.is_keyed(),
            r.key_spec() == self.key_spec(),
            r.nonce_spec() == self.nonce_spec() + 1,
    {
        let SymmetricState { cfg, chaining_key, hash, key } = self;
        let key = match key {
            Some(Key { aead_key, nonce }) => Some(Key { aead_key, nonce: nonce + 1 }),
            None => None,
        };
        SymmetricState { cfg, chaining_key, hash, key }
    }

    /// Encrypts `data` in place at the current nonce index with the current
    /// handshake hash as associated data, returns the detached tag, advances
    /// the nonce index, and mixes `h || ciphertext || tag` into the hash in a
    /// single hash pass.
    pub fn encrypt(self, data: &mut Vec<u8>) -> (r: (SymmetricState, Vec<u8>))
        requires
            self.wf(),
            self.is_keyed(),
            self.nonce_spec() < u64::MAX,
            old(data)@.len() <= MAX_AEAD_LEN,
        ensures
            r.0.wf(),
            r.0.cfg_spec() == self.cfg_spec(),
            r.0.ck_spec() == self.ck_spec(),
            r.0.is_keyed(),
            r.0.key_spec() == self.key_spec(),
            r.0.nonce_spec() == self.nonce_spec() + 1,
            final(data)@.len() == old(data)@.len(),
            r.1@.len() == AEAD_TAG_LEN,
            final(data)@ + r.1@ == spec_aead_sealed(
                self.cfg_spec().aead,
                self.key_spec(),
                self.cfg_spec().spec_prepare_nonce(self.nonce_spec()),
                self.h_spec(),
                old(data)@,
            ),
            spec_aead_opened(
                self.cfg_spec().aead,
                self.key_spec(),
                self.cfg_spec().spec_prepare_nonce(self.nonce_spec()),
                self.h_spec(),
                final(data)@,
                r.1@,
            ) == Some(old(data)@),
            r.0.h_spec() == digest_of(
                self.cfg_spec().hash,
                self.h_spec() + final(data)@ + r.1@,
            ),
    {
        let SymmetricState { cfg, chaining_key, hash, key } = self;
        let (aead_key, nonce) = match key {
            Some(Key { aead_key, nonce }) => (aead_key, nonce),
            None => {
                proof {
                    assert(false);
                }
                unreached()
            },
        };
        let nonce_bytes = cfg.prepare_nonce(nonce);
        let tag = aead_seal(cfg.aead, aead_key.as_slice(), nonce_bytes.as_slice(), hash.as_slice(), data);
        let hash = hash_mix_parts(cfg.hash, hash.as_slice(), data.as_slice(), tag.as_slice());
        (
            SymmetricState {
                cfg,
                chaining_key,
                hash,
                key: Some(Key { aead_key, nonce: nonce + 1 }),
            },
            tag,
        )
    }

    /// Encrypts the vector in place and appends the tag to it, so the vector
    /// ends as `ciphertext || tag`.
    pub fn encrypt_ext(self, data: &mut Vec<u8>) -> (r: SymmetricState)
        requires
            self.wf(),
            self.is_keyed(),
            self.nonce_spec() < u64::MAX,
            old(data)@.len() <= MAX_AEAD_LEN,
        ensures
            r.wf(),
            r.cfg_spec() == self.cfg_spec(),
            r.ck_spec() == self.ck_spec(),
            r.is_keyed(),
            r.key_spec() == self.key_spec(),
            r.nonce_spec() == self.nonce_spec() + 1,
            final(data)@ == spec_aead_sealed(
                self.cfg_spec().aead,
                self.key_spec(),
                self.cfg_spec().spec_prepare_nonce(self.nonce_spec()),
                self.h_spec(),
                old(data)@,
            ),
            final(data)@.len() == old(data)@.len() + AEAD_TAG_LEN,
            r.h_spec() == digest_of(self.cfg_spec().hash, self.h_spec() + final(data)@),
    {
        let (state, tag) = self.encrypt(data);
        let ghost ct = data@;
        append_bytes(data, tag.as_slice());
        proof {
            assert(self.h_spec() + (ct + tag@) =~= self.h_spec() + ct + tag@);
        }
        state
    }

    /// Verifies and decrypts `data` in place at the current nonce index with
    /// the current handshake hash as associated data.  The follow-on hash is
    /// computed over the ciphertext bytes before they are overwritten.  On
    /// failure the attempt consumes the state and the buffer is unchanged.
    pub fn decrypt(self, data: &mut Vec<u8>, tag: &[u8]) -> (r: Result<
        SymmetricState,
        MacMismatch,
    >)
        requires
            self.wf(),
            self.is_keyed(),
            self.nonce_spec() < u64::MAX,
            tag@.len() == AEAD_TAG_LEN,
            old(data)@.len() <= MAX_AEAD_LEN,
        ensures
            final(data)@.len() == old(data)@.len(),
            r is Ok <==> (spec_aead_opened(
                self.cfg_spec().aead,
                self.key_spec(),
                self.cfg_spec().spec_prepare_nonce(self.nonce_spec()),
                self.h_spec(),
                old(data)@,
                tag@,
            ) is Some),
            r matches Ok(s) ==> {
                &&& s.wf()
                &&& s.cfg_spec() == self.cfg_spec()
                &&& s.ck_spec() == self.ck_spec()
                &&& s.is_keyed()
                &&& s.key_spec() == self.key_spec()
                &&& s.nonce_spec() == self.nonce_spec() + 1
                &&& s.h_spec() == digest_of(
                    self.cfg_spec().hash,
                    self.h_spec() + old(data)@ + tag@,
                )
                &&& spec_aead_opened(
                    self.cfg_spec().aead,
                    self.key_spec(),
                    self.cfg_spec().spec_prepare_nonce(self.nonce_spec()),
                    self.h_spec(),
                    old(data)@,
                    tag@,
                ) == Some(final(data)@)
            },
            r is Err ==> final(data)@ == old(data)@,
    {
        let SymmetricState { cfg, chaining_key, hash, key } = self;
        let (aead_key, nonce) = match key {
            Some(Key { aead_key, nonce }) => (aead_key, nonce),
            None => {
                proof {
                    assert(false);
                }
                unreached()
            },
        };
        let next_hash = hash_mix_parts(cfg.hash, hash.as_slice(), data.as_slice(), tag);
        let nonce_bytes = cfg.prepare_nonce(nonce);
        if aead_open(cfg.aead, aead_key.as_slice(), nonce_bytes.as_slice(), hash.as_slice(), data, tag) {
            Ok(
                SymmetricState {
                    cfg,
                    chaining_key,
                    hash: next_hash,
                    key: Some(Key { aead_key, nonce: nonce + 1 }),
                },
            )
        } else {
            Err(MacMismatch)
        }
    }

    /// Produces a tag-bearing "zero" ciphertext for an empty protocol
    /// payload: the caller's buffer — meant to hold zeros — is encrypted in
    /// place with a single AEAD pass, exactly as `encrypt` does, so the bytes
    /// mixed into the hash are the encrypted buffer and its tag.
    pub fn zeros_tag(self, zeros: &mut Vec<u8>) -> (r: (SymmetricState, Vec<u8>))
        requires
            self.wf(),
            self.is_keyed(),
            self.nonce_spec() < u64::MAX,
            old(zeros)@.len() <= MAX_AEAD_LEN,
        ensures
            r.0.wf(),
            r.0.cfg_spec() == self.cfg_spec(),
            r.0.ck_spec() == self.ck_spec(),
            r.0.is_keyed(),
            r.0.key_spec() == self.key_spec(),
            r.0.nonce_spec() == self.nonce_spec() + 1,
            final(zeros)@.len() == old(zeros)@.len(),
            r.1@.len() == AEAD_TAG_LEN,
            final(zeros)@ + r.1@ == spec_aead_sealed(
                self.cfg_spec().aead,
                self.key_spec(),
                self.cfg_spec().spec_prepare_nonce(self.nonce_spec()),
                self.h_spec(),
                old(zeros)@,
            ),
            r.0.h_spec() == digest_of(
                self.cfg_spec().hash,
                self.h_spec() + final(zeros)@ + r.1@,
            ),
    {
        self.encrypt(zeros)
    }
}

} // verus!
