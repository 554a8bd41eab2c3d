//! One-direction transport ciphers: an AEAD key bound to a monotonically
//! increasing 64-bit nonce counter.

use vstd::prelude::*;
use vstd::slice::slice_to_vec;
use crate::config::{Config, AeadAlg, AEAD_KEY_LEN, AEAD_TAG_LEN};
use crate::crypto::{
    chacha_sealed, chacha_opened, aes_gcm_sealed, aes_gcm_opened, chacha_seal, chacha_open,
    aes_gcm_seal, aes_gcm_open, MAX_AEAD_LEN,
};

verus! {

/// The one runtime failure: AEAD tag verification failed.
#[derive(Debug, PartialEq, Eq, Structural)]
pub struct MacMismatch;

/// What the chosen AEAD produces for a given key, nonce, associated data and
/// plaintext: the ciphertext followed by the 16-byte tag.
pub open spec fn spec_aead_sealed(
    alg: AeadAlg,
    key: Seq<u8>,
    nonce: Seq<u8>,
    ad: Seq<u8>,
    pt: Seq<u8>,
) -> Seq<u8> {
    match alg {
        AeadAlg::ChaCha20Poly1305 => chacha_sealed(key, nonce, ad, pt),
        AeadAlg::Aes256Gcm => aes_gcm_sealed(key, nonce, ad, pt),
    }
}

/// What the chosen AEAD's decryption yields: the plaintext when the tag
/// verifies over the ciphertext and associated data, nothing otherwise.
pub open spec fn spec_aead_opened(
    alg: AeadAlg,
    key: Seq<u8>,
    nonce: Seq<u8>,
    ad: Seq<u8>,
    ct: Seq<u8>,
    tag: Seq<u8>,
) -> Option<Seq<u8>> {
    match alg {
        AeadAlg::ChaCha20Poly1305 => chacha_opened(key, nonce, ad, ct, tag),
        AeadAlg::Aes256Gcm => aes_gcm_opened(key, nonce, ad, ct, tag),
    }
}

/// Encrypts `buffer` in place under the chosen AEAD, returning the detached
/// tag.
pub fn aead_seal(alg: AeadAlg, key: &[u8], nonce: &[u8], ad: &[u8], buffer: &mut Vec<u8>) -> (tag:
    Vec<u8>)
    requires
        key@.len() == AEAD_KEY_LEN,
        nonce@.len() == 12,
        old(buffer)@.len() <= MAX_AEAD_LEN,
        ad@.len() <= MAX_AEAD_LEN,
    ensures
        final(buffer)@.len() == old(buffer)@.len(),
        tag@.len() == AEAD_TAG_LEN,
        final(buffer)@ + tag@ == spec_aead_sealed(alg, key@, nonce@, ad@, old(buffer)@),
        spec_aead_opened(alg, key@, nonce@, ad@, final(buffer)@, tag@) == Some(old(buffer)@),
{
    match alg {
        AeadAlg::ChaCha20Poly1305 => chacha_seal(key, nonce, ad, buffer),
        AeadAlg::Aes256Gcm => aes_gcm_seal(key, nonce, ad, buffer),
    }
}

/// Verifies the tag and, on success, decrypts `buffer` in place under the
/// chosen AEAD.  On failure the buffer is left untouched.
pub fn aead_open(
    alg: AeadAlg,
    key: &[u8],
    nonce: &[u8],
    ad: &[u8],
    buffer: &mut Vec<u8>,
    tag: &[u8],
) -> (ok: bool)
    requires
        key@.len() == AEAD_KEY_LEN,
        nonce@.len() == 12,
        tag@.len() == AEAD_TAG_LEN,
        old(buffer)@.len() <= MAX_AEAD_LEN,
        ad@.len() <= MAX_AEAD_LEN,
    ensures
        final(buffer)@.len() == old(buffer)@.len(),
        ok == (spec_aead_opened(alg, key@, nonce@, ad@, old(buffer)@, tag@) is Some),
        ok ==> spec_aead_opened(alg, key@, nonce@, ad@, old(buffer)@, tag@) == Some(final(buffer)@),
        !ok ==> final(buffer)@ == old(buffer)@,
{
    match alg {
        AeadAlg::ChaCha20Poly1305 => chacha_open(key, nonce, ad, buffer, tag),
        AeadAlg::Aes256Gcm => aes_gcm_open(key, nonce, ad, buffer, tag),
    }
}

/// The keyed core of a transport cipher: the primitive choice, the AEAD key
/// and the direction, without the nonce counter.
pub struct CipherInner {
    cfg: Config,
    key: Vec<u8>,
    send: bool,
}

impl Clone for CipherInner {
    /// A clone duplicates the key bytes; both copies encrypt identically.
    fn clone(&self) -> (r: CipherInner)
        ensures
            r.cfg_spec() == self.cfg_spec(),
            r.key_spec() == self.key_spec(),
            r.send_spec() == self.send_spec(),
    {
        CipherInner { cfg: self.cfg, key: slice_to_vec(self.key.as_slice()), send: self.send }
    }
}

impl CipherInner {
    /// The primitive choice.
    pub closed spec fn cfg_spec(self) -> Config {
        self.cfg
    }

    /// The AEAD key bytes.
    pub closed spec fn key_spec(self) -> Seq<u8> {
        self.key@
    }

    /// Whether this is the sending direction.
    pub closed spec fn send_spec(self) -> bool {
        self.send
    }

    /// Well-formedness: the key has the AEAD key size.
    pub open spec fn wf(self) -> bool {
        self.key_spec().len() == AEAD_KEY_LEN
    }

    pub(crate) fn inner_new(cfg: Config, key: Vec<u8>, send: bool) -> (r: CipherInner)
        requires
            key@.len() == AEAD_KEY_LEN,
        ensures
            r.cfg_spec() == cfg,
            r.key_spec() == key@,
            r.send_spec() == send,
            r.wf(),
    {
        CipherInner { cfg, key, send }
    }

    /// Encrypts `buffer` in place at the explicit counter `n`, returning the
    /// detached tag.
    pub fn encrypt(&self, n: u64, ad: &[u8], buffer: &mut Vec<u8>) -> (tag: Vec<u8>)
        requires
            self.wf(),
            self.send_spec(),
            old(buffer)@.len() <= MAX_AEAD_LEN,
            ad@.len() <= MAX_AEAD_LEN,
        ensures
            final(buffer)@.len() == old(buffer)@.len(),
            tag@.len() == AEAD_TAG_LEN,
            final(buffer)@ + tag@ == spec_aead_sealed(
                self.cfg_spec().aead,
                self.key_spec(),
                self.cfg_spec().spec_prepare_nonce(n),
                ad@,
                old(buffer)@,
            ),
            spec_aead_opened(
                self.cfg_spec().aead,
                self.key_spec(),
                self.cfg_spec().spec_prepare_nonce(n),
                ad@,
                final(buffer)@,
                tag@,
            ) == Some(old(buffer)@),
    {
        let nonce = self.cfg.prepare_nonce(n);
        aead_seal(self.cfg.aead, self.key.as_slice(), nonce.as_slice(), ad, buffer)
    }

    /// Verifies and decrypts `buffer` in place at the explicit counter `n`.
    pub fn decrypt(&self, n: u64, ad: &[u8], buffer: &mut Vec<u8>, tag: &[u8]) -> (r: Result<
        (),
        MacMismatch,
    >)
        requires
            self.wf(),
            !self.send_spec(),
            tag@.len() == AEAD_TAG_LEN,
            old(buffer)@.len() <= MAX_AEAD_LEN,
            ad@.len() <= MAX_AEAD_LEN,
        ensures
            final(buffer)@.len() == old(buffer)@.len(),
            r is Ok <==> (spec_aead_opened(
                self.cfg_spec().aead,
                self.key_spec(),
                self.cfg_spec().spec_prepare_nonce(n),
                ad@,
                old(buffer)@,
                tag@,
            ) is Some),
            r is Ok ==> spec_aead_opened(
                self.cfg_spec().aead,
                self.key_spec(),
                self.cfg_spec().spec_prepare_nonce(n),
                ad@,
                old(buffer)@,
                tag@,
            ) == Some(final(buffer)@),
            r is Err ==> final(buffer)@ == old(buffer)@,
    {
        let nonce = self.cfg.prepare_nonce(n);
        if aead_open(self.cfg.aead, self.key.as_slice(), nonce.as_slice(), ad, buffer, tag) {
            Ok(())
        } else {
            Err(MacMismatch)
        }
    }
}

/// A one-direction transport cipher: an AEAD key with a monotonically
/// increasing nonce counter.  `step` multiplies the counter into the AEAD
/// nonce (1 for standard Noise transport, 2 when odd nonces are reserved for
/// a secondary link channel).
pub struct Cipher {
    inner: CipherInner,
    nonce: u64,
    step: u64,
}

impl Clone for Cipher {
    /// A clone duplicates key and counter.  Two clones must never both
    /// encrypt toward the same peer: reusing a nonce is catastrophic for
    /// AEAD security.
    fn clone(&self) -> (r: Cipher)
        ensures
            r.cfg_spec() == self.cfg_spec(),
            r.key_spec() == self.key_spec(),
            r.send_spec() == self.send_spec(),
            r.nonce_spec() == self.nonce_spec(),
            r.step_spec() == self.step_spec(),
    {
        Cipher { inner: self.inner.clone(), nonce: self.nonce, step: self.step }
    }
}

impl Cipher {
    /// The primitive choice.
    pub closed spec fn cfg_spec(self) -> Config {
        self.inner.cfg_spec()
    }

    /// The AEAD key bytes.
    pub closed spec fn key_spec(self) -> Seq<u8> {
        self.inner.key_spec()
    }

    /// Whether this is the sending direction.
    pub closed spec fn send_spec(self) -> bool {
        self.inner.send_spec()
    }

    /// The current counter.
    pub closed spec fn nonce_spec(self) -> u64 {
        self.nonce
    }

    /// The counter multiplier.
    pub closed spec fn step_spec(self) -> u64 {
        self.step
    }

    /// Well-formedness: a proper key and a step of 1 or 2.
    pub open spec fn wf(self) -> bool {
        &&& self.key_spec().len() == AEAD_KEY_LEN
        &&& (self.step_spec() == 1 || self.step_spec() == 2)
    }

    pub(crate) fn new(cfg: Config, key: Vec<u8>, step: u64, send: bool) -> (r: Cipher)
        requires
            key@.len() == AEAD_KEY_LEN,
            step == 1 || step == 2,
        ensures
            r.cfg_spec() == cfg,
            r.key_spec() == key@,
            r.send_spec() == send,
            r.nonce_spec() == 0,
            r.step_spec() == step,
            r.wf(),
    {
        Cipher { inner: CipherInner::inner_new(cfg, key, send), nonce: 0, step }
    }

    /// The current counter value.
    pub fn nonce(&self) -> (r: u64)
        ensures
            r == self.nonce_spec(),
    {
        self.nonce
    }

    /// Encrypts `buffer` in place at AEAD counter `n * step` and advances the
    /// counter by one.
    pub fn encrypt(&mut self, ad: &[u8], buffer: &mut Vec<u8>) -> (tag: Vec<u8>)
        requires
            old(self).wf(),
            old(self).send_spec(),
            old(self).nonce_spec() < u64::MAX,
            old(self).nonce_spec() * old(self).step_spec() <= u64::MAX,
            old(buffer)@.len() <= MAX_AEAD_LEN,
            ad@.len() <= MAX_AEAD_LEN,
        ensures
            final(self).wf(),
            final(self).cfg_spec() == old(self).cfg_spec(),
            final(self).key_spec() == old(self).key_spec(),
            final(self).send_spec() == old(self).send_spec(),
            final(self).step_spec() == old(self).step_spec(),
            final(self).nonce_spec() == old(self).nonce_spec() + 1,
            final(buffer)@.len() == old(buffer)@.len(),
            tag@.len() == AEAD_TAG_LEN,
            final(buffer)@ + tag@ == spec_aead_sealed(
                old(self).cfg_spec().aead,
                old(self).key_spec(),
                old(self).cfg_spec().spec_prepare_nonce(
                    (old(self).nonce_spec() * old(self).step_spec()) as u64,
                ),
                ad@,
                old(buffer)@,
            ),
            spec_aead_opened(
                old(self).cfg_spec().aead,
                old(self).key_spec(),
                old(self).cfg_spec().spec_prepare_nonce(
                    (old(self).nonce_spec() * old(self).step_spec()) as u64,
                ),
                ad@,
                final(buffer)@,
                tag@,
            ) == Some(old(buffer)@),
    {
        let tag = self.inner.encrypt(self.nonce * self.step, ad, buffer);
        self.nonce = self.nonce + 1;
        tag
    }

    /// Verifies and decrypts `buffer` in place at AEAD counter `n * step`.
    /// On success the counter advances by one; on failure the cipher and the
    /// buffer are unchanged, so the caller may retry.
    pub fn decrypt(&mut self, ad: &[u8], buffer: &mut Vec<u8>, tag: &[u8]) -> (r: Result<
        (),
        MacMismatch,
    >)
        requires
            old(self).wf(),
            !old(self).send_spec(),
            old(self).nonce_spec() < u64::MAX,
            old(self).nonce_spec() * old(self).step_spec() <= u64::MAX,
            tag@.len() == AEAD_TAG_LEN,
            old(buffer)@.len() <= MAX_AEAD_LEN,
            ad@.len() <= MAX_AEAD_LEN,
        ensures
            final(self).wf(),
            final(self).cfg_spec() == old(self).cfg_spec(),
            final(self).key_spec() == old(self).key_spec(),
            final(self).send_spec() == old(self).send_spec(),
            final(self).step_spec() == old(self).step_spec(),
            final(buffer)@.len() == old(buffer)@.len(),
            r is Ok <==> (spec_aead_opened(
                old(self).cfg_spec().aead,
                old(self).key_spec(),
                old(self).cfg_spec().spec_prepare_nonce(
                    (old(self).nonce_spec() * old(self).step_spec()) as u64,
                ),
                ad@,
                old(buffer)@,
                tag@,
            ) is Some),
            r is Ok ==> final(self).nonce_spec() == old(self).nonce_spec() + 1,
            r is Ok ==> spec_aead_opened(
                old(self).cfg_spec().aead,
                old(self).key_spec(),
                old(self).cfg_spec().spec_prepare_nonce(
                    (old(self).nonce_spec() * old(self).step_spec()) as u64,
                ),
                ad@,
                old(buffer)@,
                tag@,
            ) == Some(final(buffer)@),
            r is Err ==> final(self).nonce_spec() == old(self).nonce_spec(),
            r is Err ==> final(buffer)@ == old(buffer)@,
    {
        let r = self.inner.decrypt(self.nonce * self.step, ad, buffer, tag);
        if r.is_ok() {
            self.nonce = self.nonce + 1;
        }
        r
    }

    /// The odd-nonce link channel, present when `step == 2`: encrypts `data`
    /// in place at AEAD counter `nonce * 2 + 1` with empty associated data,
    /// discarding the tag and leaving the cipher's own counter unchanged.
    pub fn link(&mut self, nonce: u64, data: &mut Vec<u8>)
        requires
            old(self).wf(),
            old(self).send_spec(),
            old(self).step_spec() == 2,
            nonce <= (u64::MAX - 1) / 2,
            old(data)@.len() <= MAX_AEAD_LEN,
        ensures
            *final(self) == *old(self),
            final(data)@.len() == old(data)@.len(),
            final(data)@ == spec_aead_sealed(
                old(self).cfg_spec().aead,
                old(self).key_spec(),
                old(self).cfg_spec().spec_prepare_nonce((nonce * 2 + 1) as u64),
                Seq::<u8>::empty(),
                old(data)@,
            ).take(old(data)@.len() as int),
    {
        let empty: Vec<u8> = Vec::new();
        let tag = self.inner.encrypt(nonce * 2 + 1, empty.as_slice(), data);
        proof {
            let sealed = spec_aead_sealed(
                old(self).cfg_spec().aead,
                old(self).key_spec(),
                old(self).cfg_spec().spec_prepare_nonce((nonce * 2 + 1) as u64),
                Seq::<u8>::empty(),
                old(data)@,
            );
            assert(data@ =~= (data@ + tag@).take(old(data)@.len() as int));
        }
    }

    /// Turns a sender into a receiver or back, preserving the key and the
    /// counter.  No cryptographic change.
    pub fn swap(self) -> (r: Cipher)
        requires
            self.wf(),
        ensures
            r.wf(),
            r.cfg_spec() == self.cfg_spec(),
            r.key_spec() == self.key_spec(),
            r.send_spec() == !self.send_spec(),
            r.nonce_spec() == self.nonce_spec(),
            r.step_spec() == self.step_spec(),
    {
        let Cipher { inner, nonce, step } = self;
        let CipherInner { cfg, key, send } = inner;
        Cipher { inner: CipherInner { cfg, key, send: !send }, nonce, step }
    }
}

} // verus!
