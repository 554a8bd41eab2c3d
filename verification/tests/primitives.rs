//! Direct tests of the primitive-dispatch layer: hashing over
//! concatenations, the three HKDF splits, and detached-tag sealing and
//! opening, each checked against the primitive crates called directly.

use noise_core::{
    AeadAlg, HashAlg, aead_open, aead_seal, hash_mix, hash_mix_parts, hkdf_expand, split_2,
    split_3, split_final,
};

use sha2::Digest;

#[test]
fn hash_mix_functions_hash_the_concatenation() {
    let h = vec![0x31u8; 32];
    let a = b"part one";
    let b = b"part two";
    let mut joined = h.clone();
    joined.extend_from_slice(a);
    assert_eq!(
        hash_mix(HashAlg::Sha256, &h, a),
        sha2::Sha256::digest(&joined).to_vec()
    );
    joined.extend_from_slice(b);
    assert_eq!(
        hash_mix_parts(HashAlg::Sha256, &h, a, b),
        sha2::Sha256::digest(&joined).to_vec()
    );
    // One pass over the concatenation, not a nested rehash.
    let nested = sha2::Sha256::digest(
        &[
            sha2::Sha256::digest(&{
                let mut j = h.clone();
                j.extend_from_slice(a);
                j
            })
            .to_vec(),
            b.to_vec(),
        ]
        .concat(),
    )
    .to_vec();
    assert_ne!(hash_mix_parts(HashAlg::Sha256, &h, a, b), nested);
}

#[test]
fn splits_cut_and_truncate_the_hkdf_output() {
    let ck = vec![0x41u8; 64];
    let ikm = b"input key material";
    let hk = hkdf::Hkdf::<sha2::Sha512>::new(Some(&ck), ikm);
    let mut okm = vec![0u8; 192];
    hk.expand(&[], &mut okm).unwrap();

    assert_eq!(hkdf_expand(HashAlg::Sha512, &ck, ikm, 192), okm);

    let (ck2, key) = split_2(HashAlg::Sha512, &ck, ikm);
    assert_eq!(ck2, okm[..64].to_vec());
    assert_eq!(key, okm[64..96].to_vec());

    let (ck3, middle, key3) = split_3(HashAlg::Sha512, &ck, ikm);
    assert_eq!(ck3, okm[..64].to_vec());
    assert_eq!(middle, okm[64..128].to_vec());
    assert_eq!(key3, okm[128..160].to_vec());

    let hk = hkdf::Hkdf::<sha2::Sha512>::new(Some(&ck), &[]);
    let mut fin = vec![0u8; 128];
    hk.expand(&[], &mut fin).unwrap();
    let (k1, k2) = split_final(HashAlg::Sha512, &ck);
    assert_eq!(k1, fin[..32].to_vec());
    assert_eq!(k2, fin[64..96].to_vec());
}

#[test]
fn seal_and_open_are_inverse_and_tamper_evident() {
    let key = vec![0x51u8; 32];
    let nonce = vec![0x03u8; 12];
    let ad = b"associated data";
    let payload = b"a message to protect".to_vec();
    for alg in [AeadAlg::ChaCha20Poly1305, AeadAlg::Aes256Gcm] {
        let mut buffer = payload.clone();
        let tag = aead_seal(alg, &key, &nonce, ad, &mut buffer);
        assert_eq!(tag.len(), 16);
        assert_eq!(buffer.len(), payload.len());
        assert_ne!(buffer, payload);
        let mut opened = buffer.clone();
        assert!(aead_open(alg, &key, &nonce, ad, &mut opened, &tag));
        assert_eq!(opened, payload);
        // A wrong nonce fails and leaves the buffer alone.
        let wrong_nonce = vec![0x04u8; 12];
        let mut touched = buffer.clone();
        assert!(!aead_open(alg, &key, &wrong_nonce, ad, &mut touched, &tag));
        assert_eq!(touched, buffer);
        // The two ciphers disagree with each other.
        let other = match alg {
            AeadAlg::ChaCha20Poly1305 => AeadAlg::Aes256Gcm,
            AeadAlg::Aes256Gcm => AeadAlg::ChaCha20Poly1305,
        };
        let mut crossed = buffer.clone();
        assert!(!aead_open(other, &key, &nonce, ad, &mut crossed, &tag));
    }
}
