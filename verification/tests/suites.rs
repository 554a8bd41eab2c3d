//! Full handshake walks for every supported primitive suite: the initiator
//! encrypts its way through the script, the responder walks the same script
//! decrypting, and the two sides must agree on every payload, the handshake
//! hash, and the transport channel afterwards.  The shared-secret inputs are
//! fixed bytes: Diffie-Hellman is outside the engine, which consumes its
//! outputs opaquely.

#![allow(non_snake_case)]

use noise_core::{AeadAlg, Config, HashAlg, Output, SymmetricState};

/// Splits a `ciphertext || tag` wire message.
fn split_tag(wire: &[u8]) -> (Vec<u8>, Vec<u8>) {
    let cut = wire.len() - 16;
    (wire[..cut].to_vec(), wire[cut..].to_vec())
}

fn run_suite(cfg: Config, name: &[u8], dh_len: usize) {
    let prologue = b"prologue".to_vec();
    let e_pub = vec![0x01u8; dh_len];
    let re_pub = vec![0x02u8; dh_len];
    let s_pub = vec![0x03u8; dh_len];
    let dh_ee = vec![0x04u8; dh_len];
    let dh_se = vec![0x05u8; dh_len];
    let psk = vec![0x06u8; 32];
    let payload0 = b"first handshake payload".to_vec();
    let payload1 = b"second handshake payload".to_vec();
    let payload2 = b"third handshake payload".to_vec();

    // Initiator: encrypts the handshake payloads.
    let mut wire0 = payload0.clone();
    let mut wire1 = payload1.clone();
    let mut wire_s = s_pub.clone();
    let mut wire2 = payload2.clone();
    let Output { sender, receiver, hash } = SymmetricState::new(cfg, name)
        .mix_hash(&prologue)
        .mix_hash(&e_pub)
        .mix_shared_secret(&mut e_pub.clone())
        .encrypt_ext(&mut wire0)
        .mix_hash(&re_pub)
        .mix_shared_secret(&mut re_pub.clone())
        .mix_shared_secret(&mut dh_ee.clone())
        .encrypt_ext(&mut wire1)
        .encrypt_ext(&mut wire_s)
        .mix_shared_secret(&mut dh_se.clone())
        .mix_psk(&mut psk.clone())
        .encrypt_ext(&mut wire2)
        .finish(1, true);

    // Responder: walks the same script, decrypting what came over the wire.
    let r = SymmetricState::new(cfg, name)
        .mix_hash(&prologue)
        .mix_hash(&e_pub)
        .mix_shared_secret(&mut e_pub.clone());
    let (mut ct, tag) = split_tag(&wire0);
    let r = r.decrypt(&mut ct, &tag).expect("payload 0 must verify");
    assert_eq!(ct, payload0);
    let r = r
        .mix_hash(&re_pub)
        .mix_shared_secret(&mut re_pub.clone())
        .mix_shared_secret(&mut dh_ee.clone());
    let (mut ct, tag) = split_tag(&wire1);
    let r = r.decrypt(&mut ct, &tag).expect("payload 1 must verify");
    assert_eq!(ct, payload1);
    let (mut ct, tag) = split_tag(&wire_s);
    let r = r.decrypt(&mut ct, &tag).expect("static key must verify");
    assert_eq!(ct, s_pub);
    let r = r.mix_shared_secret(&mut dh_se.clone()).mix_psk(&mut psk.clone());
    let (mut ct, tag) = split_tag(&wire2);
    let r = r.decrypt(&mut ct, &tag).expect("payload 2 must verify");
    assert_eq!(ct, payload2);
    let resp = r.finish(1, false);

    // Both sides bind the same transcript.
    assert_eq!(hash, resp.hash);

    // Transport messages, direction alternating as in a half-duplex session.
    let mut i_send = sender;
    let mut i_recv = receiver;
    let mut r_send = resp.sender;
    let mut r_recv = resp.receiver;
    for round in 0u8..4 {
        let payload = vec![round ^ 0x5a; 24];
        let mut buffer = payload.clone();
        let tag = i_send.encrypt(b"", &mut buffer);
        r_recv.decrypt(b"", &mut buffer, &tag).expect("transport must verify");
        assert_eq!(buffer, payload);
        let next_i_send = i_recv.swap();
        i_recv = i_send.swap();
        i_send = next_i_send;
        let next_r_send = r_recv.swap();
        r_recv = r_send.swap();
        r_send = next_r_send;
    }
}

#[test]
fn Noise_XK_25519_ChaChaPoly_SHA512() {
    let cfg = Config::new(HashAlg::Sha512, AeadAlg::ChaCha20Poly1305);
    run_suite(cfg, b"Noise_XK_25519_ChaChaPoly_SHA512", 32);
}

#[test]
fn Noise_XK_25519_AESGCM_SHA512() {
    let cfg = Config::new(HashAlg::Sha512, AeadAlg::Aes256Gcm);
    run_suite(cfg, b"Noise_XK_25519_AESGCM_SHA512", 32);
}

#[test]
fn Noise_XK_25519_ChaChaPoly_SHA256() {
    let cfg = Config::new(HashAlg::Sha256, AeadAlg::ChaCha20Poly1305);
    run_suite(cfg, b"Noise_XK_25519_ChaChaPoly_SHA256", 32);
}

#[test]
fn Noise_XK_25519_AESGCM_SHA256() {
    let cfg = Config::new(HashAlg::Sha256, AeadAlg::Aes256Gcm);
    run_suite(cfg, b"Noise_XK_25519_AESGCM_SHA256", 32);
}

#[test]
fn Noise_XK_25519_ChaChaPoly_BLAKE2b() {
    let cfg = Config::new(HashAlg::Blake2b512, AeadAlg::ChaCha20Poly1305);
    run_suite(cfg, b"Noise_XK_25519_ChaChaPoly_BLAKE2b", 32);
}

#[test]
fn Noise_XK_25519_AESGCM_BLAKE2b() {
    let cfg = Config::new(HashAlg::Blake2b512, AeadAlg::Aes256Gcm);
    run_suite(cfg, b"Noise_XK_25519_AESGCM_BLAKE2b", 32);
}

#[test]
fn Noise_XK_25519_ChaChaPoly_BLAKE2s() {
    let cfg = Config::new(HashAlg::Blake2s256, AeadAlg::ChaCha20Poly1305);
    run_suite(cfg, b"Noise_XK_25519_ChaChaPoly_BLAKE2s", 32);
}

#[test]
fn Noise_XK_25519_AESGCM_BLAKE2s() {
    let cfg = Config::new(HashAlg::Blake2s256, AeadAlg::Aes256Gcm);
    run_suite(cfg, b"Noise_XK_25519_AESGCM_BLAKE2s", 32);
}

#[test]
fn Noise_XK_448_ChaChaPoly_SHA512() {
    let cfg = Config::new(HashAlg::Sha512, AeadAlg::ChaCha20Poly1305);
    run_suite(cfg, b"Noise_XK_448_ChaChaPoly_SHA512", 56);
}

#[test]
fn Noise_XK_448_AESGCM_SHA512() {
    let cfg = Config::new(HashAlg::Sha512, AeadAlg::Aes256Gcm);
    run_suite(cfg, b"Noise_XK_448_AESGCM_SHA512", 56);
}

#[test]
fn Noise_XK_448_ChaChaPoly_SHA256() {
    let cfg = Config::new(HashAlg::Sha256, AeadAlg::ChaCha20Poly1305);
    run_suite(cfg, b"Noise_XK_448_ChaChaPoly_SHA256", 56);
}

#[test]
fn Noise_XK_448_AESGCM_SHA256() {
    let cfg = Config::new(HashAlg::Sha256, AeadAlg::Aes256Gcm);
    run_suite(cfg, b"Noise_XK_448_AESGCM_SHA256", 56);
}

#[test]
fn Noise_XK_448_ChaChaPoly_BLAKE2b() {
    let cfg = Config::new(HashAlg::Blake2b512, AeadAlg::ChaCha20Poly1305);
    run_suite(cfg, b"Noise_XK_448_ChaChaPoly_BLAKE2b", 56);
}

#[test]
fn Noise_XK_448_AESGCM_BLAKE2b() {
    let cfg = Config::new(HashAlg::Blake2b512, AeadAlg::Aes256Gcm);
    run_suite(cfg, b"Noise_XK_448_AESGCM_BLAKE2b", 56);
}

#[test]
fn Noise_XK_448_ChaChaPoly_BLAKE2s() {
    let cfg = Config::new(HashAlg::Blake2s256, AeadAlg::ChaCha20Poly1305);
    run_suite(cfg, b"Noise_XK_448_ChaChaPoly_BLAKE2s", 56);
}

#[test]
fn Noise_XK_448_AESGCM_BLAKE2s() {
    let cfg = Config::new(HashAlg::Blake2s256, AeadAlg::Aes256Gcm);
    run_suite(cfg, b"Noise_XK_448_AESGCM_BLAKE2s", 56);
}
