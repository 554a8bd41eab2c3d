[package]
name = "noise_core"
version = "0.1.0"
edition = "2021"
publish = false

[dependencies]
aead = "0.5"
chacha20poly1305 = "0.10"
aes-gcm = "0.10"
sha2 = "0.10"
blake2 = "0.10"
hkdf = "0.12"
zeroize = "1"
hex = "0.4"
serde = { version = "1", features = ["derive"] }
