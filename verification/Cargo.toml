[package]
name = "hpke"
version = "0.1.0"
edition = "2021"
publish = false

[dependencies]
aes-gcm = "*"
chacha20poly1305 = "*"
hkdf = "*"
sha2 = "*"
rand = "0.8"
subtle = "*"
x25519-dalek = { version = "*", features = ["static_secrets"] }
