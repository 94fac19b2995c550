[package]
name = "ecies"
version = "0.1.0"
edition = "2021"
publish = false

[dependencies]
x25519-dalek = { version = "2", features = ["static_secrets"] }
chacha20poly1305 = "0.10"
hkdf = "0.12"
sha2 = "0.10"
rand = "0.8"
base64 = "0.22"
clap = { version = "4", features = ["derive"] }
rsa = "0.9"
thiserror = "1"
