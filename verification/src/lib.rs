//! Hybrid public-key encryption for a single sender/recipient pair.
//!
//! The engine combines an ephemeral X25519 key agreement, HKDF-SHA256 key
//! derivation, and the ChaCha20-Poly1305 authenticated cipher into one atomic
//! encrypt/decrypt operation over a fixed binary wire format:
//! `ephemeral public key (32) || nonce (12) || ciphertext || tag (16)`.

pub mod codec;
pub mod engine;
pub mod error;
pub mod keypair;
pub mod primitives;

pub use codec::FrameParts;
pub use codec::decode_frame;
pub use codec::encode_frame;
pub use engine::decrypt;
pub use engine::encrypt;
pub use engine::encrypt_with;
pub use error::Error;
pub use keypair::KeyPair;
