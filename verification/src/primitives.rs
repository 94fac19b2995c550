//! Trusted boundary to the cryptographic primitives.
//!
//! The engine treats X25519, HKDF-SHA256 and ChaCha20-Poly1305 as correct,
//! already-available primitives.  Each function below wraps exactly one call
//! into those crates; its contract states what that call's source shows, over
//! uninterpreted names for the values the primitives compute.

use vstd::prelude::*;

use chacha20poly1305::aead::Aead;
use chacha20poly1305::{ChaCha20Poly1305, Key, KeyInit, Nonce};
use hkdf::Hkdf;
use rand::RngCore;
use sha2::Sha256;
use x25519_dalek::{PublicKey, StaticSecret};

verus! {

/// The longest plaintext this engine hands to ChaCha20-Poly1305: the first
/// keystream block keys the authenticator, which leaves 2^32 - 2 blocks of
/// 64 bytes for the payload.  The engine rejects anything longer before the
/// cipher is called.
pub const MESSAGE_LEN_LIMIT: u64 = 274877906816;

/// The X25519 public key matching a 32-byte private scalar.
pub uninterp spec fn public_of(sk: Seq<u8>) -> Seq<u8>;

/// The X25519 shared secret agreed between a 32-byte private scalar and a
/// 32-byte peer public key.
pub uninterp spec fn dh_of(sk: Seq<u8>, peer: Seq<u8>) -> Seq<u8>;

/// The 32-byte symmetric key that HKDF-SHA256 expands from a shared secret,
/// with an empty salt and this engine's fixed context label.
pub uninterp spec fn kdf_of(secret: Seq<u8>) -> Seq<u8>;

/// The sealed message (ciphertext followed by the 16-byte tag) that
/// ChaCha20-Poly1305 produces from a key, a nonce and a plaintext, with an
/// empty associated-data field.
pub uninterp spec fn seal_of(key: Seq<u8>, nonce: Seq<u8>, msg: Seq<u8>) -> Seq<u8>;

/// What ChaCha20-Poly1305 returns when opening a sealed message with a key
/// and a nonce: the plaintext if the tag verifies, nothing otherwise.
pub uninterp spec fn open_of(key: Seq<u8>, nonce: Seq<u8>, sealed: Seq<u8>) -> Option<Seq<u8>>;

/// Relies on rand's `OsRng` and `RngCore::try_fill_bytes`: fills the buffer
/// in place with random bytes drawn from the operating system and reports
/// whether the entropy source succeeded — on failure it returns an error
/// instead of panicking.  Nothing can be promised of the bytes themselves.
#[verifier::external_body]
pub(crate) fn fill_random(buf: &mut Vec<u8>) -> (ok: bool)
    ensures
        final(buf)@.len() == old(buf)@.len(),
{
    let mut rng = rand::rngs::OsRng;
    rng.try_fill_bytes(buf.as_mut_slice()).is_ok()
}

/// Relies on x25519-dalek's `PublicKey::from(&StaticSecret)`: the public key
/// is computed deterministically from the private scalar alone and is always
/// 32 bytes.
#[verifier::external_body]
pub(crate) fn derive_public(sk: &Vec<u8>) -> (r: Vec<u8>)
    requires
        sk@.len() == 32,
    ensures
        r@ == public_of(sk@),
        r@.len() == 32,
{
    let mut sk_bytes = [0u8; 32];
    sk_bytes.copy_from_slice(sk.as_slice());
    let secret = StaticSecret::from(sk_bytes);
    PublicKey::from(&secret).to_bytes().to_vec()
}

/// Relies on x25519-dalek's `StaticSecret::diffie_hellman`: the shared secret
/// is a deterministic 32-byte function of the private scalar and the peer
/// public key, and both parties of an exchange compute the same value — for
/// any scalar `o`, agreeing `sk` with `o`'s public key yields what `o` agrees
/// with `sk`'s public key.
#[verifier::external_body]
pub(crate) fn dh(sk: &Vec<u8>, peer: &Vec<u8>) -> (r: Vec<u8>)
    requires
        sk@.len() == 32,
        peer@.len() == 32,
    ensures
        r@ == dh_of(sk@, peer@),
        r@.len() == 32,
        forall|o: Seq<u8>|
            o.len() == 32 && peer@ == #[trigger] public_of(o) ==> r@ == dh_of(
                o,
                public_of(sk@),
            ),
{
    let mut sk_bytes = [0u8; 32];
    sk_bytes.copy_from_slice(sk.as_slice());
    let mut peer_bytes = [0u8; 32];
    peer_bytes.copy_from_slice(peer.as_slice());
    let secret = StaticSecret::from(sk_bytes);
    let shared = secret.diffie_hellman(&PublicKey::from(peer_bytes));
    shared.as_bytes().to_vec()
}

/// Relies on hkdf's `Hkdf::<Sha256>::new` and `Hkdf::expand`: extract with an
/// empty salt, then expand with the fixed label to 32 bytes.  The result is a
/// deterministic function of the input keying material, and `expand` fails
/// only when asked for more than 255 hash blocks, which 32 bytes never is.
#[verifier::external_body]
pub(crate) fn derive_key(secret: &Vec<u8>) -> (r: Option<Vec<u8>>)
    ensures
        r is Some,
        r matches Some(k) ==> k@ == kdf_of(secret@) && k@.len() == 32,
{
    let hk = Hkdf::<Sha256>::new(None, secret.as_slice());
    let mut okm = [0u8; 32];
    match hk.expand(b"encryption", &mut okm) {
        Ok(()) => Some(okm.to_vec()),
        Err(_) => None,
    }
}

/// Relies on chacha20poly1305's `Aead::encrypt` with an empty associated-data
/// field: the result is the ciphertext with the 16-byte tag appended, a
/// deterministic function of key, nonce and plaintext, and it opens back to
/// the plaintext under the same key and nonce.  The length bound keeps the
/// call inside the cipher's keystream (it would panic on exhaustion), where
/// it always succeeds.
#[verifier::external_body]
pub(crate) fn aead_seal(key: &Vec<u8>, nonce: &Vec<u8>, msg: &Vec<u8>) -> (r: Option<Vec<u8>>)
    requires
        key@.len() == 32,
        nonce@.len() == 12,
        msg@.len() <= MESSAGE_LEN_LIMIT,
    ensures
        r is Some && r->Some_0@ == seal_of(key@, nonce@, msg@) && r->Some_0@.len() == msg@.len()
            + 16 && open_of(key@, nonce@, r->Some_0@) == Some(msg@),
{
    let cipher = ChaCha20Poly1305::new(Key::from_slice(key.as_slice()));
    cipher.encrypt(Nonce::from_slice(nonce.as_slice()), msg.as_slice()).ok()
}

/// Relies on chacha20poly1305's `Aead::decrypt` with an empty associated-data
/// field: opening is a deterministic function of key, nonce and sealed bytes;
/// it returns the plaintext exactly when the tag verifies, and in particular
/// it recovers the plaintext of any sealed message of matching length that
/// this cipher produced under the same key and nonce.  The length bound
/// keeps a verifying input inside the cipher's keystream (it would panic on
/// exhaustion).
#[verifier::external_body]
pub(crate) fn aead_open(key: &Vec<u8>, nonce: &Vec<u8>, sealed: &Vec<u8>) -> (r: Option<Vec<u8>>)
    requires
        key@.len() == 32,
        nonce@.len() == 12,
        sealed@.len() <= MESSAGE_LEN_LIMIT + 16,
    ensures
        open_of(key@, nonce@, sealed@) matches Some(p) ==> r is Some && r->Some_0@ == p,
        open_of(key@, nonce@, sealed@) is None ==> r is None,
        forall|m: Seq<u8>|
            m.len() + 16 == sealed@.len() && m.len() <= MESSAGE_LEN_LIMIT && sealed@
                == #[trigger] seal_of(key@, nonce@, m) ==> r is Some && r->Some_0@ == m,
{
    let cipher = ChaCha20Poly1305::new(Key::from_slice(key.as_slice()));
    cipher.decrypt(Nonce::from_slice(nonce.as_slice()), sealed.as_slice()).ok()
}

} // verus!
