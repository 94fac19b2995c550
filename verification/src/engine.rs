//! Top-level encrypt/decrypt orchestration.
//!
//! Encryption: generate an ephemeral key pair, agree it with the recipient's
//! public key, derive a symmetric key, seal the plaintext under a fresh
//! nonce, and encode the frame.  Decryption reverses this.  Every internal
//! failure surfaces as exactly one of the four error kinds, with nothing of
//! the failing step leaked.

use vstd::prelude::*;

use crate::codec::decode_frame;
use crate::codec::encode_frame;
use crate::codec::lemma_frame_round_trip;
use crate::codec::wipe;
use crate::codec::zeroed;
use crate::error::Error;
use crate::keypair::KeyPair;
use crate::primitives::aead_open;
use crate::primitives::aead_seal;
use crate::primitives::derive_key;
use crate::primitives::derive_public;
use crate::primitives::dh;
use crate::primitives::dh_of;
use crate::primitives::fill_random;
use crate::primitives::kdf_of;
use crate::primitives::MESSAGE_LEN_LIMIT;
use crate::primitives::open_of;
use crate::primitives::public_of;
use crate::primitives::seal_of;

verus! {

/// Every byte of the sequence is zero.  A shared secret of this shape is
/// degenerate (a low-order or invalid peer point) and is rejected.
pub open spec fn all_zero(s: Seq<u8>) -> bool {
    forall|i: int| 0 <= i < s.len() ==> s[i] == 0u8
}

/// The frame that encrypting `msg` for `pk` produces when the ephemeral
/// private key is `esk` and the nonce is `nonce`: the ephemeral public key,
/// the nonce, and the sealed message, concatenated in that fixed order.
pub open spec fn frame_for(esk: Seq<u8>, nonce: Seq<u8>, pk: Seq<u8>, msg: Seq<u8>) -> Seq<u8> {
    public_of(esk) + nonce + seal_of(kdf_of(dh_of(esk, pk)), nonce, msg)
}

/// A successful encryption of `msg` for `pk` yielded `frame`, under some
/// well-formed ephemeral key `esk` and nonce whose agreement with `pk` was
/// not degenerate.
pub open spec fn encrypted_frame(
    esk: Seq<u8>,
    nonce: Seq<u8>,
    pk: Seq<u8>,
    msg: Seq<u8>,
    frame: Seq<u8>,
) -> bool {
    &&& esk.len() == 32
    &&& nonce.len() == 12
    &&& public_of(esk).len() == 32
    &&& !all_zero(dh_of(esk, pk))
    &&& frame == frame_for(esk, nonce, pk, msg)
}

/// The frame is one that decrypting with the key pair of public key `pk`
/// must open back to `m`: it has the shape of an encryption of `m` for `pk`
/// under the ephemeral key `esk`, with the lengths a produced frame has.
pub open spec fn decryptable(esk: Seq<u8>, m: Seq<u8>, pk: Seq<u8>, frame: Seq<u8>) -> bool {
    &&& esk.len() == 32
    &&& public_of(esk).len() == 32
    &&& m.len() <= MESSAGE_LEN_LIMIT
    &&& frame.len() == m.len() + 60
    &&& !all_zero(dh_of(esk, pk))
    &&& frame == frame_for(esk, frame.subrange(32, 44), pk, m)
}

/// Round trip: a frame that encryption produced is decryptable by the
/// recipient, with the original plaintext as its only outcome.  Together
/// with the contracts of `encrypt` and `decrypt` this states that
/// `decrypt(keypair, encrypt(keypair.public_key, m))` returns `m` for every
/// key pair and every message.
pub proof fn lemma_round_trip(esk: Seq<u8>, nonce: Seq<u8>, pk: Seq<u8>, m: Seq<u8>, frame: Seq<u8>)
    requires
        encrypted_frame(esk, nonce, pk, m, frame),
        frame.len() == m.len() + 60,
        m.len() <= MESSAGE_LEN_LIMIT,
    ensures
        decryptable(esk, m, pk, frame),
{
    let sealed = seal_of(kdf_of(dh_of(esk, pk)), nonce, m);
    lemma_frame_round_trip(public_of(esk), nonce, sealed);
    assert(frame.subrange(32, 44) == nonce);
}

/// Checks whether every byte of `v` is zero.
fn is_all_zero(v: &Vec<u8>) -> (r: bool)
    ensures
        r == all_zero(v@),
{
    let mut i: usize = 0;
    while i < v.len()
        invariant
            i <= v@.len(),
            forall|j: int| 0 <= j < i ==> v@[j] == 0u8,
        decreases v@.len() - i,
    {
        if v[i] != 0 {
            return false;
        }
        i = i + 1;
    }
    true
}

/// The deterministic core of encryption: given the ephemeral private key and
/// the nonce already drawn from the entropy source, agrees with the
/// recipient's public key, derives the symmetric key, seals the message and
/// encodes the frame.  Fails exactly when the public key does not have the
/// curve's 32-byte encoding length, when the agreement is degenerate, or
/// when the message exceeds the cipher's length limit; every failure is the
/// caller's generic `EncryptFailed`, and the transient secrets are
/// overwritten before return.
pub fn encrypt_with(
    ephemeral_private_key: &Vec<u8>,
    nonce: &Vec<u8>,
    public_key: &Vec<u8>,
    message: &Vec<u8>,
) -> (r: Result<Vec<u8>, Error>)
    requires
        ephemeral_private_key@.len() == 32,
        nonce@.len() == 12,
        message@.len() + 60 <= usize::MAX,
    ensures
        r matches Err(e) ==> e == Error::EncryptFailed,
        public_key@.len() != 32 ==> r is Err,
        public_key@.len() == 32 && all_zero(dh_of(ephemeral_private_key@, public_key@))
            ==> r is Err,
        public_key@.len() == 32 && !all_zero(dh_of(ephemeral_private_key@, public_key@))
            && message@.len() > MESSAGE_LEN_LIMIT ==> r is Err,
        public_key@.len() == 32 && !all_zero(dh_of(ephemeral_private_key@, public_key@))
            && message@.len() <= MESSAGE_LEN_LIMIT ==> r is Ok && r->Ok_0@ == frame_for(
            ephemeral_private_key@,
            nonce@,
            public_key@,
            message@,
        ) && r->Ok_0@.len() == message@.len() + 60 && public_of(ephemeral_private_key@).len()
            == 32,
{
    if public_key.len() != 32 {
        return Err(Error::EncryptFailed);
    }
    let mut shared = dh(ephemeral_private_key, public_key);
    if is_all_zero(&shared) {
        return Err(Error::EncryptFailed);
    }
    let mut key = match derive_key(&shared) {
        Some(k) => k,
        None => {
            wipe(&mut shared);
            return Err(Error::EncryptFailed);
        },
    };
    if message.len() as u64 > MESSAGE_LEN_LIMIT {
        wipe(&mut shared);
        wipe(&mut key);
        return Err(Error::EncryptFailed);
    }
    let sealed = match aead_seal(&key, nonce, message) {
        Some(s) => s,
        None => {
            wipe(&mut shared);
            wipe(&mut key);
            return Err(Error::EncryptFailed);
        },
    };
    wipe(&mut shared);
    wipe(&mut key);
    let ephemeral_public_key = derive_public(ephemeral_private_key);
    let frame = encode_frame(&ephemeral_public_key, nonce, &sealed);
    Ok(frame)
}

/// Encrypts `message` for the holder of `public_key`: draws a fresh
/// ephemeral key pair and nonce from the entropy source, then runs the
/// deterministic core.  Any step failure surfaces as `EncryptFailed`.
pub fn encrypt(public_key: &Vec<u8>, message: &Vec<u8>) -> (r: Result<Vec<u8>, Error>)
    ensures
        r matches Err(e) ==> e == Error::EncryptFailed,
        public_key@.len() != 32 ==> r is Err,
        message@.len() > MESSAGE_LEN_LIMIT ==> r is Err,
        r matches Ok(f) ==> public_key@.len() == 32 && message@.len() <= MESSAGE_LEN_LIMIT && f@.len()
            == message@.len() + 60 && (exists|esk: Seq<u8>, nonce: Seq<u8>|
            encrypted_frame(esk, nonce, public_key@, message@, f@)),
{
    if message.len() > usize::MAX - 60 {
        return Err(Error::EncryptFailed);
    }
    let mut ephemeral_private_key = zeroed(32);
    if !fill_random(&mut ephemeral_private_key) {
        return Err(Error::EncryptFailed);
    }
    let mut nonce = zeroed(12);
    if !fill_random(&mut nonce) {
        return Err(Error::EncryptFailed);
    }
    let r = encrypt_with(&ephemeral_private_key, &nonce, public_key, message);
    proof {
        if r is Ok {
            assert(encrypted_frame(
                ephemeral_private_key@,
                nonce@,
                public_key@,
                message@,
                r->Ok_0@,
            ));
        }
    }
    wipe(&mut ephemeral_private_key);
    r
}

/// Decrypts a frame with the recipient's key pair: validates and splits the
/// frame, agrees the recipient's private key with the embedded ephemeral
/// public key, derives the symmetric key, and opens the sealed message.  A
/// frame too short for the header fields is `InvalidMessageLength`; every
/// other failure — a degenerate agreement, a sealed region beyond the
/// cipher's length limit, a tag that does not verify — is the generic
/// `DecryptFailed`.  A frame that encryption produced for this key pair
/// opens back to its plaintext, and the transient secrets are overwritten
/// before return.
pub fn decrypt(keypair: &KeyPair, frame: &Vec<u8>) -> (r: Result<Vec<u8>, Error>)
    requires
        keypair.wf(),
    ensures
        frame@.len() <= 44 ==> (r matches Err(e) && e == Error::InvalidMessageLength),
        frame@.len() > 44 && all_zero(dh_of(keypair.sk(), frame@.subrange(0, 32))) ==> (r matches
        Err(e) && e == Error::DecryptFailed),
        frame@.len() > 60 + MESSAGE_LEN_LIMIT ==> (r matches Err(e) && e == Error::DecryptFailed),
        frame@.len() > 44 && frame@.len() <= 60 + MESSAGE_LEN_LIMIT && !all_zero(
            dh_of(keypair.sk(), frame@.subrange(0, 32)),
        ) ==> (match open_of(
            kdf_of(dh_of(keypair.sk(), frame@.subrange(0, 32))),
            frame@.subrange(32, 44),
            frame@.subrange(44, frame@.len() as int),
        ) {
            Some(m) => r is Ok && r->Ok_0@ == m,
            None => r matches Err(e) && e == Error::DecryptFailed,
        }),
        forall|esk: Seq<u8>, m: Seq<u8>|
            #[trigger] decryptable(esk, m, keypair.pk(), frame@) ==> r is Ok && r->Ok_0@ == m,
{
    let parts = match decode_frame(frame) {
        Ok(p) => p,
        Err(e) => {
            return Err(e);
        },
    };
    let mut shared = dh(keypair.private_key_ref(), &parts.ephemeral_public_key);
    proof {
        assert forall|esk: Seq<u8>, m: Seq<u8>|
            #[trigger] decryptable(esk, m, keypair.pk(), frame@) implies shared@ == dh_of(
            esk,
            keypair.pk(),
        ) && parts.sealed@ == seal_of(kdf_of(dh_of(esk, keypair.pk())), parts.nonce@, m) by {
            let sealed_spec = seal_of(kdf_of(dh_of(esk, keypair.pk())), frame@.subrange(32, 44), m);
            lemma_frame_round_trip(public_of(esk), frame@.subrange(32, 44), sealed_spec);
            assert(parts.ephemeral_public_key@ == public_of(esk));
            assert(shared@ == dh_of(esk, public_of(keypair.sk())));
        }
    }
    if is_all_zero(&shared) {
        return Err(Error::DecryptFailed);
    }
    if parts.sealed.len() as u64 > MESSAGE_LEN_LIMIT + 16 {
        wipe(&mut shared);
        return Err(Error::DecryptFailed);
    }
    let mut key = match derive_key(&shared) {
        Some(k) => k,
        None => {
            wipe(&mut shared);
            return Err(Error::DecryptFailed);
        },
    };
    let opened = aead_open(&key, &parts.nonce, &parts.sealed);
    wipe(&mut shared);
    wipe(&mut key);
    match opened {
        Some(plaintext) => Ok(plaintext),
        None => Err(Error::DecryptFailed),
    }
}

} // verus!
