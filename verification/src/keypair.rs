//! Key-pair generation and the recipient's long-term identity.

use vstd::prelude::*;

use crate::error::Error;
use crate::primitives::derive_public;
use crate::primitives::fill_random;
use crate::primitives::public_of;

verus! {

/// A private/public X25519 key pair.
///
/// The private half is a 32-byte scalar that never appears in the wire
/// format; the public half is the matching 32-byte curve point, derived
/// deterministically from the scalar.  The same type serves the recipient's
/// long-term identity and the sender's ephemeral pair: the two differ by
/// role, not by type.  The pair holds its scalar for its own lifetime, and
/// only the explicit export below copies it out; the engine's transient
/// secrets are overwritten before release.
pub struct KeyPair {
    private_key: Vec<u8>,
    public_key: Vec<u8>,
}

impl KeyPair {
    /// The private scalar, as a byte sequence.
    pub closed spec fn sk(&self) -> Seq<u8> {
        self.private_key@
    }

    /// The public key, as a byte sequence.
    pub closed spec fn pk(&self) -> Seq<u8> {
        self.public_key@
    }

    /// Well-formedness: both halves have the curve's 32-byte encoding
    /// length, and the public half matches the private scalar.
    pub open spec fn wf(&self) -> bool {
        &&& self.sk().len() == 32
        &&& self.pk().len() == 32
        &&& self.pk() == public_of(self.sk())
    }

    /// Draws a fresh 32-byte private scalar from the entropy source and
    /// derives the matching public key.  Fails only when the entropy source
    /// does.
    pub fn generate() -> (r: Result<KeyPair, Error>)
        ensures
            r matches Ok(kp) ==> kp.wf(),
            r matches Err(e) ==> e == Error::GenerateKeyFailed,
    {
        let mut private_key = crate::codec::zeroed(32);
        if !fill_random(&mut private_key) {
            return Err(Error::GenerateKeyFailed);
        }
        let public_key = derive_public(&private_key);
        Ok(KeyPair { private_key, public_key })
    }

    /// Rebuilds a key pair from a previously exported 32-byte private
    /// scalar, deriving the matching public key.  Any other length is a key
    /// construction failure.
    pub fn from_private_key(private_key: Vec<u8>) -> (r: Result<KeyPair, Error>)
        ensures
            private_key@.len() == 32 ==> r is Ok && r->Ok_0.wf() && r->Ok_0.sk() == private_key@,
            private_key@.len() != 32 ==> (r matches Err(e) && e == Error::GenerateKeyFailed),
    {
        if private_key.len() != 32 {
            return Err(Error::GenerateKeyFailed);
        }
        let public_key = derive_public(&private_key);
        Ok(KeyPair { private_key, public_key })
    }

    /// The private scalar, for the engine's own key agreement.
    pub(crate) fn private_key_ref(&self) -> (r: &Vec<u8>)
        ensures
            r@ == self.sk(),
    {
        &self.private_key
    }

    /// The raw public key bytes, for the display layer to encode.
    pub fn public_key_bytes(&self) -> (r: Vec<u8>)
        ensures
            r@ == self.pk(),
    {
        crate::codec::copy_all(&self.public_key)
    }

    /// Explicit export of the raw private key bytes, for the display layer
    /// to encode.  This is the only way the private half leaves the pair.
    pub fn private_key_bytes(&self) -> (r: Vec<u8>)
        ensures
            r@ == self.sk(),
    {
        crate::codec::copy_all(&self.private_key)
    }
}

} // verus!
