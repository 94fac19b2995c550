//! Frame codec: the fixed binary wire format.
//!
//! A frame is `ephemeral public key (32) || nonce (12) || sealed message`,
//! where the sealed message is the ciphertext followed by its 16-byte tag.
//! Encoding concatenates the three fields in that order; decoding validates
//! the total length and splits at byte offsets 32 and 44.

use vstd::prelude::*;

use crate::error::Error;

verus! {

/// Length in bytes of an ephemeral public key on the wire.
pub const EPK_LEN: usize = 32;

/// Length in bytes of a nonce on the wire.
pub const NONCE_LEN: usize = 12;

/// Length in bytes of the authentication tag at the end of a sealed message.
pub const TAG_LEN: usize = 16;

/// Length in bytes of the fixed-size header fields of a frame.
pub const HEADER_LEN: usize = 32 + 12;

/// The three fields of a decoded frame.
pub struct FrameParts {
    /// The sender's ephemeral public key, 32 bytes.
    pub ephemeral_public_key: Vec<u8>,
    /// The per-message nonce, 12 bytes.
    pub nonce: Vec<u8>,
    /// The ciphertext followed by its 16-byte tag.
    pub sealed: Vec<u8>,
}

/// A vector of `len` zero bytes.
pub(crate) fn zeroed(len: usize) -> (r: Vec<u8>)
    ensures
        r@.len() == len,
        forall|i: int| 0 <= i < len ==> r@[i] == 0u8,
{
    let mut out: Vec<u8> = Vec::new();
    let mut i: usize = 0;
    while i < len
        invariant
            i <= len,
            out@.len() == i,
            forall|j: int| 0 <= j < i ==> out@[j] == 0u8,
        decreases len - i,
    {
        out.push(0u8);
        i = i + 1;
    }
    out
}

/// Overwrites every byte of `buf` with zero, in place.  The engine passes
/// its secret-bearing temporaries (shared secrets, derived keys, ephemeral
/// scalars) through this before it releases them.
pub(crate) fn wipe(buf: &mut Vec<u8>)
    ensures
        final(buf)@.len() == old(buf)@.len(),
        forall|i: int| 0 <= i < final(buf)@.len() ==> final(buf)@[i] == 0u8,
{
    let mut i: usize = 0;
    while i < buf.len()
        invariant
            i <= buf@.len(),
            buf@.len() == old(buf)@.len(),
            forall|j: int| 0 <= j < i ==> buf@[j] == 0u8,
        decreases buf@.len() - i,
    {
        buf[i] = 0u8;
        i = i + 1;
    }
}

/// A fresh vector holding the same bytes as `src`.
pub(crate) fn copy_all(src: &Vec<u8>) -> (r: Vec<u8>)
    ensures
        r@ == src@,
{
    let r = copy_range(src, 0, src.len());
    proof {
        assert(src@.subrange(0, src@.len() as int) =~= src@);
    }
    r
}

/// Appends every byte of `src` to `dst`, in order.
fn push_all(dst: &mut Vec<u8>, src: &Vec<u8>)
    ensures
        final(dst)@ == old(dst)@ + src@,
{
    let mut i: usize = 0;
    while i < src.len()
        invariant
            i <= src@.len(),
            dst@ == old(dst)@ + src@.subrange(0, i as int),
        decreases src@.len() - i,
    {
        dst.push(src[i]);
        i = i + 1;
        proof {
            assert(dst@ =~= old(dst)@ + src@.subrange(0, i as int));
        }
    }
    proof {
        assert(dst@ =~= old(dst)@ + src@);
    }
}

/// Copies the bytes of `src` at positions `start..end` into a fresh vector.
fn copy_range(src: &Vec<u8>, start: usize, end: usize) -> (r: Vec<u8>)
    requires
        start <= end <= src@.len(),
    ensures
        r@ == src@.subrange(start as int, end as int),
{
    let mut out: Vec<u8> = Vec::new();
    let mut i: usize = start;
    while i < end
        invariant
            start <= i <= end <= src@.len(),
            out@ == src@.subrange(start as int, i as int),
        decreases end - i,
    {
        out.push(src[i]);
        i = i + 1;
        proof {
            assert(out@ =~= src@.subrange(start as int, i as int));
        }
    }
    out
}

/// Concatenates ephemeral public key, nonce and sealed message, in that
/// fixed order, into one frame.
pub fn encode_frame(ephemeral_public_key: &Vec<u8>, nonce: &Vec<u8>, sealed: &Vec<u8>) -> (frame:
    Vec<u8>)
    requires
        ephemeral_public_key@.len() + nonce@.len() + sealed@.len() <= usize::MAX,
    ensures
        frame@ == ephemeral_public_key@ + nonce@ + sealed@,
{
    let mut frame: Vec<u8> = Vec::new();
    push_all(&mut frame, ephemeral_public_key);
    push_all(&mut frame, nonce);
    push_all(&mut frame, sealed);
    proof {
        assert(frame@ =~= ephemeral_public_key@ + nonce@ + sealed@);
    }
    frame
}

/// Validates the total length of a frame and splits it at byte offsets 32
/// and 44.  A frame of 44 bytes or fewer cannot hold the fixed-size header
/// fields and any sealed payload, and is rejected before any other work.
pub fn decode_frame(frame: &Vec<u8>) -> (r: Result<FrameParts, Error>)
    ensures
        frame@.len() <= 44 ==> (r matches Err(e) && e == Error::InvalidMessageLength),
        frame@.len() > 44 ==> r is Ok && r->Ok_0.ephemeral_public_key@ == frame@.subrange(0, 32)
            && r->Ok_0.nonce@ == frame@.subrange(32, 44) && r->Ok_0.sealed@ == frame@.subrange(
            44,
            frame@.len() as int,
        ),
{
    if frame.len() <= HEADER_LEN {
        return Err(Error::InvalidMessageLength);
    }
    let ephemeral_public_key = copy_range(frame, 0, EPK_LEN);
    let nonce = copy_range(frame, EPK_LEN, HEADER_LEN);
    let sealed = copy_range(frame, HEADER_LEN, frame.len());
    Ok(FrameParts { ephemeral_public_key, nonce, sealed })
}

/// Law of the codec: decoding recovers exactly what was encoded.  Splitting
/// the concatenation `epk || nonce || sealed` at byte offsets 32 and 44
/// returns the three fields unchanged, whenever the first two have their
/// fixed wire lengths.
pub proof fn lemma_frame_round_trip(epk: Seq<u8>, nonce: Seq<u8>, sealed: Seq<u8>)
    requires
        epk.len() == 32,
        nonce.len() == 12,
    ensures
        (epk + nonce + sealed).len() == 44 + sealed.len(),
        (epk + nonce + sealed).subrange(0, 32) == epk,
        (epk + nonce + sealed).subrange(32, 44) == nonce,
        (epk + nonce + sealed).subrange(44, 44 + sealed.len() as int) == sealed,
{
    let frame = epk + nonce + sealed;
    assert(frame.subrange(0, 32) =~= epk);
    assert(frame.subrange(32, 44) =~= nonce);
    assert(frame.subrange(44, 44 + sealed.len() as int) =~= sealed);
}

} // verus!
