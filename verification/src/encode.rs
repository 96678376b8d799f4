//! Canonical byte encodings. Every hashed entity is first laid out by these
//! functions, with a fixed field order, so that the same logical content
//! always yields the same bytes.

use vstd::prelude::*;
use crate::u256::U256;


verus! {

/// Eight bytes, least significant first.
pub open spec fn spec_enc_u64(x: u64) -> Seq<u8> {
    seq![
        (x % 256) as u8,
        ((x / 0x100) % 256) as u8,
        ((x / 0x1_0000) % 256) as u8,
        ((x / 0x100_0000) % 256) as u8,
        ((x / 0x1_0000_0000) % 256) as u8,
        ((x / 0x100_0000_0000) % 256) as u8,
        ((x / 0x1_0000_0000_0000) % 256) as u8,
        ((x / 0x100_0000_0000_0000) % 256) as u8,
    ]
}

/// Sixteen bytes, least significant first.
pub open spec fn spec_enc_u128(x: u128) -> Seq<u8> {
    spec_enc_u64((x % 0x1_0000_0000_0000_0000) as u64) + spec_enc_u64(
        (x / 0x1_0000_0000_0000_0000) as u64,
    )
}

/// The four limbs in order, least significant first: the little-endian byte
/// form of the 256-bit value.
pub open spec fn spec_enc_u256(v: U256) -> Seq<u8> {
    spec_enc_u64(v.limb0) + spec_enc_u64(v.limb1) + spec_enc_u64(v.limb2) + spec_enc_u64(v.limb3)
}

/// A digest is encoded as its 256-bit value.
pub open spec fn spec_enc_hash(h: crate::hash::Hash) -> Seq<u8> {
    spec_enc_u256(h.0)
}

/// A byte string is encoded with its length first, so that encodings of
/// consecutive fields cannot run into each other.
pub open spec fn spec_enc_bytes(b: Seq<u8>) -> Seq<u8> {
    spec_enc_u64(b.len() as u64) + b
}

/// Appends the eight little-endian bytes of `x`.
pub fn push_u64_le(out: &mut Vec<u8>, x: u64)
    ensures
        final(out)@ == old(out)@ + spec_enc_u64(x),
{
    out.push((x % 256) as u8);
    out.push(((x / 0x100) % 256) as u8);
    out.push(((x / 0x1_0000) % 256) as u8);
    out.push(((x / 0x100_0000) % 256) as u8);
    out.push(((x / 0x1_0000_0000) % 256) as u8);
    out.push(((x / 0x100_0000_0000) % 256) as u8);
    out.push(((x / 0x1_0000_0000_0000) % 256) as u8);
    out.push(((x / 0x100_0000_0000_0000) % 256) as u8);
    proof {
        assert(out@ =~= old(out)@ + spec_enc_u64(x));
    }
}

/// Appends the sixteen little-endian bytes of `x`.
pub fn push_u128_le(out: &mut Vec<u8>, x: u128)
    ensures
        final(out)@ == old(out)@ + spec_enc_u128(x),
{
    push_u64_le(out, (x % 0x1_0000_0000_0000_0000) as u64);
    push_u64_le(out, (x / 0x1_0000_0000_0000_0000) as u64);
    proof {
        assert(out@ =~= old(out)@ + spec_enc_u128(x));
    }
}

/// Appends the 32 little-endian bytes of a 256-bit value.
pub fn push_u256_le(out: &mut Vec<u8>, v: &U256)
    ensures
        final(out)@ == old(out)@ + spec_enc_u256(*v),
{
    push_u64_le(out, v.limb0);
    push_u64_le(out, v.limb1);
    push_u64_le(out, v.limb2);
    push_u64_le(out, v.limb3);
    proof {
        assert(out@ =~= old(out)@ + spec_enc_u256(*v));
    }
}

/// Appends the encoding of a digest.
pub fn push_hash(out: &mut Vec<u8>, h: &crate::hash::Hash)
    ensures
        final(out)@ == old(out)@ + spec_enc_hash(*h),
{
    push_u256_le(out, &h.0);
}

/// Appends a byte string, length first.
pub fn push_bytes(out: &mut Vec<u8>, b: &Vec<u8>)
    ensures
        final(out)@ == old(out)@ + spec_enc_bytes(b@),
{
    push_u64_le(out, b.len() as u64);
    let mut i: usize = 0;
    while i < b.len()
        invariant
            i <= b@.len(),
            out@ == old(out)@ + spec_enc_u64(b@.len() as u64) + b@.take(i as int),
        decreases b@.len() - i,
    {
        out.push(b[i]);
        proof {
            assert(b@.take(i + 1) =~= b@.take(i as int).push(b@[i as int]));
        }
        i = i + 1;
    }
    proof {
        assert(b@.take(b@.len() as int) =~= b@);
        assert(out@ =~= old(out)@ + spec_enc_bytes(b@));
    }
}

} // verus!
