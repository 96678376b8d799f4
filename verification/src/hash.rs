//! The 256-bit digest type. A `Hash` is derived from the canonical byte
//! encoding of a value by the SHA-256 digest, read as a big-endian number.

use vstd::prelude::*;
use crate::u256::U256;

verus! {

/// The hex form of the SHA-256 digest of a byte string, as the `sha256`
/// crate returns it. The digest depends on the input bytes alone.
pub uninterp spec fn sha256_hex_of(bytes: Seq<u8>) -> Seq<char>;

/// True of the characters that the `hex` crate decodes.
pub open spec fn is_hex_digit(c: char) -> bool {
    ('0' <= c && c <= '9') || ('a' <= c && c <= 'f') || ('A' <= c && c <= 'F')
}

/// The numeric value of one hex digit (0 for any other character).
pub open spec fn hex_digit_val(c: char) -> u8 {
    if '0' <= c && c <= '9' {
        (c as u8 - '0' as u8) as u8
    } else if 'a' <= c && c <= 'f' {
        (c as u8 - 'a' as u8 + 10) as u8
    } else if 'A' <= c && c <= 'F' {
        (c as u8 - 'A' as u8 + 10) as u8
    } else {
        0
    }
}

/// The bytes an even-length hex string denotes: each byte is one pair of
/// digits, high digit first.
pub open spec fn spec_hex_decode(s: Seq<char>) -> Seq<u8> {
    Seq::new(s.len() / 2, |i: int| (hex_digit_val(s[2 * i]) * 16 + hex_digit_val(s[2 * i + 1])) as u8)
}

/// Relies on `sha256::digest`: the hex form of the SHA-256 digest of the
/// input bytes, 64 hex digits, a function of the input alone.
#[verifier::external_body]
fn sha256_hex(bytes: &Vec<u8>) -> (r: String)
    ensures
        r@ == sha256_hex_of(bytes@),
        r@.len() == 64,
        forall|i: int| 0 <= i < r@.len() ==> is_hex_digit(#[trigger] r@[i]),
{
    sha256::digest(bytes)
}

/// Relies on `hex::decode`: an even-length string of hex digits decodes to
/// its bytes, pairwise, high digit first; anything else is rejected.
#[verifier::external_body]
fn hex_decode(s: &String) -> (r: Result<Vec<u8>, ()>)
    ensures
        r is Ok <==> (s@.len() % 2 == 0 && forall|i: int|
            0 <= i < s@.len() ==> is_hex_digit(#[trigger] s@[i])),
        r matches Ok(v) ==> v@ == spec_hex_decode(s@),
{
    match hex::decode(s.as_str()) {
        Ok(v) => Ok(v),
        Err(_) => Err(()),
    }
}

/// The value of eight bytes read big-endian, starting at `start`.
pub open spec fn be_limb_at(s: Seq<u8>, start: int) -> nat {
    (s[start] as nat) * 0x100_0000_0000_0000 + (s[start + 1] as nat) * 0x1_0000_0000_0000
        + (s[start + 2] as nat) * 0x100_0000_0000 + (s[start + 3] as nat) * 0x1_0000_0000
        + (s[start + 4] as nat) * 0x100_0000 + (s[start + 5] as nat) * 0x1_0000
        + (s[start + 6] as nat) * 0x100 + (s[start + 7] as nat)
}

/// The 256-bit value of 32 bytes read big-endian.
pub open spec fn spec_u256_from_be(s: Seq<u8>) -> U256 {
    U256 {
        limb3: be_limb_at(s, 0) as u64,
        limb2: be_limb_at(s, 8) as u64,
        limb1: be_limb_at(s, 16) as u64,
        limb0: be_limb_at(s, 24) as u64,
    }
}

/// The digest value that a byte string hashes to.
pub open spec fn spec_hash_of_bytes(b: Seq<u8>) -> Hash {
    Hash(spec_u256_from_be(spec_hex_decode(sha256_hex_of(b))))
}

/// A 256-bit digest with big-endian numeric semantics.
#[derive(Clone, Copy, Debug, PartialEq, Eq, Structural)]
pub struct Hash(pub U256);

/// One big-endian limb assembled from eight consecutive bytes.
fn be_limb(b: &Vec<u8>, start: usize) -> (r: u64)
    requires
        start + 8 <= b@.len(),
    ensures
        r == be_limb_at(b@, start as int),
{
    let n = b.len();
    proof {
        // Brings the vector's length into range, so the index sums below
        // cannot overflow `usize`.
        assert(start + 8 <= n);
    }
    let r: u64 = (b[start] as u64) * 0x100_0000_0000_0000 + (b[start + 1] as u64)
        * 0x1_0000_0000_0000 + (b[start + 2] as u64) * 0x100_0000_0000 + (b[start + 3] as u64)
        * 0x1_0000_0000 + (b[start + 4] as u64) * 0x100_0000 + (b[start + 5] as u64) * 0x1_0000 + (
    b[start + 6] as u64) * 0x100 + (b[start + 7] as u64);
    r
}

impl Hash {
    /// Digest of a canonical byte encoding: SHA-256, read as a big-endian
    /// 256-bit number.
    pub fn hash(bytes: &Vec<u8>) -> (r: Hash)
        ensures
            r == spec_hash_of_bytes(bytes@),
    {
        let hex = sha256_hex(bytes);
        let digest = match hex_decode(&hex) {
            Ok(v) => v,
            Err(_) => {
                proof {
                    assert(false);
                }
                vstd::pervasive::unreached()
            },
        };
        assert(digest@.len() == 32);
        Hash(
            U256 {
                limb3: be_limb(&digest, 0),
                limb2: be_limb(&digest, 8),
                limb1: be_limb(&digest, 16),
                limb0: be_limb(&digest, 24),
            },
        )
    }

    /// The sole proof-of-work acceptance rule: the digest, as a number, is
    /// at most the target.
    pub fn matches_target(&self, target: U256) -> (r: bool)
        ensures
            r == (self.0.value() <= target.value()),
    {
        self.0.le(&target)
    }

    /// The reserved "no predecessor" sentinel.
    pub fn zero() -> (r: Hash)
        ensures
            r == spec_zero_hash(),
    {
        Hash(U256::zero())
    }

    /// The digest as 32 bytes, least significant byte first.
    pub fn as_bytes(&self) -> (r: Vec<u8>)
        ensures
            r@ == crate::encode::spec_enc_u256(self.0),
            r@.len() == 32,
    {
        let mut out: Vec<u8> = Vec::new();
        crate::encode::push_u256_le(&mut out, &self.0);
        out
    }
}

/// The sentinel hash value: numerically zero.
pub open spec fn spec_zero_hash() -> Hash {
    Hash(U256 { limb0: 0, limb1: 0, limb2: 0, limb3: 0 })
}

} // verus!
