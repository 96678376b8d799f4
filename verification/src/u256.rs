//! Fixed-width 256-bit unsigned values, stored as four 64-bit limbs with the
//! least significant limb first. Comparison follows the numeric value.

use vstd::prelude::*;

verus! {

/// A 256-bit unsigned integer as four 64-bit limbs, least significant first.
#[derive(Clone, Copy, Debug, PartialEq, Eq, Structural)]
pub struct U256 {
    pub limb0: u64,
    pub limb1: u64,
    pub limb2: u64,
    pub limb3: u64,
}

/// 2^64, the weight of one limb position.
pub open spec fn limb_base() -> nat {
    0x1_0000_0000_0000_0000nat
}

/// 2^128.
pub open spec fn limb_base2() -> nat {
    0x1_0000_0000_0000_0000_0000_0000_0000_0000nat
}

/// 2^192.
pub open spec fn limb_base3() -> nat {
    0x1_0000_0000_0000_0000_0000_0000_0000_0000_0000_0000_0000_0000nat
}

impl U256 {
    /// The numeric value the four limbs denote.
    pub open spec fn value(self) -> nat {
        (self.limb3 as nat) * limb_base3() + (self.limb2 as nat) * limb_base2()
            + (self.limb1 as nat) * limb_base() + (self.limb0 as nat)
    }

    /// The all-zero value.
    pub fn zero() -> (r: U256)
        ensures
            r == (U256 { limb0: 0, limb1: 0, limb2: 0, limb3: 0 }),
            r.value() == 0,
    {
        U256 { limb0: 0, limb1: 0, limb2: 0, limb3: 0 }
    }

    /// Numeric comparison: true iff `self <= other` as 256-bit values.
    pub fn le(&self, other: &U256) -> (r: bool)
        ensures
            r == (self.value() <= other.value()),
    {
        proof {
            lemma_value_order(*self, *other);
        }
        if self.limb3 != other.limb3 {
            self.limb3 < other.limb3
        } else if self.limb2 != other.limb2 {
            self.limb2 < other.limb2
        } else if self.limb1 != other.limb1 {
            self.limb1 < other.limb1
        } else {
            self.limb0 <= other.limb0
        }
    }
}

/// The numeric order of two values agrees with the lexicographic order of
/// their limbs, most significant limb first.
proof fn lemma_value_order(a: U256, b: U256)
    ensures
        a.limb3 < b.limb3 ==> a.value() < b.value(),
        a.limb3 == b.limb3 && a.limb2 < b.limb2 ==> a.value() < b.value(),
        a.limb3 == b.limb3 && a.limb2 == b.limb2 && a.limb1 < b.limb1 ==> a.value() < b.value(),
        a.limb3 == b.limb3 && a.limb2 == b.limb2 && a.limb1 == b.limb1 ==> (a.value()
            <= b.value() <==> a.limb0 <= b.limb0),
{
    assert((a.limb2 as nat) * limb_base2() <= 0xFFFF_FFFF_FFFF_FFFF * limb_base2());
    assert((a.limb1 as nat) * limb_base() <= 0xFFFF_FFFF_FFFF_FFFF * limb_base());
    assert((b.limb2 as nat) * limb_base2() <= 0xFFFF_FFFF_FFFF_FFFF * limb_base2());
    assert((b.limb1 as nat) * limb_base() <= 0xFFFF_FFFF_FFFF_FFFF * limb_base());
    if a.limb3 < b.limb3 {
        assert((a.limb3 as nat) * limb_base3() + limb_base3() <= (b.limb3 as nat)
            * limb_base3()) by (nonlinear_arith)
            requires
                a.limb3 < b.limb3,
        ;
    }
    if a.limb3 == b.limb3 && a.limb2 < b.limb2 {
        assert((a.limb2 as nat) * limb_base2() + limb_base2() <= (b.limb2 as nat)
            * limb_base2()) by (nonlinear_arith)
            requires
                a.limb2 < b.limb2,
        ;
    }
    if a.limb3 == b.limb3 && a.limb2 == b.limb2 && a.limb1 < b.limb1 {
        assert((a.limb1 as nat) * limb_base() + limb_base() <= (b.limb1 as nat)
            * limb_base()) by (nonlinear_arith)
            requires
                a.limb1 < b.limb1,
        ;
    }
}

} // verus!
