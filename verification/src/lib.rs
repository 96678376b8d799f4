//! Core of a minimal UTXO-style ledger: blocks, transactions, an
//! unspent-output set, and the integrity rules that let an append-only chain
//! of blocks be checked independently by any party holding the chain data.

use vstd::prelude::*;

pub mod u256;
pub mod hash;
pub mod encode;
pub mod error;
pub mod crypto;
pub mod types;
pub mod merkle;
pub mod chain;

verus! {

/// Block subsidy paid by the first reward schedule period.
pub const INITIAL_REWARD: u64 = 50;

/// Number of blocks between halvings of the block reward.
pub const HALVING_INTERVAL: u64 = 210;

/// Intended spacing between consecutive blocks, in seconds.
pub const IDEAL_BLOCK_TIME: u64 = 10;

/// Number of blocks between difficulty adjustments.
pub const DIFFICULTY_UPDATE_INTERVAL: u64 = 50;

/// The easiest permissible difficulty: every enforced target must be at most
/// this value.
pub open spec fn spec_min_target() -> crate::u256::U256 {
    crate::u256::U256 {
        limb0: 0xFFFF_FFFF_FFFF,
        limb1: 0xFFFF_FFFF_FFFF,
        limb2: 0xFFFF_FFFF_FFFF,
        limb3: 0x0000_FFFF_FFFF,
    }
}

/// Executable form of the easiest permissible difficulty ceiling.
pub fn min_target() -> (r: crate::u256::U256)
    ensures
        r == spec_min_target(),
{
    crate::u256::U256 {
        limb0: 0xFFFF_FFFF_FFFF,
        limb1: 0xFFFF_FFFF_FFFF,
        limb2: 0xFFFF_FFFF_FFFF,
        limb3: 0x0000_FFFF_FFFF,
    }
}

} // verus!
