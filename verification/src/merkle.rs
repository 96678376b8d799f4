//! The Merkle commitment: a single digest summarizing an ordered
//! transaction sequence through a binary hash tree. When a layer has an odd
//! number of elements, the final unpaired element is paired with itself.

use vstd::prelude::*;
use crate::types::{spec_tx_hash, Transaction, TxV};
use crate::hash::{spec_hash_of_bytes, spec_zero_hash};
use crate::encode::{push_hash, spec_enc_hash};

verus! {

/// The root of the binary hash tree over a block's transactions.
#[derive(Clone, Copy, Debug, PartialEq, Eq, Structural)]
pub struct MerkleRoot(pub crate::hash::Hash);

/// The digest of a pair of digests, by hashing their concatenated
/// canonical encodings.
pub open spec fn spec_pair_hash(l: crate::hash::Hash, r: crate::hash::Hash) -> crate::hash::Hash {
    spec_hash_of_bytes(spec_enc_hash(l) + spec_enc_hash(r))
}

/// One combining step: adjacent pairs are hashed together; an unpaired
/// final element is paired with itself.
pub open spec fn spec_merkle_level(layer: Seq<crate::hash::Hash>) -> Seq<crate::hash::Hash> {
    Seq::new(
        (layer.len() + 1) / 2,
        |i: int|
            spec_pair_hash(
                layer[2 * i],
                if 2 * i + 1 < layer.len() {
                    layer[2 * i + 1]
                } else {
                    layer[2 * i]
                },
            ),
    )
}

/// Combining steps applied until a single digest remains.
pub open spec fn spec_merkle_fold(layer: Seq<crate::hash::Hash>) -> crate::hash::Hash
    decreases layer.len(),
{
    if layer.len() == 0 {
        spec_zero_hash()
    } else if layer.len() == 1 {
        layer[0]
    } else {
        spec_merkle_fold(spec_merkle_level(layer))
    }
}

/// The leaf layer: each transaction's digest, in the given order.
pub open spec fn spec_tx_hashes(txs: Seq<TxV>) -> Seq<crate::hash::Hash> {
    txs.map_values(|t: TxV| spec_tx_hash(t))
}

/// The Merkle root an ordered transaction sequence commits to. The empty
/// sequence gets the zero sentinel root.
pub open spec fn spec_merkle_root(txs: Seq<TxV>) -> MerkleRoot {
    MerkleRoot(spec_merkle_fold(spec_tx_hashes(txs)))
}

/// The digest of two digests side by side.
fn pair_hash(l: &crate::hash::Hash, r: &crate::hash::Hash) -> (h: crate::hash::Hash)
    ensures
        h == spec_pair_hash(*l, *r),
{
    let mut out: Vec<u8> = Vec::new();
    push_hash(&mut out, l);
    push_hash(&mut out, r);
    crate::hash::Hash::hash(&out)
}

impl MerkleRoot {
    /// Builds the leaf layer by hashing each transaction in order, then
    /// repeatedly combines adjacent pairs, duplicating an unpaired final
    /// element, until one digest remains. Order is significant. An empty
    /// sequence yields the zero sentinel root.
    pub fn calculate(transactions: &Vec<Transaction>) -> (r: MerkleRoot)
        ensures
            r == spec_merkle_root(transactions@.map_values(|t: Transaction| t@)),
    {
        let ghost txs = transactions@.map_values(|t: Transaction| t@);
        let mut layer: Vec<crate::hash::Hash> = Vec::new();
        let mut i: usize = 0;
        while i < transactions.len()
            invariant
                i <= transactions@.len(),
                txs == transactions@.map_values(|t: Transaction| t@),
                txs.len() == transactions@.len(),
                layer@ == spec_tx_hashes(txs).take(i as int),
            decreases transactions@.len() - i,
        {
            let t = &transactions[i];
            layer.push(t.hash());
            proof {
                assert(spec_tx_hashes(txs).take(i + 1) =~= spec_tx_hashes(txs).take(
                    i as int,
                ).push(spec_tx_hash(txs[i as int])));
            }
            i = i + 1;
        }
        proof {
            assert(spec_tx_hashes(txs).take(txs.len() as int) =~= spec_tx_hashes(txs));
        }
        if layer.len() == 0 {
            return MerkleRoot(crate::hash::Hash::zero());
        }
        while layer.len() > 1
            invariant
                layer@.len() >= 1,
                spec_merkle_fold(layer@) == spec_merkle_fold(spec_tx_hashes(txs)),
            decreases layer@.len(),
        {
            let ghost cur = layer@;
            let m = layer.len();
            let mut next: Vec<crate::hash::Hash> = Vec::new();
            let mut idx: usize = 0;
            while idx < m
                invariant
                    m == cur.len(),
                    layer@ == cur,
                    idx <= m,
                    next@ == spec_merkle_level(cur).take(next@.len() as int),
                    2 * next@.len() == idx || (idx == m && 2 * next@.len() == m + 1),
                decreases m - idx,
            {
                let ghost j = next@.len() as int;
                let left = layer[idx];
                let right = if idx + 1 < m {
                    layer[idx + 1]
                } else {
                    left
                };
                next.push(pair_hash(&left, &right));
                proof {
                    assert(spec_merkle_level(cur)[j] == spec_pair_hash(left, right));
                    assert(next@ =~= spec_merkle_level(cur).take(j + 1));
                }
                idx = if idx + 1 < m {
                    idx + 2
                } else {
                    m
                };
            }
            proof {
                assert(next@.len() == (m + 1) / 2);
                assert(next@ =~= spec_merkle_level(cur));
                assert(spec_merkle_fold(cur) == spec_merkle_fold(spec_merkle_level(cur)));
            }
            layer = next;
        }
        MerkleRoot(layer[0])
    }
}

/// The commitment is deterministic: calculating the Merkle root of the
/// same transaction sequence always gives the same root.
pub proof fn lemma_merkle_deterministic(a: Seq<TxV>, b: Seq<TxV>)
    requires
        a == b,
    ensures
        spec_merkle_root(a) == spec_merkle_root(b),
{
}

} // verus!
