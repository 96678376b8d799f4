//! The chain and its unspent-output set: the block-acceptance state
//! machine, the only place that mutates ledger state. The set is held as a
//! vector of key/output pairs with pairwise-distinct keys, abstracted as a
//! map from output digest to output.

use vstd::prelude::*;
use crate::error::Error;
use crate::merkle::{spec_merkle_root, MerkleRoot};
use crate::types::{
    spec_block_hash, spec_header_hash, spec_output_hash, Block, BlockV, InputV, OutputV,
    Transaction, TransactionOutput, TxV,
};
use crate::hash::spec_zero_hash;

verus! {

/// The mathematical content of the stored key/output pairs.
pub open spec fn pairs_view(s: Seq<(crate::hash::Hash, TransactionOutput)>) -> Seq<
    (crate::hash::Hash, OutputV),
> {
    s.map_values(|p: (crate::hash::Hash, TransactionOutput)| (p.0, p.1@))
}

/// The map an association list denotes; a later pair with an equal key
/// would win, though stored keys are kept pairwise distinct.
pub open spec fn to_map(s: Seq<(crate::hash::Hash, OutputV)>) -> Map<crate::hash::Hash, OutputV>
    decreases s.len(),
{
    if s.len() == 0 {
        Map::empty()
    } else {
        to_map(s.drop_last()).insert(s.last().0, s.last().1)
    }
}

/// No two stored pairs share a key.
pub open spec fn keys_distinct(s: Seq<(crate::hash::Hash, OutputV)>) -> bool {
    forall|i: int, j: int| 0 <= i < j < s.len() ==> s[i].0 != s[j].0
}

/// A key that appears in no pair is not in the denoted map.
proof fn lemma_key_absent(s: Seq<(crate::hash::Hash, OutputV)>, k: crate::hash::Hash)
    requires
        forall|i: int| 0 <= i < s.len() ==> s[i].0 != k,
    ensures
        !to_map(s).contains_key(k),
    decreases s.len(),
{
    if s.len() > 0 {
        assert(forall|i: int| 0 <= i < s.drop_last().len() ==> s.drop_last()[i].0 != k);
        lemma_key_absent(s.drop_last(), k);
    }
}

/// Removing the pair at `j` from a distinct-keyed list removes exactly its
/// key from the denoted map.
proof fn lemma_to_map_remove(s: Seq<(crate::hash::Hash, OutputV)>, j: int)
    requires
        keys_distinct(s),
        0 <= j < s.len(),
    ensures
        keys_distinct(s.remove(j)),
        forall|i: int| 0 <= i < s.remove(j).len() ==> s.remove(j)[i].0 != s[j].0,
        to_map(s.remove(j)) == to_map(s).remove(s[j].0),
    decreases s.len(),
{
    let k = s[j].0;
    if j == s.len() - 1 {
        assert(s.remove(j) =~= s.drop_last());
        lemma_key_absent(s.drop_last(), k);
        assert(to_map(s.drop_last()) =~= to_map(s.drop_last()).insert(k, s[j].1).remove(k));
    } else {
        let dl = s.drop_last();
        assert(forall|i1: int, i2: int|
            0 <= i1 < i2 < dl.len() ==> dl[i1].0 != dl[i2].0);
        lemma_to_map_remove(dl, j);
        assert(s.remove(j).drop_last() =~= dl.remove(j));
        assert(s.remove(j).last() == s.last());
        assert(s.last().0 != k);
        assert(to_map(s.remove(j)) == to_map(dl.remove(j)).insert(s.last().0, s.last().1));
        assert(to_map(dl).remove(k).insert(s.last().0, s.last().1) =~= to_map(dl).insert(
            s.last().0,
            s.last().1,
        ).remove(k));
    }
}

/// Finds the index holding a key, if any pair does.
fn utxo_find(u: &Vec<(crate::hash::Hash, TransactionOutput)>, key: &crate::hash::Hash) -> (r:
    Option<usize>)
    ensures
        match r {
            Some(j) => j < u@.len() && pairs_view(u@)[j as int].0 == *key,
            None => forall|i: int| 0 <= i < u@.len() ==> pairs_view(u@)[i].0 != *key,
        },
{
    let mut i: usize = 0;
    while i < u.len()
        invariant
            i <= u@.len(),
            forall|t: int| 0 <= t < i ==> pairs_view(u@)[t].0 != *key,
        decreases u@.len() - i,
    {
        let p = &u[i];
        if p.0 == *key {
            return Some(i);
        }
        i = i + 1;
    }
    None
}

/// Deletes the entry holding a key, if present.
fn utxo_remove(u: &mut Vec<(crate::hash::Hash, TransactionOutput)>, key: &crate::hash::Hash)
    requires
        keys_distinct(pairs_view(old(u)@)),
    ensures
        keys_distinct(pairs_view(final(u)@)),
        forall|i: int| 0 <= i < final(u)@.len() ==> pairs_view(final(u)@)[i].0 != *key,
        to_map(pairs_view(final(u)@)) == to_map(pairs_view(old(u)@)).remove(*key),
{
    match utxo_find(u, key) {
        Some(j) => {
            u.remove(j);
            proof {
                assert(pairs_view(u@) =~= pairs_view(old(u)@).remove(j as int));
                lemma_to_map_remove(pairs_view(old(u)@), j as int);
            }
        },
        None => {
            proof {
                lemma_key_absent(pairs_view(u@), *key);
                assert(to_map(pairs_view(u@)).remove(*key) =~= to_map(pairs_view(u@)));
            }
        },
    }
}

/// Binds a key to an output, replacing any entry the key held.
fn utxo_insert(
    u: &mut Vec<(crate::hash::Hash, TransactionOutput)>,
    key: crate::hash::Hash,
    output: TransactionOutput,
)
    requires
        keys_distinct(pairs_view(old(u)@)),
    ensures
        keys_distinct(pairs_view(final(u)@)),
        to_map(pairs_view(final(u)@)) == to_map(pairs_view(old(u)@)).insert(key, output@),
{
    utxo_remove(u, &key);
    let ghost mid = pairs_view(u@);
    let ghost ov = output@;
    u.push((key, output));
    proof {
        assert(pairs_view(u@) =~= mid.push((key, ov)));
        assert(pairs_view(u@).drop_last() =~= mid);
        assert(to_map(pairs_view(u@)) == to_map(mid).insert(key, ov));
        assert(to_map(pairs_view(old(u)@)).remove(key).insert(key, ov) =~= to_map(
            pairs_view(old(u)@),
        ).insert(key, ov));
    }
}

/// The map after a transaction's spends: each input's referenced digest is
/// deleted, in order.
pub open spec fn spec_remove_inputs(
    m: Map<crate::hash::Hash, OutputV>,
    inputs: Seq<InputV>,
) -> Map<crate::hash::Hash, OutputV>
    decreases inputs.len(),
{
    if inputs.len() == 0 {
        m
    } else {
        spec_remove_inputs(m, inputs.drop_last()).remove(
            inputs.last().prev_transaction_output_hash,
        )
    }
}

/// The map after a transaction's creations: each output is bound under its
/// own digest, in order.
pub open spec fn spec_insert_outputs(
    m: Map<crate::hash::Hash, OutputV>,
    outputs: Seq<OutputV>,
) -> Map<crate::hash::Hash, OutputV>
    decreases outputs.len(),
{
    if outputs.len() == 0 {
        m
    } else {
        spec_insert_outputs(m, outputs.drop_last()).insert(
            spec_output_hash(outputs.last()),
            outputs.last(),
        )
    }
}

/// A transaction's net effect: spends deleted, then creations inserted.
pub open spec fn spec_apply_tx(m: Map<crate::hash::Hash, OutputV>, t: TxV) -> Map<
    crate::hash::Hash,
    OutputV,
> {
    spec_insert_outputs(spec_remove_inputs(m, t.inputs), t.outputs)
}

/// The effect of a transaction sequence, applied in order.
pub open spec fn spec_apply_txs(m: Map<crate::hash::Hash, OutputV>, txs: Seq<TxV>) -> Map<
    crate::hash::Hash,
    OutputV,
>
    decreases txs.len(),
{
    if txs.len() == 0 {
        m
    } else {
        spec_apply_tx(spec_apply_txs(m, txs.drop_last()), txs.last())
    }
}

/// The effect of one block: its transactions, in order.
pub open spec fn spec_apply_block(m: Map<crate::hash::Hash, OutputV>, b: BlockV) -> Map<
    crate::hash::Hash,
    OutputV,
> {
    spec_apply_txs(m, b.transactions)
}

/// The unspent-output set a whole block history denotes, built from
/// nothing by applying every block in order.
pub open spec fn spec_chain_utxos(blocks: Seq<BlockV>) -> Map<crate::hash::Hash, OutputV>
    decreases blocks.len(),
{
    if blocks.len() == 0 {
        Map::empty()
    } else {
        spec_apply_block(spec_chain_utxos(blocks.drop_last()), blocks.last())
    }
}

/// Applies one transaction's effect to the stored set.
fn apply_tx_utxos(u: &mut Vec<(crate::hash::Hash, TransactionOutput)>, tx: &Transaction)
    requires
        keys_distinct(pairs_view(old(u)@)),
    ensures
        keys_distinct(pairs_view(final(u)@)),
        to_map(pairs_view(final(u)@)) == spec_apply_tx(to_map(pairs_view(old(u)@)), tx@),
{
    let ghost m0 = to_map(pairs_view(u@));
    let ghost iv = tx@.inputs;
    let mut i: usize = 0;
    while i < tx.inputs.len()
        invariant
            i <= tx.inputs@.len(),
            iv == tx@.inputs,
            iv.len() == tx.inputs@.len(),
            keys_distinct(pairs_view(u@)),
            to_map(pairs_view(u@)) == spec_remove_inputs(m0, iv.take(i as int)),
        decreases tx.inputs@.len() - i,
    {
        let inp = &tx.inputs[i];
        proof {
            assert(iv.take(i + 1).drop_last() =~= iv.take(i as int));
            assert(iv.take(i + 1).last() == iv[i as int]);
            assert(iv[i as int] == tx.inputs@[i as int]@);
        }
        utxo_remove(u, &inp.prev_transaction_output_hash);
        i = i + 1;
    }
    proof {
        assert(iv.take(iv.len() as int) =~= iv);
    }
    let ghost m1 = to_map(pairs_view(u@));
    let ghost ov = tx@.outputs;
    let mut j: usize = 0;
    while j < tx.outputs.len()
        invariant
            j <= tx.outputs@.len(),
            ov == tx@.outputs,
            ov.len() == tx.outputs@.len(),
            keys_distinct(pairs_view(u@)),
            to_map(pairs_view(u@)) == spec_insert_outputs(m1, ov.take(j as int)),
        decreases tx.outputs@.len() - j,
    {
        let o = &tx.outputs[j];
        proof {
            assert(ov.take(j + 1).drop_last() =~= ov.take(j as int));
            assert(ov.take(j + 1).last() == ov[j as int]);
            assert(ov[j as int] == tx.outputs@[j as int]@);
        }
        let key = o.hash();
        utxo_insert(u, key, o.clone());
        j = j + 1;
    }
    proof {
        assert(ov.take(ov.len() as int) =~= ov);
    }
}

/// Applies one block's effect to the stored set.
fn apply_block_utxos(u: &mut Vec<(crate::hash::Hash, TransactionOutput)>, block: &Block)
    requires
        keys_distinct(pairs_view(old(u)@)),
    ensures
        keys_distinct(pairs_view(final(u)@)),
        to_map(pairs_view(final(u)@)) == spec_apply_block(to_map(pairs_view(old(u)@)), block@),
{
    let ghost m0 = to_map(pairs_view(u@));
    let ghost tv = block@.transactions;
    let mut i: usize = 0;
    while i < block.transactions.len()
        invariant
            i <= block.transactions@.len(),
            tv == block@.transactions,
            tv.len() == block.transactions@.len(),
            keys_distinct(pairs_view(u@)),
            to_map(pairs_view(u@)) == spec_apply_txs(m0, tv.take(i as int)),
        decreases block.transactions@.len() - i,
    {
        let t = &block.transactions[i];
        proof {
            assert(tv.take(i + 1).drop_last() =~= tv.take(i as int));
            assert(tv.take(i + 1).last() == tv[i as int]);
            assert(tv[i as int] == block.transactions@[i as int]@);
        }
        apply_tx_utxos(u, t);
        i = i + 1;
    }
    proof {
        assert(tv.take(tv.len() as int) =~= tv);
    }
}

/// Whether a candidate extends the given history: a first block must carry
/// the zero sentinel as its predecessor; any later block must link to the
/// last block's digest, meet its own declared target, commit to exactly
/// its transactions' Merkle root, and move time strictly forward.
pub open spec fn spec_block_acceptable(blocks: Seq<BlockV>, b: BlockV) -> bool {
    if blocks.len() == 0 {
        b.header.prev_block_hash == spec_zero_hash()
    } else {
        &&& b.header.prev_block_hash == spec_block_hash(blocks.last())
        &&& spec_header_hash(b.header).0.value() <= b.header.target.value()
        &&& spec_merkle_root(b.transactions) == b.header.merkle_root
        &&& b.header.timestamp > blocks.last().header.timestamp
    }
}

/// The error a rejected candidate is reported with. Checks run in order:
/// linkage, target, Merkle commitment, timestamp; only a Merkle mismatch
/// is reported as `InvalidMerkleRoot`.
pub open spec fn spec_rejection(blocks: Seq<BlockV>, b: BlockV) -> Error {
    if blocks.len() > 0 && b.header.prev_block_hash == spec_block_hash(blocks.last())
        && spec_header_hash(b.header).0.value() <= b.header.target.value() && spec_merkle_root(
        b.transactions,
    ) != b.header.merkle_root {
        Error::InvalidMerkleRoot
    } else {
        Error::InvalidBlock
    }
}

/// The mutable unspent-output index together with the append-only block
/// sequence it was built from.
#[derive(Debug)]
pub struct Blockchain {
    pub utxos: Vec<(crate::hash::Hash, TransactionOutput)>,
    pub blocks: Vec<Block>,
}

impl Blockchain {
    /// The unspent-output set, as the map it denotes.
    pub open spec fn utxo_map(self) -> Map<crate::hash::Hash, OutputV> {
        to_map(pairs_view(self.utxos@))
    }

    /// The accepted blocks, by content, oldest first.
    pub open spec fn blocks_view(self) -> Seq<BlockV> {
        self.blocks@.map_values(|b: Block| b@)
    }

    /// Well-formedness: stored keys are distinct and the stored set is
    /// exactly the one the block history denotes.
    pub open spec fn wf(self) -> bool {
        &&& keys_distinct(pairs_view(self.utxos@))
        &&& self.utxo_map() == spec_chain_utxos(self.blocks_view())
    }

    /// An empty chain holding no blocks and no unspent outputs.
    pub fn new() -> (r: Blockchain)
        ensures
            r.wf(),
            r.blocks_view() == Seq::<BlockV>::empty(),
            r.utxo_map() == Map::<crate::hash::Hash, OutputV>::empty(),
    {
        let r = Blockchain { utxos: Vec::new(), blocks: Vec::new() };
        proof {
            assert(pairs_view(r.utxos@) =~= Seq::<(crate::hash::Hash, OutputV)>::empty());
            assert(r.blocks_view() =~= Seq::<BlockV>::empty());
        }
        r
    }

    /// The block-acceptance state machine. A candidate is accepted exactly
    /// when `spec_block_acceptable` holds of it against the current
    /// history; on acceptance it is appended and every transaction's
    /// effect is applied to the unspent-output set, and on rejection the
    /// chain is left completely unchanged, with the error naming the first
    /// failed check.
    pub fn add_block(&mut self, block: Block) -> (r: Result<(), Error>)
        requires
            old(self).wf(),
        ensures
            final(self).wf(),
            r is Ok <==> spec_block_acceptable(old(self).blocks_view(), block@),
            r is Ok ==> final(self).blocks_view() == old(self).blocks_view().push(block@),
            r is Ok ==> final(self).utxo_map() == spec_apply_block(old(self).utxo_map(), block@),
            r is Err ==> *final(self) == *old(self),
            r matches Err(e) ==> e == spec_rejection(old(self).blocks_view(), block@),
    {
        let n = self.blocks.len();
        proof {
            assert(self.blocks_view().len() == n);
        }
        if n == 0 {
            if block.header.prev_block_hash != crate::hash::Hash::zero() {
                return Err(Error::InvalidBlock);
            }
        } else {
            let last = &self.blocks[n - 1];
            let last_hash = last.hash();
            let last_ts = last.header.timestamp;
            proof {
                assert(self.blocks_view().last() == self.blocks@[n - 1]@);
            }
            if block.header.prev_block_hash != last_hash {
                return Err(Error::InvalidBlock);
            }
            let header_hash = block.header.hash();
            if !header_hash.matches_target(block.header.target) {
                return Err(Error::InvalidBlock);
            }
            let calculated = MerkleRoot::calculate(&block.transactions);
            if calculated != block.header.merkle_root {
                return Err(Error::InvalidMerkleRoot);
            }
            if block.header.timestamp <= last_ts {
                return Err(Error::InvalidBlock);
            }
        }
        apply_block_utxos(&mut self.utxos, &block);
        self.blocks.push(block);
        proof {
            assert(self.blocks_view() =~= old(self).blocks_view().push(
                self.blocks@.last()@,
            ));
            assert(self.blocks_view().drop_last() =~= old(self).blocks_view());
        }
        Ok(())
    }

    /// Full recomputation of the unspent-output set from the entire block
    /// history. Starting from nothing, every block's effect is applied in
    /// order, so on a well-formed chain the stored set is reproduced
    /// exactly: recomputation and incremental application agree.
    pub fn rebuild_utxos(&mut self)
        ensures
            final(self).blocks == old(self).blocks,
            final(self).wf(),
            final(self).utxo_map() == spec_chain_utxos(old(self).blocks_view()),
            old(self).wf() ==> final(self).utxo_map() == old(self).utxo_map(),
    {
        self.utxos = Vec::new();
        proof {
            assert(pairs_view(self.utxos@) =~= Seq::<(crate::hash::Hash, OutputV)>::empty());
        }
        let ghost bv = self.blocks_view();
        let mut b: usize = 0;
        while b < self.blocks.len()
            invariant
                b <= self.blocks@.len(),
                self.blocks == old(self).blocks,
                bv == self.blocks_view(),
                bv.len() == self.blocks@.len(),
                keys_distinct(pairs_view(self.utxos@)),
                to_map(pairs_view(self.utxos@)) == spec_chain_utxos(bv.take(b as int)),
            decreases self.blocks@.len() - b,
        {
            proof {
                assert(bv.take(b + 1).drop_last() =~= bv.take(b as int));
                assert(bv.take(b + 1).last() == bv[b as int]);
                assert(bv[b as int] == self.blocks@[b as int]@);
            }
            apply_block_utxos(&mut self.utxos, &self.blocks[b]);
            b = b + 1;
        }
        proof {
            assert(bv.take(bv.len() as int) =~= bv);
        }
    }
}

/// The unspent-output set a well-formed chain carries is exactly the one
/// its whole block history denotes: incremental application and full
/// recomputation agree on every key/output pair.
pub proof fn lemma_utxo_consistency(c: Blockchain)
    requires
        c.wf(),
    ensures
        c.utxo_map() == spec_chain_utxos(c.blocks_view()),
{
}

/// A first block whose predecessor digest is the zero sentinel is
/// acceptable whatever its target and Merkle values hold.
pub proof fn lemma_genesis_acceptance(blocks: Seq<BlockV>, b: BlockV)
    requires
        blocks.len() == 0,
        b.header.prev_block_hash == spec_zero_hash(),
    ensures
        spec_block_acceptable(blocks, b),
{
}

/// A candidate whose predecessor digest differs from the digest of the
/// current last block is never acceptable, whatever else it holds.
pub proof fn lemma_linkage_rejection(blocks: Seq<BlockV>, b: BlockV)
    requires
        blocks.len() > 0,
        b.header.prev_block_hash != spec_block_hash(blocks.last()),
    ensures
        !spec_block_acceptable(blocks, b),
{
}

} // verus!
