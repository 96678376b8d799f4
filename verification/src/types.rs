//! The ledger entities: outputs, inputs, transactions, block headers and
//! blocks, each with its canonical encoding and derived digest.

use vstd::prelude::*;
use crate::u256::U256;
use crate::crypto::{PublicKey, Signature};
use crate::encode::{
    push_bytes, push_hash, push_u128_le, push_u256_le, push_u64_le, spec_enc_bytes, spec_enc_hash,
    spec_enc_u128, spec_enc_u256, spec_enc_u64,
};
use crate::hash::spec_hash_of_bytes;

verus! {

/// Spendable value locked to a public key. `unique_id` disambiguates
/// otherwise identical outputs.
#[derive(Debug, PartialEq, Eq)]
pub struct TransactionOutput {
    pub value: u64,
    pub unique_id: u128,
    pub pubkey: PublicKey,
}

/// The mathematical content of an output.
#[verifier::ext_equal]
pub ghost struct OutputV {
    pub value: u64,
    pub unique_id: u128,
    pub pubkey: Seq<u8>,
}

impl View for TransactionOutput {
    type V = OutputV;

    open spec fn view(&self) -> OutputV {
        OutputV { value: self.value, unique_id: self.unique_id, pubkey: self.pubkey@ }
    }
}

impl Clone for TransactionOutput {
    fn clone(&self) -> (r: Self)
        ensures
            r@ == self@,
    {
        TransactionOutput {
            value: self.value,
            unique_id: self.unique_id,
            pubkey: self.pubkey.clone(),
        }
    }
}

/// Canonical encoding of an output: value, unique id, then the public key.
pub open spec fn spec_enc_output(o: OutputV) -> Seq<u8> {
    spec_enc_u64(o.value) + spec_enc_u128(o.unique_id) + spec_enc_bytes(o.pubkey)
}

/// The digest identifying an output by its own contents.
pub open spec fn spec_output_hash(o: OutputV) -> crate::hash::Hash {
    spec_hash_of_bytes(spec_enc_output(o))
}

impl TransactionOutput {
    /// The canonical byte form of this output.
    pub fn encode(&self) -> (r: Vec<u8>)
        ensures
            r@ == spec_enc_output(self@),
    {
        let mut out: Vec<u8> = Vec::new();
        push_u64_le(&mut out, self.value);
        push_u128_le(&mut out, self.unique_id);
        push_bytes(&mut out, &self.pubkey.0);
        proof {
            assert(out@ =~= spec_enc_output(self@));
        }
        out
    }

    /// The digest of this output's contents.
    pub fn hash(&self) -> (r: crate::hash::Hash)
        ensures
            r == spec_output_hash(self@),
    {
        crate::hash::Hash::hash(&self.encode())
    }
}

/// A claim to spend a previously created output, authorized by a signature
/// over the spent output's hash.
#[derive(Debug, PartialEq, Eq)]
pub struct TransactionInput {
    pub prev_transaction_output_hash: crate::hash::Hash,
    pub signature: Signature,
}

/// The mathematical content of an input.
#[verifier::ext_equal]
pub ghost struct InputV {
    pub prev_transaction_output_hash: crate::hash::Hash,
    pub signature: Seq<u8>,
}

impl View for TransactionInput {
    type V = InputV;

    open spec fn view(&self) -> InputV {
        InputV {
            prev_transaction_output_hash: self.prev_transaction_output_hash,
            signature: self.signature@,
        }
    }
}

impl Clone for TransactionInput {
    fn clone(&self) -> (r: Self)
        ensures
            r@ == self@,
    {
        TransactionInput {
            prev_transaction_output_hash: self.prev_transaction_output_hash,
            signature: self.signature.clone(),
        }
    }
}

/// Canonical encoding of an input: spent-output digest, then the signature.
pub open spec fn spec_enc_input(i: InputV) -> Seq<u8> {
    spec_enc_hash(i.prev_transaction_output_hash) + spec_enc_bytes(i.signature)
}

impl TransactionInput {
    /// The canonical byte form of this input.
    pub fn encode_into(&self, out: &mut Vec<u8>)
        ensures
            final(out)@ == old(out)@ + spec_enc_input(self@),
    {
        push_hash(out, &self.prev_transaction_output_hash);
        push_bytes(out, &self.signature.0);
        proof {
            assert(final(out)@ =~= old(out)@ + spec_enc_input(self@));
        }
    }
}

/// An ordered set of spends and an ordered set of newly created outputs.
#[derive(Debug, PartialEq, Eq)]
pub struct Transaction {
    pub inputs: Vec<TransactionInput>,
    pub outputs: Vec<TransactionOutput>,
}

/// The mathematical content of a transaction.
#[verifier::ext_equal]
pub ghost struct TxV {
    pub inputs: Seq<InputV>,
    pub outputs: Seq<OutputV>,
}

impl View for Transaction {
    type V = TxV;

    open spec fn view(&self) -> TxV {
        TxV {
            inputs: self.inputs@.map_values(|i: TransactionInput| i@),
            outputs: self.outputs@.map_values(|o: TransactionOutput| o@),
        }
    }
}

/// The concatenated encodings of a sequence of inputs, in order.
pub open spec fn spec_enc_input_seq(s: Seq<InputV>) -> Seq<u8>
    decreases s.len(),
{
    if s.len() == 0 {
        Seq::empty()
    } else {
        spec_enc_input_seq(s.drop_last()) + spec_enc_input(s.last())
    }
}

/// The concatenated encodings of a sequence of outputs, in order.
pub open spec fn spec_enc_output_seq(s: Seq<OutputV>) -> Seq<u8>
    decreases s.len(),
{
    if s.len() == 0 {
        Seq::empty()
    } else {
        spec_enc_output_seq(s.drop_last()) + spec_enc_output(s.last())
    }
}

/// Canonical encoding of a transaction: its inputs, then its outputs, each
/// list length-prefixed.
pub open spec fn spec_enc_tx(t: TxV) -> Seq<u8> {
    spec_enc_u64(t.inputs.len() as u64) + spec_enc_input_seq(t.inputs) + spec_enc_u64(
        t.outputs.len() as u64,
    ) + spec_enc_output_seq(t.outputs)
}

/// The digest identifying a transaction.
pub open spec fn spec_tx_hash(t: TxV) -> crate::hash::Hash {
    spec_hash_of_bytes(spec_enc_tx(t))
}

impl Transaction {
    /// Assembles a transaction from its parts.
    pub fn new(inputs: Vec<TransactionInput>, outputs: Vec<TransactionOutput>) -> (r: Transaction)
        ensures
            r@.inputs == inputs@.map_values(|i: TransactionInput| i@),
            r@.outputs == outputs@.map_values(|o: TransactionOutput| o@),
    {
        Transaction { inputs, outputs }
    }

    /// The canonical byte form of this transaction.
    pub fn encode_into(&self, out: &mut Vec<u8>)
        ensures
            final(out)@ == old(out)@ + spec_enc_tx(self@),
    {
        push_u64_le(out, self.inputs.len() as u64);
        let ghost iv = self@.inputs;
        let mut i: usize = 0;
        while i < self.inputs.len()
            invariant
                i <= self.inputs@.len(),
                iv == self@.inputs,
                iv.len() == self.inputs@.len(),
                out@ == old(out)@ + spec_enc_u64(self.inputs@.len() as u64) + spec_enc_input_seq(
                    iv.take(i as int),
                ),
            decreases self.inputs@.len() - i,
        {
            let inp = &self.inputs[i];
            proof {
                assert(iv.take(i + 1).drop_last() =~= iv.take(i as int));
                assert(iv.take(i + 1).last() == iv[i as int]);
                assert(iv[i as int] == self.inputs@[i as int]@);
            }
            inp.encode_into(out);
            i = i + 1;
        }
        proof {
            assert(iv.take(iv.len() as int) =~= iv);
        }
        push_u64_le(out, self.outputs.len() as u64);
        let ghost mid = out@;
        let ghost ov = self@.outputs;
        let mut j: usize = 0;
        while j < self.outputs.len()
            invariant
                j <= self.outputs@.len(),
                ov == self@.outputs,
                ov.len() == self.outputs@.len(),
                out@ == mid + spec_enc_output_seq(ov.take(j as int)),
            decreases self.outputs@.len() - j,
        {
            let o = &self.outputs[j];
            proof {
                assert(ov.take(j + 1).drop_last() =~= ov.take(j as int));
                assert(ov.take(j + 1).last() == ov[j as int]);
                assert(ov[j as int] == self.outputs@[j as int]@);
            }
            let enc = o.encode();
            let mut k: usize = 0;
            let ghost before = out@;
            while k < enc.len()
                invariant
                    k <= enc@.len(),
                    out@ == before + enc@.take(k as int),
                decreases enc@.len() - k,
            {
                out.push(enc[k]);
                proof {
                    assert(enc@.take(k + 1) =~= enc@.take(k as int).push(enc@[k as int]));
                }
                k = k + 1;
            }
            proof {
                assert(enc@.take(enc@.len() as int) =~= enc@);
                assert(out@ =~= mid + spec_enc_output_seq(ov.take(j + 1)));
            }
            j = j + 1;
        }
        proof {
            assert(ov.take(ov.len() as int) =~= ov);
            assert(final(out)@ =~= old(out)@ + spec_enc_tx(self@));
        }
    }

    /// The digest identifying this transaction.
    pub fn hash(&self) -> (r: crate::hash::Hash)
        ensures
            r == spec_tx_hash(self@),
    {
        let mut out: Vec<u8> = Vec::new();
        self.encode_into(&mut out);
        crate::hash::Hash::hash(&out)
    }
}

/// The mined commitment over a block's content: timestamp, nonce, the
/// previous block's digest, the Merkle root, and the declared target.
#[derive(Clone, Copy, Debug, PartialEq, Eq, Structural)]
pub struct BlockHeader {
    /// Seconds since the Unix epoch.
    pub timestamp: u64,
    /// Nonce chosen by the miner so the header digest meets the target.
    pub nonce: u64,
    /// Digest of the previous block, or the zero sentinel for genesis.
    pub prev_block_hash: crate::hash::Hash,
    /// Merkle root of the block's transactions.
    pub merkle_root: crate::merkle::MerkleRoot,
    /// The declared difficulty target.
    pub target: U256,
}

/// Canonical encoding of a header, in declared field order.
pub open spec fn spec_enc_header(h: BlockHeader) -> Seq<u8> {
    spec_enc_u64(h.timestamp) + spec_enc_u64(h.nonce) + spec_enc_hash(h.prev_block_hash)
        + spec_enc_hash(h.merkle_root.0) + spec_enc_u256(h.target)
}

/// The digest of a header alone: the value the proof-of-work check binds
/// to the target. Distinct from the containing block's digest.
pub open spec fn spec_header_hash(h: BlockHeader) -> crate::hash::Hash {
    spec_hash_of_bytes(spec_enc_header(h))
}

impl BlockHeader {
    /// Assembles a header from its parts.
    pub fn new(
        timestamp: u64,
        nonce: u64,
        prev_block_hash: crate::hash::Hash,
        merkle_root: crate::merkle::MerkleRoot,
        target: U256,
    ) -> (r: BlockHeader)
        ensures
            r == (BlockHeader { timestamp, nonce, prev_block_hash, merkle_root, target }),
    {
        BlockHeader { timestamp, nonce, prev_block_hash, merkle_root, target }
    }

    /// The canonical byte form of this header.
    pub fn encode(&self) -> (r: Vec<u8>)
        ensures
            r@ == spec_enc_header(*self),
    {
        let mut out: Vec<u8> = Vec::new();
        push_u64_le(&mut out, self.timestamp);
        push_u64_le(&mut out, self.nonce);
        push_hash(&mut out, &self.prev_block_hash);
        push_hash(&mut out, &self.merkle_root.0);
        push_u256_le(&mut out, &self.target);
        proof {
            assert(out@ =~= spec_enc_header(*self));
        }
        out
    }

    /// The header digest used for the proof-of-work check.
    pub fn hash(&self) -> (r: crate::hash::Hash)
        ensures
            r == spec_header_hash(*self),
    {
        crate::hash::Hash::hash(&self.encode())
    }
}

/// A header together with the transactions it commits to.
#[derive(Debug, PartialEq, Eq)]
pub struct Block {
    pub header: BlockHeader,
    pub transactions: Vec<Transaction>,
}

/// The mathematical content of a block.
#[verifier::ext_equal]
pub ghost struct BlockV {
    pub header: BlockHeader,
    pub transactions: Seq<TxV>,
}

impl View for Block {
    type V = BlockV;

    open spec fn view(&self) -> BlockV {
        BlockV {
            header: self.header,
            transactions: self.transactions@.map_values(|t: Transaction| t@),
        }
    }
}

/// The concatenated encodings of a sequence of transactions, in order.
pub open spec fn spec_enc_tx_seq(s: Seq<TxV>) -> Seq<u8>
    decreases s.len(),
{
    if s.len() == 0 {
        Seq::empty()
    } else {
        spec_enc_tx_seq(s.drop_last()) + spec_enc_tx(s.last())
    }
}

/// Canonical encoding of a whole block: the header, then the
/// length-prefixed transaction list.
pub open spec fn spec_enc_block(b: BlockV) -> Seq<u8> {
    spec_enc_header(b.header) + spec_enc_u64(b.transactions.len() as u64) + spec_enc_tx_seq(
        b.transactions,
    )
}

/// The digest of a whole block: header and transaction bodies together.
pub open spec fn spec_block_hash(b: BlockV) -> crate::hash::Hash {
    spec_hash_of_bytes(spec_enc_block(b))
}

impl Block {
    /// Assembles a block from a header and its transactions.
    pub fn new(header: BlockHeader, transactions: Vec<Transaction>) -> (r: Block)
        ensures
            r@.header == header,
            r@.transactions == transactions@.map_values(|t: Transaction| t@),
    {
        Block { header, transactions }
    }

    /// The canonical byte form of this block.
    pub fn encode(&self) -> (r: Vec<u8>)
        ensures
            r@ == spec_enc_block(self@),
    {
        let mut out: Vec<u8> = Vec::new();
        let header_enc = self.header.encode();
        let mut k: usize = 0;
        while k < header_enc.len()
            invariant
                k <= header_enc@.len(),
                out@ == header_enc@.take(k as int),
            decreases header_enc@.len() - k,
        {
            out.push(header_enc[k]);
            proof {
                assert(header_enc@.take(k + 1) =~= header_enc@.take(k as int).push(
                    header_enc@[k as int],
                ));
            }
            k = k + 1;
        }
        proof {
            assert(header_enc@.take(header_enc@.len() as int) =~= header_enc@);
        }
        push_u64_le(&mut out, self.transactions.len() as u64);
        let ghost mid = out@;
        let ghost tv = self@.transactions;
        let mut i: usize = 0;
        while i < self.transactions.len()
            invariant
                i <= self.transactions@.len(),
                tv == self@.transactions,
                tv.len() == self.transactions@.len(),
                out@ == mid + spec_enc_tx_seq(tv.take(i as int)),
            decreases self.transactions@.len() - i,
        {
            let t = &self.transactions[i];
            proof {
                assert(tv.take(i + 1).drop_last() =~= tv.take(i as int));
                assert(tv.take(i + 1).last() == tv[i as int]);
                assert(tv[i as int] == self.transactions@[i as int]@);
            }
            t.encode_into(&mut out);
            i = i + 1;
        }
        proof {
            assert(tv.take(tv.len() as int) =~= tv);
            assert(out@ =~= spec_enc_block(self@));
        }
        out
    }

    /// The digest of the whole block, header and transactions together.
    pub fn hash(&self) -> (r: crate::hash::Hash)
        ensures
            r == spec_block_hash(self@),
    {
        crate::hash::Hash::hash(&self.encode())
    }
}

} // verus!
