use ledger_core::chain::Blockchain;
use ledger_core::crypto::{deserialize, serialize, PrivateKey, PublicKey, Signature};
use ledger_core::error::Error;

use ledger_core::merkle::MerkleRoot;
use ledger_core::min_target;
use ledger_core::types::{Block, BlockHeader, Transaction, TransactionInput, TransactionOutput};
use ledger_core::u256::U256;

fn u256_max() -> U256 {
    U256 { limb0: u64::MAX, limb1: u64::MAX, limb2: u64::MAX, limb3: u64::MAX }
}

fn dummy_output(value: u64, unique_id: u128) -> TransactionOutput {
    TransactionOutput { value, unique_id, pubkey: PublicKey(vec![2u8; 33]) }
}

fn dummy_input(prev: ledger_core::hash::Hash) -> TransactionInput {
    TransactionInput { prev_transaction_output_hash: prev, signature: Signature(vec![0u8; 64]) }
}

fn genesis_block(transactions: Vec<Transaction>, timestamp: u64) -> Block {
    let merkle_root = MerkleRoot::calculate(&transactions);
    let header = BlockHeader::new(timestamp, 0, ledger_core::hash::Hash::zero(), merkle_root, u256_max());
    Block::new(header, transactions)
}

fn next_block(prev: &Block, transactions: Vec<Transaction>, timestamp: u64) -> Block {
    let merkle_root = MerkleRoot::calculate(&transactions);
    let header = BlockHeader::new(timestamp, 0, prev.hash(), merkle_root, u256_max());
    Block::new(header, transactions)
}

#[test]
fn hash_known_value() {
    // SHA-256 of "hello", read as a big-endian 256-bit number.
    let h = ledger_core::hash::Hash::hash(&b"hello".to_vec());
    assert_eq!(
        h,
        ledger_core::hash::Hash(U256 {
            limb3: 0x2cf24dba5fb0a30e,
            limb2: 0x26e83b2ac5b9e29e,
            limb1: 0x1b161e5c1fa7425e,
            limb0: 0x73043362938b9824,
        })
    );
}

#[test]
fn hash_zero_and_as_bytes() {
    let z = ledger_core::hash::Hash::zero();
    assert_eq!(z.as_bytes(), vec![0u8; 32]);
    let h = ledger_core::hash::Hash::hash(&b"hello".to_vec());
    let bytes = h.as_bytes();
    assert_eq!(bytes.len(), 32);
    // Little-endian: lowest byte of the lowest limb first.
    assert_eq!(bytes[0], 0x24);
    assert_eq!(bytes[31], 0x2c);
}

#[test]
fn matches_target_boundaries() {
    let h = ledger_core::hash::Hash(U256 { limb0: 5, limb1: 0, limb2: 0, limb3: 1 });
    assert!(h.matches_target(U256 { limb0: 5, limb1: 0, limb2: 0, limb3: 1 }));
    assert!(h.matches_target(U256 { limb0: 4, limb1: 0, limb2: 0, limb3: 2 }));
    assert!(!h.matches_target(U256 { limb0: 6, limb1: 0, limb2: 0, limb3: 0 }));
    assert!(!h.matches_target(U256 { limb0: 4, limb1: 0, limb2: 0, limb3: 1 }));
    assert!(ledger_core::hash::Hash::zero().matches_target(U256 { limb0: 0, limb1: 0, limb2: 0, limb3: 0 }));
}

#[test]
fn min_target_value() {
    let t = min_target();
    assert_eq!(t.limb0, 0xFFFF_FFFF_FFFF);
    assert_eq!(t.limb1, 0xFFFF_FFFF_FFFF);
    assert_eq!(t.limb2, 0xFFFF_FFFF_FFFF);
    assert_eq!(t.limb3, 0x0000_FFFF_FFFF);
}

#[test]
fn encode_u64_layout() {
    let mut out: Vec<u8> = Vec::new();
    ledger_core::encode::push_u64_le(&mut out, 0x0102030405060708);
    assert_eq!(out, vec![8, 7, 6, 5, 4, 3, 2, 1]);
}

#[test]
fn merkle_deterministic() {
    let txs_a = vec![
        Transaction::new(vec![], vec![dummy_output(10, 1)]),
        Transaction::new(vec![], vec![dummy_output(20, 2)]),
    ];
    let txs_b = vec![
        Transaction::new(vec![], vec![dummy_output(10, 1)]),
        Transaction::new(vec![], vec![dummy_output(20, 2)]),
    ];
    assert_eq!(MerkleRoot::calculate(&txs_a), MerkleRoot::calculate(&txs_b));
}

#[test]
fn merkle_order_sensitive() {
    let t1 = Transaction::new(vec![], vec![dummy_output(10, 1)]);
    let t2 = Transaction::new(vec![], vec![dummy_output(20, 2)]);
    let fwd = MerkleRoot::calculate(&vec![
        Transaction::new(vec![], vec![dummy_output(10, 1)]),
        Transaction::new(vec![], vec![dummy_output(20, 2)]),
    ]);
    let rev = MerkleRoot::calculate(&vec![t2, t1]);
    assert_ne!(fwd, rev);
}

fn pair(l: &ledger_core::hash::Hash, r: &ledger_core::hash::Hash) -> ledger_core::hash::Hash {
    let mut v = l.as_bytes();
    v.extend(r.as_bytes());
    ledger_core::hash::Hash::hash(&v)
}

#[test]
fn merkle_single_is_leaf_hash() {
    let t = Transaction::new(vec![], vec![dummy_output(7, 7)]);
    let leaf = t.hash();
    assert_eq!(MerkleRoot::calculate(&vec![t]), MerkleRoot(leaf));
}

#[test]
fn merkle_odd_layer_duplicates_last() {
    let txs = vec![
        Transaction::new(vec![], vec![dummy_output(1, 1)]),
        Transaction::new(vec![], vec![dummy_output(2, 2)]),
        Transaction::new(vec![], vec![dummy_output(3, 3)]),
    ];
    let h0 = txs[0].hash();
    let h1 = txs[1].hash();
    let h2 = txs[2].hash();
    let expected = pair(&pair(&h0, &h1), &pair(&h2, &h2));
    assert_eq!(MerkleRoot::calculate(&txs), MerkleRoot(expected));
}

#[test]
fn merkle_empty_is_zero_sentinel() {
    assert_eq!(MerkleRoot::calculate(&vec![]), MerkleRoot(ledger_core::hash::Hash::zero()));
}

#[test]
fn sign_verify_roundtrip() {
    let key = PrivateKey::new_key();
    let pubkey = key.public_key();
    let h = ledger_core::hash::Hash::hash(&b"spend".to_vec());
    let sig = Signature::sign_output(&h, &key);
    assert!(sig.verify(&h, &pubkey));
    let other = ledger_core::hash::Hash::hash(&b"other".to_vec());
    assert!(!sig.verify(&other, &pubkey));
}

#[test]
fn verify_false_for_wrong_key_and_garbage() {
    let key = PrivateKey::new_key();
    let other_key = PrivateKey::new_key();
    let h = ledger_core::hash::Hash::hash(&b"spend".to_vec());
    let sig = Signature::sign_output(&h, &key);
    assert!(!sig.verify(&h, &other_key.public_key()));
    let garbage = Signature(vec![1u8; 10]);
    assert!(!garbage.verify(&h, &key.public_key()));
    let bad_pub = PublicKey(vec![9u8; 33]);
    assert!(!sig.verify(&h, &bad_pub));
}

#[test]
fn private_key_serialization_roundtrip() {
    let key = PrivateKey::new_key();
    let bytes = serialize(&key);
    assert_eq!(bytes.len(), 32);
    let back = deserialize(&bytes).expect("exported key bytes must parse back");
    assert_eq!(serialize(&back), bytes);
    assert_eq!(back.public_key(), key.public_key());
    let h = ledger_core::hash::Hash::hash(&b"same message".to_vec());
    assert_eq!(Signature::sign_output(&h, &back), Signature::sign_output(&h, &key));
}

#[test]
fn deserialize_rejects_bad_bytes() {
    assert!(deserialize(&vec![0u8; 32]).is_none());
    assert!(deserialize(&vec![1u8, 2, 3]).is_none());
}

#[test]
fn genesis_accepted() {
    let mut chain = Blockchain::new();
    let block = genesis_block(vec![Transaction::new(vec![], vec![dummy_output(50, 1)])], 100);
    assert!(chain.add_block(block).is_ok());
    assert_eq!(chain.blocks.len(), 1);
}

#[test]
fn genesis_with_empty_transactions_accepted() {
    let mut chain = Blockchain::new();
    let block = genesis_block(vec![], 100);
    assert!(chain.add_block(block).is_ok());
    assert_eq!(chain.blocks.len(), 1);
}

#[test]
fn genesis_wrong_prev_rejected() {
    let mut chain = Blockchain::new();
    let mut block = genesis_block(vec![], 100);
    block.header.prev_block_hash = ledger_core::hash::Hash::hash(&b"not zero".to_vec());
    assert_eq!(chain.add_block(block), Err(Error::InvalidBlock));
    assert_eq!(chain.blocks.len(), 0);
}

#[test]
fn second_block_accepted() {
    let mut chain = Blockchain::new();
    let genesis = genesis_block(vec![Transaction::new(vec![], vec![dummy_output(50, 1)])], 100);
    let block2 = next_block(&genesis, vec![Transaction::new(vec![], vec![dummy_output(25, 2)])], 200);
    assert!(chain.add_block(genesis).is_ok());
    assert!(chain.add_block(block2).is_ok());
    assert_eq!(chain.blocks.len(), 2);
}

#[test]
fn second_block_wrong_prev_rejected() {
    let mut chain = Blockchain::new();
    let genesis = genesis_block(vec![Transaction::new(vec![], vec![dummy_output(50, 1)])], 100);
    assert!(chain.add_block(genesis).is_ok());
    let utxos_before = chain.utxos.clone();
    // Deliberately wrong: the zero sentinel again instead of genesis's hash.
    let bad = genesis_block(vec![], 200);
    assert_eq!(chain.add_block(bad), Err(Error::InvalidBlock));
    assert_eq!(chain.blocks.len(), 1);
    assert_eq!(chain.utxos, utxos_before);
}

#[test]
fn second_block_misses_target_rejected() {
    let mut chain = Blockchain::new();
    let genesis = genesis_block(vec![], 100);
    let mut block2 = next_block(&genesis, vec![], 200);
    // An all-zero target is below any real header digest.
    block2.header.target = U256 { limb0: 0, limb1: 0, limb2: 0, limb3: 0 };
    assert!(chain.add_block(genesis).is_ok());
    assert_eq!(chain.add_block(block2), Err(Error::InvalidBlock));
    assert_eq!(chain.blocks.len(), 1);
}

#[test]
fn second_block_merkle_mismatch_rejected() {
    let mut chain = Blockchain::new();
    let genesis = genesis_block(vec![], 100);
    let mut block2 = next_block(
        &genesis,
        vec![Transaction::new(vec![], vec![dummy_output(25, 2)])],
        200,
    );
    // Flip a transaction byte after the header committed to the old root.
    block2.transactions[0].outputs[0].value = 26;
    assert!(chain.add_block(genesis).is_ok());
    assert_eq!(chain.add_block(block2), Err(Error::InvalidMerkleRoot));
    assert_eq!(chain.blocks.len(), 1);
}

#[test]
fn second_block_stale_timestamp_rejected() {
    let mut chain = Blockchain::new();
    let genesis = genesis_block(vec![], 100);
    let block2 = next_block(&genesis, vec![], 100);
    assert!(chain.add_block(genesis).is_ok());
    assert_eq!(chain.add_block(block2), Err(Error::InvalidBlock));
    assert_eq!(chain.blocks.len(), 1);
}

#[test]
fn utxos_track_spends_and_creations() {
    let mut chain = Blockchain::new();
    let out_a = dummy_output(30, 1);
    let out_b = dummy_output(20, 2);
    let key_a = out_a.hash();
    let key_b = out_b.hash();
    let genesis = genesis_block(vec![Transaction::new(vec![], vec![out_a, out_b])], 100);
    assert!(chain.add_block(genesis).is_ok());
    let keys: Vec<ledger_core::hash::Hash> = chain.utxos.iter().map(|p| p.0).collect();
    assert_eq!(chain.utxos.len(), 2);
    assert!(keys.contains(&key_a));
    assert!(keys.contains(&key_b));

    let out_c = dummy_output(29, 3);
    let key_c = out_c.hash();
    let spend = Transaction::new(vec![dummy_input(key_a)], vec![out_c]);
    let block2 = next_block(chain.blocks.last().unwrap(), vec![spend], 200);
    assert!(chain.add_block(block2).is_ok());
    let keys: Vec<ledger_core::hash::Hash> = chain.utxos.iter().map(|p| p.0).collect();
    assert_eq!(chain.utxos.len(), 2);
    assert!(!keys.contains(&key_a));
    assert!(keys.contains(&key_b));
    assert!(keys.contains(&key_c));
}

#[test]
fn rebuild_matches_incremental() {
    let mut chain = Blockchain::new();
    let out_a = dummy_output(30, 1);
    let out_b = dummy_output(20, 2);
    let key_a = out_a.hash();
    let genesis = genesis_block(vec![Transaction::new(vec![], vec![out_a, out_b])], 100);
    assert!(chain.add_block(genesis).is_ok());
    let spend = Transaction::new(vec![dummy_input(key_a)], vec![dummy_output(29, 3)]);
    let block2 = next_block(chain.blocks.last().unwrap(), vec![spend], 200);
    assert!(chain.add_block(block2).is_ok());

    let incremental = chain.utxos.clone();
    chain.rebuild_utxos();
    assert_eq!(chain.utxos, incremental);
    assert_eq!(chain.blocks.len(), 2);
}

#[test]
fn block_hash_differs_from_header_hash() {
    let block = genesis_block(vec![Transaction::new(vec![], vec![dummy_output(50, 1)])], 100);
    assert_ne!(block.hash(), block.header.hash());
}

#[test]
fn error_messages() {
    assert_eq!(Error::InvalidBlock.message(), "Invalid block");
    assert_eq!(Error::InvalidMerkleRoot.message(), "Invalid Merkle root");
    assert_eq!(Error::InvalidTransaction.message(), "Invalid transaction");
}
