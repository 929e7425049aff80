//! End-to-end behavior of the ledger primitives: deterministic encoding,
//! avalanche of the content addresses, signature round trips, Merkle
//! roots, and chain assembly.

use blockchain::batch::Txns;
use blockchain::block::Block;
use blockchain::chain::Blockchain;
use blockchain::keys::Keypair;
use blockchain::txn::Txn;
use blockchain::user::User;
use blockchain::{BatchError, Valid};

fn test_user(tag: u8) -> User {
    User::new(vec![b'u', tag], 1_000 + tag as u128, 40 + tag as u64, vec![tag; 32])
}

fn signing_user() -> (User, Keypair) {
    let keypair = Keypair::generate();
    let user = User::new(b"signer".to_vec(), 7_000, 99, keypair.public.clone());
    (user, keypair)
}

fn hash_pair(a: &[u8], b: &[u8]) -> Vec<u8> {
    let mut joined = a.to_vec();
    joined.extend_from_slice(b);
    blake3::hash(&joined).as_bytes().to_vec()
}

#[test]
fn encoding_is_deterministic() {
    let sender = test_user(1);
    let recipient = test_user(2);
    let a = Txn::new(&sender, &recipient, 10, 5_000);
    let b = Txn::new(&sender, &recipient, 10, 5_000);
    assert_eq!(a.to_bytes(), b.to_bytes());
    assert_eq!(a.id, b.id);
    let u1 = test_user(3);
    let u2 = test_user(3);
    assert_eq!(u1.to_bytes(), u2.to_bytes());
    assert_eq!(u1.address, u2.address);
}

#[test]
fn txn_id_avalanche() {
    let sender = test_user(1);
    let recipient = test_user(2);
    let other = test_user(9);
    let base = Txn::new(&sender, &recipient, 10, 5_000);
    let amount_changed = Txn::new(&sender, &recipient, 11, 5_000);
    let time_changed = Txn::new(&sender, &recipient, 10, 5_001);
    let sender_changed = Txn::new(&other, &recipient, 10, 5_000);
    let recipient_changed = Txn::new(&sender, &other, 10, 5_000);
    assert_ne!(base.id, amount_changed.id);
    assert_ne!(base.id, time_changed.id);
    assert_ne!(base.id, sender_changed.id);
    assert_ne!(base.id, recipient_changed.id);
}

#[test]
fn block_hash_avalanche() {
    let batch = Txns::new();
    let base = Block::new(vec![0; 32], batch, 0, 9_000, 77);
    let index_changed = Block::new(vec![0; 32], Txns::new(), 1, 9_000, 77);
    let time_changed = Block::new(vec![0; 32], Txns::new(), 0, 9_001, 77);
    let nonce_changed = Block::new(vec![0; 32], Txns::new(), 0, 9_000, 78);
    let prev_changed = Block::new(vec![1; 32], Txns::new(), 0, 9_000, 77);
    assert_ne!(base.hash, index_changed.hash);
    assert_ne!(base.hash, time_changed.hash);
    assert_ne!(base.hash, nonce_changed.hash);
    assert_ne!(base.hash, prev_changed.hash);
}

#[test]
fn signature_round_trip() {
    let (user, keypair) = signing_user();
    let recipient = test_user(2);
    let mut txn = Txn::new(&user, &recipient, 10, 5_000);
    txn.sign(&keypair);
    assert_eq!(txn.verify(&user.public_key), Valid::Valid);
}

#[test]
fn signature_rejected_under_other_key() {
    let (user, keypair) = signing_user();
    let stranger = Keypair::generate();
    let recipient = test_user(2);
    let mut txn = Txn::new(&user, &recipient, 10, 5_000);
    txn.sign(&keypair);
    assert_eq!(txn.verify(&stranger.public), Valid::Invalid);
}

#[test]
fn unsigned_txn_is_invalid() {
    let (user, _keypair) = signing_user();
    let recipient = test_user(2);
    let txn = Txn::new(&user, &recipient, 10, 5_000);
    assert_eq!(txn.verify(&user.public_key), Valid::Invalid);
}

#[test]
fn tampering_breaks_the_signature() {
    let (user, keypair) = signing_user();
    let recipient = test_user(2);
    let mut txn = Txn::new(&user, &recipient, 10, 5_000);
    txn.sign(&keypair);
    txn.amount = 11;
    assert_eq!(txn.verify(&user.public_key), Valid::Invalid);
}

fn three_txn_batch(amounts: [u64; 3]) -> Txns {
    let sender = test_user(1);
    let recipient = test_user(2);
    let mut batch = Txns::new();
    for amount in amounts {
        batch.add(Txn::new(&sender, &recipient, amount, 5_000));
    }
    batch
}

#[test]
fn merkle_root_of_three_leaves() {
    let mut batch = three_txn_batch([10, 11, 12]);
    let a = batch.txns[0].id.clone();
    let b = batch.txns[1].id.clone();
    let c = batch.txns[2].id.clone();
    batch.calc_merkle_root().unwrap();
    let expected = hash_pair(&hash_pair(&a, &b), &hash_pair(&c, &c));
    assert_eq!(batch.merkle_root, expected);
}

#[test]
fn merkle_root_is_order_sensitive() {
    let sender = test_user(1);
    let recipient = test_user(2);
    let t_a = Txn::new(&sender, &recipient, 10, 5_000);
    let t_b = Txn::new(&sender, &recipient, 11, 5_000);
    let t_c = Txn::new(&sender, &recipient, 12, 5_000);
    let mut abc = Txns::new();
    let mut bac = Txns::new();
    for t in [&t_a, &t_b, &t_c] {
        let mut copy = Txn::new(&sender, &recipient, t.amount, t.timestamp);
        copy.signature = t.signature.clone();
        abc.add(copy);
    }
    for t in [&t_b, &t_a, &t_c] {
        let mut copy = Txn::new(&sender, &recipient, t.amount, t.timestamp);
        copy.signature = t.signature.clone();
        bac.add(copy);
    }
    abc.calc_merkle_root().unwrap();
    bac.calc_merkle_root().unwrap();
    assert_ne!(abc.merkle_root, bac.merkle_root);
}

#[test]
fn merkle_root_of_single_leaf_is_the_leaf() {
    let sender = test_user(1);
    let recipient = test_user(2);
    let mut batch = Txns::new();
    batch.add(Txn::new(&sender, &recipient, 10, 5_000));
    let leaf = batch.txns[0].id.clone();
    batch.calc_merkle_root().unwrap();
    assert_eq!(batch.merkle_root, leaf);
}

#[test]
fn empty_batch_root_is_rejected() {
    let mut batch = Txns::new();
    assert!(matches!(batch.calc_merkle_root(), Err(BatchError::Empty)));
    assert_eq!(batch.merkle_root, vec![0u8; 32]);
}

#[test]
fn chain_links_and_keeps_insertion_order() {
    let mut batch1 = three_txn_batch([10, 11, 12]);
    batch1.calc_merkle_root().unwrap();
    let block1 = Block::new(vec![0; 32], batch1, 0, 9_000, 1);
    let mut batch2 = three_txn_batch([20, 21, 22]);
    batch2.calc_merkle_root().unwrap();
    let block2 = Block::new(block1.hash.clone(), batch2, 1, 9_001, 2);
    assert_ne!(block2.hash, block1.hash);
    assert_eq!(block2.prev_hash, block1.hash);

    let hash1 = block1.hash.clone();
    let hash2 = block2.hash.clone();
    let mut chain = Blockchain::new(9_002);
    chain.add_block(block1);
    chain.add_block(block2);
    assert_eq!(chain.blocks.len(), 2);
    assert_eq!(chain.blocks[0].hash, hash1);
    assert_eq!(chain.blocks[1].hash, hash2);

    // The chain performs no validation: a block with an arbitrary
    // prev_hash is accepted as well.
    let mut orphan_batch = three_txn_batch([30, 31, 32]);
    orphan_batch.calc_merkle_root().unwrap();
    let orphan = Block::new(vec![9; 32], orphan_batch, 7, 9_003, 3);
    chain.add_block(orphan);
    assert_eq!(chain.blocks.len(), 3);
    assert_eq!(chain.blocks[2].prev_hash, vec![9u8; 32]);
    assert_eq!(chain.verify(), Valid::Valid);
}

#[test]
fn end_to_end_scenario() {
    let keypair1 = Keypair::generate();
    let user1 = User::new(b"u1".to_vec(), 1_000, 41, keypair1.public.clone());
    let user2 = User::new(b"u2".to_vec(), 1_001, 42, Keypair::generate().public);

    let mut txns1 = Txns::new();
    for amount in [10u64, 11, 12] {
        let mut txn = Txn::new(&user1, &user2, amount, 2_000);
        txn.sign(&keypair1);
        txns1.add(txn);
    }
    txns1.calc_merkle_root().unwrap();
    assert_eq!(txns1.verify(), Valid::Valid);

    let mut txns2 = Txns::new();
    for amount in [20u64, 21, 22] {
        txns2.add(Txn::new(&user1, &user2, amount, 2_001));
    }
    txns2.calc_merkle_root().unwrap();
    assert_eq!(txns2.verify(), Valid::Valid);

    let block1 = Block::new(vec![0; 32], txns1, 0, 3_000, 51);
    let block2 = Block::new(block1.hash.clone(), txns2, 1, 3_001, 52);

    let mut blockchain = Blockchain::new(3_002);
    blockchain.add_block(block1);
    blockchain.add_block(block2);

    let t_txn = &blockchain.blocks[0].txns.txns[0];
    assert_eq!(t_txn.verify(&user1.public_key), Valid::Valid);
}
