//! The canonical codec: storage round trips for Identities and keypairs,
//! and rejection of corrupted bytes.

use blockchain::keys::Keypair;
use blockchain::txn::Txn;
use blockchain::user::{decode_user, User};
use blockchain::DecodeError;

#[test]
fn exact_address_formula() {
    // address = blake3(zero-address ‖ timestamp ‖ nonce ‖ public key ‖
    // uid length ‖ uid), all integers little-endian.
    let user = User::new(b"id".to_vec(), 258, 772, vec![9; 32]);
    let mut input = vec![0u8; 32];
    input.extend_from_slice(&258u128.to_le_bytes());
    input.extend_from_slice(&772u64.to_le_bytes());
    input.extend_from_slice(&[9; 32]);
    input.extend_from_slice(&2u64.to_le_bytes());
    input.extend_from_slice(b"id");
    assert_eq!(user.address, blake3::hash(&input).as_bytes().to_vec());
}

#[test]
fn exact_txn_id_formula() {
    // id = blake3(zero-id ‖ sender ‖ recipient ‖ amount ‖ timestamp ‖
    // empty-signature length ‖ nothing), all integers little-endian.
    let sender = User::new(b"a".to_vec(), 1, 2, vec![3; 32]);
    let recipient = User::new(b"b".to_vec(), 4, 5, vec![6; 32]);
    let txn = Txn::new(&sender, &recipient, 10, 5_000);
    let mut input = vec![0u8; 32];
    input.extend_from_slice(&sender.address);
    input.extend_from_slice(&recipient.address);
    input.extend_from_slice(&10u64.to_le_bytes());
    input.extend_from_slice(&5_000u128.to_le_bytes());
    input.extend_from_slice(&0u64.to_le_bytes());
    assert_eq!(txn.id, blake3::hash(&input).as_bytes().to_vec());
}

#[test]
fn user_storage_round_trip() {
    let user = User::new(b"round_trip".to_vec(), 123_456, 42, vec![5; 32]);
    let bytes = user.to_bytes();
    let loaded = decode_user(&bytes).unwrap();
    assert_eq!(loaded.address, user.address);
    assert_eq!(loaded.timestamp, user.timestamp);
    assert_eq!(loaded.nonce, user.nonce);
    assert_eq!(loaded.public_key, user.public_key);
    assert_eq!(loaded.uid, user.uid);
    assert_eq!(loaded.to_bytes(), bytes);
}

#[test]
fn user_with_empty_uid_round_trips() {
    let user = User::new(Vec::new(), 0, 0, vec![0; 32]);
    let loaded = decode_user(&user.to_bytes()).unwrap();
    assert_eq!(loaded.uid, Vec::<u8>::new());
    assert_eq!(loaded.address, user.address);
}

#[test]
fn truncated_user_bytes_are_rejected() {
    let user = User::new(b"short".to_vec(), 1, 2, vec![3; 32]);
    let mut bytes = user.to_bytes();
    bytes.pop();
    assert!(matches!(decode_user(&bytes), Err(DecodeError::Malformed)));
    assert!(decode_user(&vec![0u8; 95]).is_err());
    assert!(decode_user(&Vec::new()).is_err());
}

#[test]
fn user_bytes_with_padding_are_rejected() {
    let user = User::new(b"padded".to_vec(), 1, 2, vec![3; 32]);
    let mut bytes = user.to_bytes();
    bytes.push(0);
    assert!(decode_user(&bytes).is_err());
}

#[test]
fn keypair_storage_round_trip() {
    let keypair = Keypair::generate();
    let bytes = keypair.to_bytes();
    assert_eq!(bytes.len(), 64);
    let loaded = Keypair::from_bytes(&bytes).unwrap();
    assert_eq!(loaded.secret, keypair.secret);
    assert_eq!(loaded.public, keypair.public);
}

#[test]
fn keypair_with_wrong_length_is_rejected() {
    assert!(Keypair::from_bytes(&vec![0u8; 63]).is_err());
    assert!(Keypair::from_bytes(&vec![0u8; 65]).is_err());
    assert!(Keypair::from_bytes(&Vec::new()).is_err());
}

#[test]
fn derived_public_key_matches_generated_pair() {
    let keypair = Keypair::generate();
    let (user, secret) = User::generate(b"fresh".to_vec(), 10, 11);
    assert_eq!(user.public_key.len(), 32);
    assert_eq!(secret.len(), 32);
    assert_eq!(keypair.public.len(), 32);
    // Two independently generated identities do not share key material.
    assert_ne!(user.public_key, keypair.public);
}
