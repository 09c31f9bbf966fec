use ed25519_dalek::{Signer, SigningKey};
use keypom::authorizer::{decimal_text, expected_message};
use keypom::keypom::Keypom;
use keypom::types::{AccountId, Drop, DropType, KeyInfo, KeypomError, PublicKey};

fn account(name: &str) -> AccountId {
    AccountId::new(name.as_bytes().to_vec())
}

fn contract_key() -> PublicKey {
    PublicKey::new([9u8; 32])
}

fn holder() -> SigningKey {
    SigningKey::from_bytes(&[7u8; 32])
}

fn state_with_key(nonce: u64) -> (Keypom, PublicKey) {
    let mut state = Keypom::new(
        account("keypom.near"),
        account("near"),
        contract_key(),
        b"keypom_msg".to_vec(),
    );
    state.add_drop(
        1,
        Drop {
            owner_id: account("funder.near"),
            deposit_per_use: 10,
            drop_type: DropType::Simple,
            config: None,
        },
    );
    let pk = PublicKey::new(holder().verifying_key().to_bytes());
    state.add_key(&pk, KeyInfo { drop_id: 1, remaining_uses: 1, nonce });
    (state, pk)
}

fn sign(text: &[u8]) -> [u8; 64] {
    holder().sign(text).to_bytes()
}

#[test]
fn decimal_text_of_numbers() {
    assert_eq!(decimal_text(0), b"0".to_vec());
    assert_eq!(decimal_text(5), b"5".to_vec());
    assert_eq!(decimal_text(10), b"10".to_vec());
    assert_eq!(decimal_text(907), b"907".to_vec());
    assert_eq!(decimal_text(u64::MAX), b"18446744073709551615".to_vec());
}

#[test]
fn expected_message_is_prefix_then_nonce() {
    assert_eq!(expected_message(&b"keypom_msg".to_vec(), 5), b"keypom_msg5".to_vec());
    assert_eq!(expected_message(&Vec::new(), 42), b"42".to_vec());
}

#[test]
fn valid_signature_moves_the_nonce_on() {
    let (mut state, pk) = state_with_key(5);
    let signature = sign(b"keypom_msg5");
    let result = state.verify_signature(&contract_key(), &signature, &pk);
    assert_eq!(result, Ok(true));
    assert_eq!(state.key_info(&pk).unwrap().nonce, 6);
    assert_eq!(state.key_info(&pk).unwrap().remaining_uses, 1);
    assert_eq!(state.key_info(&pk).unwrap().drop_id, 1);
}

#[test]
fn replayed_signature_is_rejected() {
    let (mut state, pk) = state_with_key(5);
    let signature = sign(b"keypom_msg5");
    assert_eq!(state.verify_signature(&contract_key(), &signature, &pk), Ok(true));
    assert_eq!(state.key_info(&pk).unwrap().nonce, 6);
    assert_eq!(state.verify_signature(&contract_key(), &signature, &pk), Ok(false));
    assert_eq!(state.key_info(&pk).unwrap().nonce, 6);
}

#[test]
fn successive_signatures_each_count_once() {
    let (mut state, pk) = state_with_key(9);
    assert_eq!(state.verify_signature(&contract_key(), &sign(b"keypom_msg9"), &pk), Ok(true));
    assert_eq!(state.verify_signature(&contract_key(), &sign(b"keypom_msg10"), &pk), Ok(true));
    assert_eq!(state.verify_signature(&contract_key(), &sign(b"keypom_msg12"), &pk), Ok(false));
    assert_eq!(state.key_info(&pk).unwrap().nonce, 11);
}

#[test]
fn garbage_signature_leaves_the_nonce() {
    let (mut state, pk) = state_with_key(5);
    let result = state.verify_signature(&contract_key(), &[1u8; 64], &pk);
    assert_eq!(result, Ok(false));
    assert_eq!(state.key_info(&pk).unwrap().nonce, 5);
}

#[test]
fn signature_of_another_key_leaves_the_nonce() {
    let (mut state, pk) = state_with_key(5);
    let other = SigningKey::from_bytes(&[8u8; 32]);
    let signature = other.sign(b"keypom_msg5").to_bytes();
    assert_eq!(state.verify_signature(&contract_key(), &signature, &pk), Ok(false));
    assert_eq!(state.key_info(&pk).unwrap().nonce, 5);
}

#[test]
fn wrong_signer_is_unauthorized() {
    let (mut state, pk) = state_with_key(5);
    let signature = sign(b"keypom_msg5");
    let result = state.verify_signature(&PublicKey::new([1u8; 32]), &signature, &pk);
    assert_eq!(result, Err(KeypomError::Unauthorized));
    assert_eq!(state.key_info(&pk).unwrap().nonce, 5);
}

#[test]
fn unknown_key_is_not_found() {
    let (mut state, _) = state_with_key(5);
    let stranger = PublicKey::new(SigningKey::from_bytes(&[8u8; 32]).verifying_key().to_bytes());
    let result = state.verify_signature(&contract_key(), &[0u8; 64], &stranger);
    assert_eq!(result, Err(KeypomError::NotFound));
}

#[test]
fn key_of_a_missing_drop_is_not_found() {
    let (mut state, _) = state_with_key(5);
    let orphan = PublicKey::new([3u8; 32]);
    state.add_key(&orphan, KeyInfo { drop_id: 77, remaining_uses: 1, nonce: 0 });
    let result = state.verify_signature(&contract_key(), &[0u8; 64], &orphan);
    assert_eq!(result, Err(KeypomError::NotFound));
    assert_eq!(state.key_info(&orphan).unwrap().nonce, 0);
}

#[test]
fn recorded_verdict_moves_only_that_key() {
    let (mut state, pk) = state_with_key(5);
    let other = PublicKey::new([3u8; 32]);
    state.add_key(&other, KeyInfo { drop_id: 1, remaining_uses: 2, nonce: 40 });
    assert!(state.record_verdict(&pk, true));
    assert!(!state.record_verdict(&other, false));
    assert_eq!(state.key_info(&pk).unwrap().nonce, 6);
    assert_eq!(state.key_info(&other).unwrap().nonce, 40);
}

#[test]
fn signer_check_compares_keys() {
    let (state, _) = state_with_key(0);
    assert_eq!(state.assert_contract_key(&contract_key()), Ok(()));
    assert_eq!(
        state.assert_contract_key(&PublicKey::new([0u8; 32])),
        Err(KeypomError::Unauthorized)
    );
}
