use keypom::keypom::Keypom;
use keypom::types::{AccountId, KeypomError, KeypomFees, PublicKey};

fn account(name: &str) -> AccountId {
    AccountId::new(name.as_bytes().to_vec())
}

fn fresh() -> Keypom {
    Keypom::new(account("owner.near"), account("near"), PublicKey::new([9u8; 32]), b"keypom_msg".to_vec())
}

#[test]
fn new_state_is_empty_and_unfrozen() {
    let state = fresh();
    assert_eq!(state.contract_owner_id.bytes, b"owner.near".to_vec());
    assert_eq!(state.root_account.bytes, b"near".to_vec());
    assert_eq!(state.message, b"keypom_msg".to_vec());
    assert_eq!(state.fee_structure, KeypomFees { per_drop: 0, per_key: 0 });
    assert_eq!(state.fees_collected, 0);
    assert!(!state.global_freeze);
    assert!(state.drop_for_id.is_empty());
}

#[test]
fn owner_check_accepts_only_the_owner() {
    let state = fresh();
    assert_eq!(state.assert_owner(&account("owner.near")), Ok(()));
    assert_eq!(state.assert_owner(&account("mallory.near")), Err(KeypomError::Unauthorized));
}

#[test]
fn owner_sets_the_root_account() {
    let mut state = fresh();
    assert_eq!(state.set_root_account(&account("owner.near"), account("testnet")), Ok(()));
    assert_eq!(state.root_account.bytes, b"testnet".to_vec());
}

#[test]
fn stranger_cannot_set_the_root_account() {
    let mut state = fresh();
    assert_eq!(
        state.set_root_account(&account("mallory.near"), account("testnet")),
        Err(KeypomError::Unauthorized)
    );
    assert_eq!(state.root_account.bytes, b"near".to_vec());
}

#[test]
fn set_fees_keeps_what_is_not_given() {
    let mut state = fresh();
    let owner = account("owner.near");
    assert_eq!(state.set_fees(&owner, Some(5), Some(7)), Ok(()));
    assert_eq!(state.fee_structure, KeypomFees { per_drop: 5, per_key: 7 });
    assert_eq!(state.set_fees(&owner, None, Some(8)), Ok(()));
    assert_eq!(state.fee_structure, KeypomFees { per_drop: 5, per_key: 8 });
    assert_eq!(state.set_fees(&owner, Some(1), None), Ok(()));
    assert_eq!(state.fee_structure, KeypomFees { per_drop: 1, per_key: 8 });
    assert_eq!(state.set_fees(&account("mallory.near"), Some(0), Some(0)), Err(KeypomError::Unauthorized));
    assert_eq!(state.fee_structure, KeypomFees { per_drop: 1, per_key: 8 });
}

#[test]
fn set_fees_per_user_stores_the_fees() {
    let mut state = fresh();
    let owner = account("owner.near");
    assert_eq!(state.set_fees_per_user(&owner, account("alice.near"), 3, 4), Ok(()));
    assert_eq!(
        state.fees_per_user.get(&b"alice.near".to_vec()),
        Some(&KeypomFees { per_drop: 3, per_key: 4 })
    );
    assert_eq!(state.set_fees_per_user(&owner, account("alice.near"), 5, 6), Ok(()));
    assert_eq!(
        state.fees_per_user.get(&b"alice.near".to_vec()),
        Some(&KeypomFees { per_drop: 5, per_key: 6 })
    );
    assert_eq!(
        state.set_fees_per_user(&account("mallory.near"), account("bob.near"), 1, 1),
        Err(KeypomError::Unauthorized)
    );
    assert!(state.fees_per_user.get(&b"bob.near".to_vec()).is_none());
}

#[test]
fn freeze_and_unfreeze() {
    let mut state = fresh();
    let owner = account("owner.near");
    assert_eq!(state.freeze_contract(&owner), Ok(()));
    assert!(state.global_freeze);
    assert_eq!(state.unfreeze_contract(&account("mallory.near")), Err(KeypomError::Unauthorized));
    assert!(state.global_freeze);
    assert_eq!(state.unfreeze_contract(&owner), Ok(()));
    assert!(!state.global_freeze);
    assert_eq!(state.freeze_contract(&account("mallory.near")), Err(KeypomError::Unauthorized));
    assert!(!state.global_freeze);
}

#[test]
fn withdrawn_fees_return_when_the_transfer_fails() {
    let mut state = fresh();
    state.fees_collected = 900;
    let plan = state.withdraw_fees(&account("owner.near"), account("vault.near")).unwrap();
    assert_eq!(plan.amount, 900);
    assert_eq!(plan.withdraw_to.bytes, b"vault.near".to_vec());
    assert_eq!(state.fees_collected, 0);
    assert!(!state.on_withdraw_fees(900, false));
    assert_eq!(state.fees_collected, 900);
}

#[test]
fn withdrawn_fees_stay_out_when_the_transfer_succeeds() {
    let mut state = fresh();
    state.fees_collected = 900;
    state.withdraw_fees(&account("owner.near"), account("vault.near")).unwrap();
    assert!(state.on_withdraw_fees(900, true));
    assert_eq!(state.fees_collected, 0);
}

#[test]
fn stranger_cannot_withdraw_fees() {
    let mut state = fresh();
    state.fees_collected = 900;
    let result = state.withdraw_fees(&account("mallory.near"), account("mallory.near"));
    assert_eq!(result.unwrap_err(), KeypomError::Unauthorized);
    assert_eq!(state.fees_collected, 900);
}
