use keypom::dispatch::{ClaimCallback, ExecutionMode};
use keypom::keypom::Keypom;
use keypom::types::{
    AccountId, Drop, DropConfig, DropType, FCData, InternalFTData, KeyInfo, KeypomError, NFTData,
    PendingCall, PublicKey, MIN_GAS_FOR_ON_CLAIM,
};

fn account(name: &str) -> AccountId {
    AccountId::new(name.as_bytes().to_vec())
}

fn fresh() -> Keypom {
    Keypom::new(account("owner.near"), account("near"), PublicKey::new([9u8; 32]), b"keypom_msg".to_vec())
}

fn drop_of(drop_type: DropType, config: Option<DropConfig>) -> Drop {
    Drop { owner_id: account("funder.near"), deposit_per_use: 50, drop_type, config }
}

fn key() -> KeyInfo {
    KeyInfo { drop_id: 4, remaining_uses: 2, nonce: 0 }
}

fn chained(index: u64) -> ExecutionMode {
    ExecutionMode::Chained { after: PendingCall { index }, static_gas: MIN_GAS_FOR_ON_CLAIM, deposit: 0 }
}

#[test]
fn simple_drop_is_chained_after_pending_work() {
    let state = fresh();
    let dispatch = state
        .internal_execute(
            drop_of(DropType::Simple, None),
            4,
            key(),
            account("claimer.near"),
            300,
            None,
            true,
            Some(PendingCall { index: 2 }),
        )
        .unwrap();
    assert_eq!(dispatch.mode, chained(2));
    match dispatch.callback {
        ClaimCallback::Simple { owner_id, deposit, storage_freed, auto_withdraw } => {
            assert_eq!(owner_id.bytes, b"funder.near".to_vec());
            assert_eq!(deposit, 50);
            assert_eq!(storage_freed, 300);
            assert!(auto_withdraw);
        }
        other => panic!("expected the simple settlement, got {:?}", other),
    }
}

#[test]
fn function_call_drop_carries_payload_and_key_state() {
    let state = fresh();
    let dispatch = state
        .internal_execute(
            drop_of(
                DropType::FunctionCall(FCData { payload: vec![1, 2, 3] }),
                Some(DropConfig { uses_per_key: Some(3) }),
            ),
            4,
            key(),
            account("claimer.near"),
            300,
            None,
            false,
            None,
        )
        .unwrap();
    assert_eq!(dispatch.mode, ExecutionMode::Direct);
    match dispatch.callback {
        ClaimCallback::FunctionCall {
            account_id,
            owner_id,
            deposit,
            storage_freed,
            fc_data,
            drop_id,
            cur_key_info,
            uses_per_key,
            auto_withdraw,
        } => {
            assert_eq!(account_id.bytes, b"claimer.near".to_vec());
            assert_eq!(owner_id.bytes, b"funder.near".to_vec());
            assert_eq!(deposit, 50);
            assert_eq!(storage_freed, 300);
            assert_eq!(fc_data.payload, vec![1, 2, 3]);
            assert_eq!(drop_id, 4);
            assert_eq!(cur_key_info, key());
            assert_eq!(uses_per_key, 3);
            assert!(!auto_withdraw);
        }
        other => panic!("expected the function-call settlement, got {:?}", other),
    }
}

#[test]
fn uses_per_key_defaults_to_one() {
    let state = fresh();
    for config in [None, Some(DropConfig { uses_per_key: None })] {
        let dispatch = state
            .internal_execute(
                drop_of(DropType::FunctionCall(FCData { payload: Vec::new() }), config),
                4,
                key(),
                account("claimer.near"),
                0,
                None,
                false,
                Some(PendingCall { index: 0 }),
            )
            .unwrap();
        assert_eq!(dispatch.mode, chained(0));
        match dispatch.callback {
            ClaimCallback::FunctionCall { uses_per_key, .. } => assert_eq!(uses_per_key, 1),
            other => panic!("expected the function-call settlement, got {:?}", other),
        }
    }
}

#[test]
fn nft_drop_carries_the_token() {
    let state = fresh();
    let data = NFTData { sender_id: account("sender.near"), contract_id: account("nft.near") };
    let dispatch = state
        .internal_execute(
            drop_of(DropType::NonFungibleToken(data), None),
            4,
            key(),
            account("claimer.near"),
            300,
            Some(String::from("token-1")),
            false,
            Some(PendingCall { index: 5 }),
        )
        .unwrap();
    assert_eq!(dispatch.mode, chained(5));
    match dispatch.callback {
        ClaimCallback::NonFungibleToken { sender_id, contract_id, token_id, account_id, .. } => {
            assert_eq!(sender_id.bytes, b"sender.near".to_vec());
            assert_eq!(contract_id.bytes, b"nft.near".to_vec());
            assert_eq!(token_id, "token-1");
            assert_eq!(account_id.bytes, b"claimer.near".to_vec());
        }
        other => panic!("expected the token settlement, got {:?}", other),
    }
}

#[test]
fn nft_drop_without_a_token_is_refused() {
    let state = fresh();
    for promise in [None, Some(PendingCall { index: 1 })] {
        let data = NFTData { sender_id: account("sender.near"), contract_id: account("nft.near") };
        let result = state.internal_execute(
            drop_of(DropType::NonFungibleToken(data), None),
            4,
            key(),
            account("claimer.near"),
            300,
            None,
            false,
            promise,
        );
        assert_eq!(result.unwrap_err(), KeypomError::MissingTokenId);
    }
}

#[test]
fn ft_drop_carries_its_payload() {
    let state = fresh();
    let data = InternalFTData {
        data_id: 1,
        contract_id: account("token.near"),
        balance_avail: 1000,
        registration_cost: 12,
    };
    let dispatch = state
        .internal_execute(
            drop_of(DropType::FungibleToken(data), None),
            4,
            key(),
            account("claimer.near"),
            300,
            None,
            true,
            None,
        )
        .unwrap();
    assert_eq!(dispatch.mode, ExecutionMode::Direct);
    match dispatch.callback {
        ClaimCallback::FungibleToken { ft_data, deposit, auto_withdraw, .. } => {
            assert_eq!(ft_data.contract_id.bytes, b"token.near".to_vec());
            assert_eq!(ft_data.balance_avail, 1000);
            assert_eq!(ft_data.registration_cost, 12);
            assert_eq!(deposit, 50);
            assert!(auto_withdraw);
        }
        other => panic!("expected the fungible-token settlement, got {:?}", other),
    }
}
