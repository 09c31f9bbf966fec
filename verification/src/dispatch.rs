//! Claim dispatch: which settlement a claimed drop calls for, and whether
//! it is chained after pending remote work or run in the current call.

use vstd::prelude::*;
use crate::keypom::Keypom;
use crate::types::{
    AccountId, Drop, DropId, DropType, FCData, InternalFTData, KeyInfo, KeypomError, PendingCall,
    MIN_GAS_FOR_ON_CLAIM,
};

verus! {

/// The settlement of a claim, with the values it is given.
#[derive(Debug)]
pub enum ClaimCallback {
    /// `on_claim_simple`: value transfer only.
    Simple { owner_id: AccountId, deposit: u128, storage_freed: u128, auto_withdraw: bool },
    /// `on_claim_fc`: the function-call payload, with the key's state
    /// before the claim and the number of uses that the drop gives a key.
    FunctionCall {
        account_id: AccountId,
        owner_id: AccountId,
        deposit: u128,
        storage_freed: u128,
        fc_data: FCData,
        drop_id: DropId,
        cur_key_info: KeyInfo,
        uses_per_key: u64,
        auto_withdraw: bool,
    },
    /// `on_claim_nft`: the token and where it comes from.
    NonFungibleToken {
        account_id: AccountId,
        owner_id: AccountId,
        deposit: u128,
        storage_freed: u128,
        sender_id: AccountId,
        contract_id: AccountId,
        token_id: String,
        auto_withdraw: bool,
    },
    /// `on_claim_ft`: the fungible-token payload.
    FungibleToken {
        account_id: AccountId,
        owner_id: AccountId,
        deposit: u128,
        storage_freed: u128,
        ft_data: InternalFTData,
        auto_withdraw: bool,
    },
}

/// How a settlement is run.
#[derive(Debug, PartialEq, Eq, Structural, Clone, Copy)]
pub enum ExecutionMode {
    /// Scheduled on this contract after the pending call, with this much
    /// gas reserved and this much value attached.
    Chained { after: PendingCall, static_gas: u64, deposit: u128 },
    /// Run at once, in the current call.
    Direct,
}

/// One settlement and the way it is run.
#[derive(Debug)]
pub struct Dispatch {
    pub callback: ClaimCallback,
    pub mode: ExecutionMode,
}

/// Chained after pending work where there is any, direct otherwise.
pub open spec fn spec_mode(promise: Option<PendingCall>) -> ExecutionMode {
    match promise {
        Some(after) => ExecutionMode::Chained {
            after,
            static_gas: MIN_GAS_FOR_ON_CLAIM,
            deposit: 0,
        },
        None => ExecutionMode::Direct,
    }
}

/// The uses that a drop gives each key: one unless its configuration says more.
pub open spec fn spec_uses_per_key(drop_data: Drop) -> u64 {
    match drop_data.config {
        Some(config) => match config.uses_per_key {
            Some(uses) => uses,
            None => 1,
        },
        None => 1,
    }
}

/// The settlement that a claim calls for, by the drop's asset.
pub open spec fn spec_dispatch(
    drop_data: Drop,
    drop_id: DropId,
    cur_key_info: KeyInfo,
    account_id: AccountId,
    storage_freed: u128,
    token_id: Option<String>,
    auto_withdraw: bool,
    promise: Option<PendingCall>,
) -> Result<Dispatch, KeypomError> {
    match drop_data.drop_type {
        DropType::Simple => Ok(
            Dispatch {
                callback: ClaimCallback::Simple {
                    owner_id: drop_data.owner_id,
                    deposit: drop_data.deposit_per_use,
                    storage_freed,
                    auto_withdraw,
                },
                mode: spec_mode(promise),
            },
        ),
        DropType::FunctionCall(data) => Ok(
            Dispatch {
                callback: ClaimCallback::FunctionCall {
                    account_id,
                    owner_id: drop_data.owner_id,
                    deposit: drop_data.deposit_per_use,
                    storage_freed,
                    fc_data: data,
                    drop_id,
                    cur_key_info,
                    uses_per_key: spec_uses_per_key(drop_data),
                    auto_withdraw,
                },
                mode: spec_mode(promise),
            },
        ),
        DropType::NonFungibleToken(data) => match token_id {
            Some(token) => Ok(
                Dispatch {
                    callback: ClaimCallback::NonFungibleToken {
                        account_id,
                        owner_id: drop_data.owner_id,
                        deposit: drop_data.deposit_per_use,
                        storage_freed,
                        sender_id: data.sender_id,
                        contract_id: data.contract_id,
                        token_id: token,
                        auto_withdraw,
                    },
                    mode: spec_mode(promise),
                },
            ),
            None => Err(KeypomError::MissingTokenId),
        },
        DropType::FungibleToken(data) => Ok(
            Dispatch {
                callback: ClaimCallback::FungibleToken {
                    account_id,
                    owner_id: drop_data.owner_id,
                    deposit: drop_data.deposit_per_use,
                    storage_freed,
                    ft_data: data,
                    auto_withdraw,
                },
                mode: spec_mode(promise),
            },
        ),
    }
}

/// The settlement that belongs to a drop's asset.
pub open spec fn matches_asset(callback: ClaimCallback, drop_type: DropType) -> bool {
    match drop_type {
        DropType::Simple => callback is Simple,
        DropType::FunctionCall(_) => callback is FunctionCall,
        DropType::NonFungibleToken(_) => callback is NonFungibleToken,
        DropType::FungibleToken(_) => callback is FungibleToken,
    }
}

/// Every claim is dispatched to the one settlement of the drop's asset,
/// chained exactly where work is pending; the only claim that is refused
/// is one on a non-fungible-token drop that names no token.
pub proof fn lemma_dispatch_total(
    drop_data: Drop,
    drop_id: DropId,
    cur_key_info: KeyInfo,
    account_id: AccountId,
    storage_freed: u128,
    token_id: Option<String>,
    auto_withdraw: bool,
    promise: Option<PendingCall>,
)
    ensures
        ({
            let outcome = spec_dispatch(
                drop_data,
                drop_id,
                cur_key_info,
                account_id,
                storage_freed,
                token_id,
                auto_withdraw,
                promise,
            );
            &&& outcome is Err <==> (drop_data.drop_type is NonFungibleToken && token_id is None)
            &&& outcome is Err ==> outcome->Err_0 == KeypomError::MissingTokenId
            &&& outcome is Ok ==> matches_asset(outcome->Ok_0.callback, drop_data.drop_type)
            &&& outcome is Ok ==> (outcome->Ok_0.mode is Chained <==> promise is Some)
        }),
{
}

impl Keypom {
    /// Dispatches a claim to the settlement of the drop's asset. With
    /// pending remote work the settlement is chained after it, with gas
    /// reserved for the callback and no value attached; without, it is to
    /// be run in the current call. A simple drop is always chained, so
    /// it needs pending work. A claim on a non-fungible-token drop that
    /// names no token is refused.
    pub fn internal_execute(
        &self,
        drop_data: Drop,
        drop_id: DropId,
        cur_key_info: KeyInfo,
        account_id: AccountId,
        storage_freed: u128,
        token_id: Option<String>,
        auto_withdraw: bool,
        promise: Option<PendingCall>,
    ) -> (r: Result<Dispatch, KeypomError>)
        requires
            drop_data.drop_type is Simple ==> promise is Some,
        ensures
            r == spec_dispatch(
                drop_data,
                drop_id,
                cur_key_info,
                account_id,
                storage_freed,
                token_id,
                auto_withdraw,
                promise,
            ),
    {
        let mode = match promise {
            Some(after) => ExecutionMode::Chained {
                after,
                static_gas: MIN_GAS_FOR_ON_CLAIM,
                deposit: 0,
            },
            None => ExecutionMode::Direct,
        };
        let uses_per_key: u64 = match drop_data.config {
            Some(config) => match config.uses_per_key {
                Some(uses) => uses,
                None => 1,
            },
            None => 1,
        };
        let owner_id = drop_data.owner_id;
        let deposit = drop_data.deposit_per_use;
        match drop_data.drop_type {
            DropType::FunctionCall(data) => Ok(
                Dispatch {
                    callback: ClaimCallback::FunctionCall {
                        account_id,
                        owner_id,
                        deposit,
                        storage_freed,
                        fc_data: data,
                        drop_id,
                        cur_key_info,
                        uses_per_key,
                        auto_withdraw,
                    },
                    mode,
                },
            ),
            DropType::NonFungibleToken(data) => match token_id {
                Some(token) => Ok(
                    Dispatch {
                        callback: ClaimCallback::NonFungibleToken {
                            account_id,
                            owner_id,
                            deposit,
                            storage_freed,
                            sender_id: data.sender_id,
                            contract_id: data.contract_id,
                            token_id: token,
                            auto_withdraw,
                        },
                        mode,
                    },
                ),
                None => Err(KeypomError::MissingTokenId),
            },
            DropType::FungibleToken(data) => Ok(
                Dispatch {
                    callback: ClaimCallback::FungibleToken {
                        account_id,
                        owner_id,
                        deposit,
                        storage_freed,
                        ft_data: data,
                        auto_withdraw,
                    },
                    mode,
                },
            ),
            DropType::Simple => Ok(
                Dispatch {
                    callback: ClaimCallback::Simple { owner_id, deposit, storage_freed, auto_withdraw },
                    mode,
                },
            ),
        }
    }
}

} // verus!
