//! Token transfers that can be undone: the debit and the plan of remote
//! calls that goes with it, and the resolution that credits the amount
//! back when the calls did not succeed.

use vstd::prelude::*;
use crate::types::{
    AccountId, DropId, InternalFTData, PromiseOutcome, MIN_GAS_FOR_FT_TRANSFER,
    MIN_GAS_FOR_RESOLVE_BATCH, MIN_GAS_FOR_STORAGE_DEPOSIT,
};

verus! {

/// One remote call, as its typed arguments.
#[derive(Debug)]
pub enum StepCall {
    /// `storage_deposit` on the token contract, for the recipient.
    StorageDeposit { account_id: AccountId },
    /// `ft_transfer` on the token contract.
    FtTransfer { receiver_id: AccountId, amount: u128, memo: &'static str },
    /// `ft_resolve_batch` on this contract.
    ResolveBatch { amount: u128, drop_id: DropId, data_id: u64 },
}

/// A remote call with what it is funded with.
#[derive(Debug)]
pub struct CallStep {
    pub call: StepCall,
    /// Value attached to the call.
    pub deposit: u128,
    /// Gas reserved for the call.
    pub min_gas: u64,
    /// Share of the unspent gas that the call receives.
    pub gas_weight: u64,
}

/// The remote calls of one token transfer, in the order they are issued.
#[derive(Debug)]
pub struct TransferPlan {
    /// The token contract, target of the first batch.
    pub token_contract: AccountId,
    /// Registers the recipient; first step of the first batch.
    pub register: CallStep,
    /// Moves the tokens; second step of the first batch.
    pub transfer: CallStep,
    /// Runs on this contract once the first batch has finished, whether
    /// or not its steps succeeded.
    pub resolve: CallStep,
}

/// The memo sent with each token transfer.
pub fn ft_transfer_memo() -> (memo: &'static str)
    ensures
        memo@ == "Keypom FT Tokens"@,
{
    "Keypom FT Tokens"
}

/// A name for what `serde_json::from_slice::<bool>` makes of the bytes:
/// the boolean that they spell as JSON, or `None` where it reports an error.
pub uninterp spec fn json_bool(bytes: Seq<u8>) -> Option<bool>;

/// Calls `near_sdk::serde_json::from_slice::<bool>` and drops the error's
/// detail. The contract only names the outcome; it claims that the same
/// bytes always decode alike.
#[verifier::external_body]
fn decode_bool(bytes: &Vec<u8>) -> (decoded: Option<bool>)
    ensures
        decoded == json_bool(bytes@),
{
    near_sdk::serde_json::from_slice::<bool>(bytes.as_slice()).ok()
}

/// What a decoded success value says: an undecodable value counts as failure.
pub open spec fn spec_interpret_decoded(decoded: Option<bool>) -> bool {
    match decoded {
        Some(flag) => flag,
        None => false,
    }
}

/// Whether a remote call with the given outcome counts as a success, given
/// what its returned bytes decode to.
pub open spec fn spec_outcome_success(outcome: PromiseOutcome, decoded: Option<bool>) -> bool {
    match outcome {
        PromiseOutcome::Successful(value) => value@.len() == 0 || spec_interpret_decoded(decoded),
        PromiseOutcome::Failed => false,
    }
}

/// Whether a remote call with the given outcome counts as a success.
pub open spec fn spec_check_promise_result(outcome: PromiseOutcome) -> bool {
    match outcome {
        PromiseOutcome::Successful(value) => spec_outcome_success(outcome, json_bool(value@)),
        PromiseOutcome::Failed => false,
    }
}

/// Reads a decoded success value.
pub fn interpret_decoded(decoded: Option<bool>) -> (ok: bool)
    ensures
        ok == spec_interpret_decoded(decoded),
{
    match decoded {
        Some(flag) => flag,
        None => false,
    }
}

/// Adjudicates a finished remote call. An empty success value is a plain
/// success; a boolean one decides by its value; a failed call, or a value
/// that is no boolean, is a failure.
pub fn check_promise_result(outcome: &PromiseOutcome) -> (ok: bool)
    ensures
        ok == spec_check_promise_result(*outcome),
{
    match outcome {
        PromiseOutcome::Successful(value) => {
            if value.len() == 0 {
                true
            } else {
                interpret_decoded(decode_bool(value))
            }
        },
        PromiseOutcome::Failed => false,
    }
}

/// The available balance once a transfer of `amount` has been debited.
pub open spec fn spec_after_debit(balance: u128, amount: u128) -> int {
    balance - amount
}

/// The available balance once a debited transfer has been resolved.
pub open spec fn spec_after_resolve(balance: int, amount: u128, succeeded: bool) -> int {
    if succeeded {
        balance
    } else {
        balance + amount
    }
}

impl InternalFTData {
    /// Debits `transfer_amount` from the available balance at once, and
    /// plans the remote calls that move the tokens: register the receiver
    /// on the token contract, transfer, then resolve on this contract.
    /// Unspent gas is shared 1 : 1 : 3 among the three.
    pub fn ft_refund(
        &mut self,
        receiver_id: AccountId,
        transfer_amount: u128,
        drop_id: DropId,
    ) -> (plan: TransferPlan)
        requires
            transfer_amount <= old(self).balance_avail,
        ensures
            final(self).balance_avail == spec_after_debit(old(self).balance_avail, transfer_amount),
            final(self).data_id == old(self).data_id,
            final(self).contract_id == old(self).contract_id,
            final(self).registration_cost == old(self).registration_cost,
            plan.token_contract@ == old(self).contract_id@,
            plan.register.call matches StepCall::StorageDeposit { account_id }
                && account_id@ == receiver_id@,
            plan.register.deposit == old(self).registration_cost,
            plan.register.min_gas == MIN_GAS_FOR_STORAGE_DEPOSIT,
            plan.register.gas_weight == 1,
            plan.transfer.call matches StepCall::FtTransfer { receiver_id: to, amount, memo }
                && to@ == receiver_id@ && amount == transfer_amount && memo@
                == "Keypom FT Tokens"@,
            plan.transfer.deposit == 1,
            plan.transfer.min_gas == MIN_GAS_FOR_FT_TRANSFER,
            plan.transfer.gas_weight == 1,
            plan.resolve.call == (StepCall::ResolveBatch {
                amount: transfer_amount,
                drop_id,
                data_id: old(self).data_id,
            }),
            plan.resolve.deposit == 0,
            plan.resolve.min_gas == MIN_GAS_FOR_RESOLVE_BATCH,
            plan.resolve.gas_weight == 3,
    {
        self.balance_avail = self.balance_avail - transfer_amount;
        let register = CallStep {
            call: StepCall::StorageDeposit { account_id: receiver_id.duplicate() },
            deposit: self.registration_cost,
            min_gas: MIN_GAS_FOR_STORAGE_DEPOSIT,
            gas_weight: 1,
        };
        let transfer = CallStep {
            call: StepCall::FtTransfer {
                receiver_id,
                amount: transfer_amount,
                memo: ft_transfer_memo(),
            },
            deposit: 1,
            min_gas: MIN_GAS_FOR_FT_TRANSFER,
            gas_weight: 1,
        };
        let resolve = CallStep {
            call: StepCall::ResolveBatch {
                amount: transfer_amount,
                drop_id,
                data_id: self.data_id,
            },
            deposit: 0,
            min_gas: MIN_GAS_FOR_RESOLVE_BATCH,
            gas_weight: 3,
        };
        TransferPlan { token_contract: self.contract_id.duplicate(), register, transfer, resolve }
    }

    /// Settles a debited transfer once its outcome is known: on success
    /// the debit stands, on failure the amount is credited back. Returns
    /// whether the transfer succeeded.
    pub fn resolve_transfer(&mut self, amount: u128, succeeded: bool) -> (ok: bool)
        requires
            old(self).balance_avail + amount <= u128::MAX,
        ensures
            ok == succeeded,
            final(self).balance_avail == spec_after_resolve(
                old(self).balance_avail as int,
                amount,
                succeeded,
            ),
            final(self).data_id == old(self).data_id,
            final(self).contract_id == old(self).contract_id,
            final(self).registration_cost == old(self).registration_cost,
    {
        if !succeeded {
            self.balance_avail = self.balance_avail + amount;
        }
        succeeded
    }

    /// The resolution entry point: adjudicates the outcome of the transfer
    /// batch and credits the amount back unless it succeeded.
    pub fn ft_resolve_batch(&mut self, amount: u128, outcome: &PromiseOutcome) -> (ok: bool)
        requires
            old(self).balance_avail + amount <= u128::MAX,
        ensures
            ok == spec_check_promise_result(*outcome),
            final(self).balance_avail == spec_after_resolve(
                old(self).balance_avail as int,
                amount,
                ok,
            ),
            final(self).data_id == old(self).data_id,
            final(self).contract_id == old(self).contract_id,
            final(self).registration_cost == old(self).registration_cost,
    {
        let succeeded = check_promise_result(outcome);
        self.resolve_transfer(amount, succeeded)
    }
}

/// A transfer that fails leaves the available balance as it was before
/// the attempt; one that succeeds leaves it lower by the amount.
pub proof fn lemma_refund_conservation(balance: u128, amount: u128, succeeded: bool)
    requires
        amount <= balance,
    ensures
        !succeeded ==> spec_after_resolve(spec_after_debit(balance, amount), amount, succeeded)
            == balance,
        succeeded ==> spec_after_resolve(spec_after_debit(balance, amount), amount, succeeded)
            == balance - amount,
        0 <= spec_after_debit(balance, amount) <= balance,
{
}

} // verus!
