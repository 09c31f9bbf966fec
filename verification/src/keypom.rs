//! The contract state and the registry operations on it: the owner's
//! settings, the index of drops per funder, and the cache of token
//! contracts that this contract is registered with.

use std::collections::HashMap;
use std::collections::HashSet;
use vstd::prelude::*;
use vstd::std_specs::hash::*;
use crate::bytemap::{copy_bytes, ByteMap};
use crate::types::{AccountId, Drop, DropId, KeyInfo, KeypomError, KeypomFees, PublicKey};

verus! {

broadcast use vstd::std_specs::hash::group_hash_axioms;

/// The whole state of the contract.
pub struct Keypom {
    /// Who may change the settings.
    pub contract_owner_id: AccountId,
    /// The account under which new accounts are created.
    pub root_account: AccountId,
    /// The key that must sign a transaction asking for a signature check.
    pub signing_pk: PublicKey,
    /// The text that every signed message starts with.
    pub message: Vec<u8>,
    pub fee_structure: KeypomFees,
    pub fees_per_user: ByteMap<KeypomFees>,
    pub fees_collected: u128,
    /// While set, no drop can be created and no key added.
    pub global_freeze: bool,
    pub user_balances: ByteMap<u128>,
    /// Token contracts on which this contract has asked to be registered.
    pub registered_ft_contracts: ByteMap<()>,
    pub drop_for_id: HashMap<DropId, Drop>,
    /// For each funder the drops that it owns; no funder has an empty set.
    pub drop_ids_for_owner: ByteMap<HashSet<DropId>>,
    /// Per-key state, by the key's bytes.
    pub key_info_for_pk: ByteMap<KeyInfo>,
}

/// What the host is asked to do after a registration request.
#[derive(Debug)]
pub enum RegistrationAction {
    /// Call `storage_deposit` on the token contract, naming this contract
    /// as the account, with exactly this gas and deposit; the result is
    /// not looked at.
    Register { contract_id: AccountId, deposit: u128, static_gas: u64 },
    /// Nothing: the storage cost went to the payer's balance.
    BalanceCredited,
    /// Send the storage cost back to the payer.
    Transfer { account_id: AccountId, amount: u128 },
}

/// A transfer of the collected fees, to be followed by `on_withdraw_fees`.
#[derive(Debug)]
pub struct FeeWithdrawal {
    pub withdraw_to: AccountId,
    pub amount: u128,
}

impl Keypom {
    /// The collections are well formed and every funder that has an entry
    /// owns at least one drop.
    pub open spec fn wf(&self) -> bool {
        &&& self.fees_per_user.wf()
        &&& self.user_balances.wf()
        &&& self.registered_ft_contracts.wf()
        &&& self.drop_ids_for_owner.wf()
        &&& self.key_info_for_pk.wf()
        &&& forall|a: Seq<u8>| #[trigger]
            self.drop_ids_for_owner@.contains_key(a) ==> !self.drop_ids_for_owner@[a]@.is_empty()
    }

    /// The drops of a funder; empty for one without an entry.
    pub open spec fn funder_drops(&self, account: Seq<u8>) -> Set<DropId> {
        if self.funder_index().contains_key(account) {
            self.funder_index()[account]
        } else {
            Set::empty()
        }
    }

    /// The funder index as a map from funders to their sets of drops.
    pub open spec fn funder_index(&self) -> Map<Seq<u8>, Set<DropId>> {
        Map::new(
            |a: Seq<u8>| self.drop_ids_for_owner@.contains_key(a),
            |a: Seq<u8>| self.drop_ids_for_owner@[a]@,
        )
    }

    /// Whether this contract has asked to be registered on the token contract.
    pub open spec fn is_registered(&self, contract: Seq<u8>) -> bool {
        self.registered_ft_contracts@.contains_key(contract)
    }

    /// The balance that the contract keeps for an account.
    pub open spec fn balance_of(&self, account: Seq<u8>) -> u128 {
        if self.user_balances@.contains_key(account) {
            self.user_balances@[account]
        } else {
            0
        }
    }

    /// A fresh state: no drops, keys, balances or fees, not frozen.
    pub fn new(
        contract_owner_id: AccountId,
        root_account: AccountId,
        signing_pk: PublicKey,
        message: Vec<u8>,
    ) -> (state: Keypom)
        ensures
            state.wf(),
            state.contract_owner_id == contract_owner_id,
            state.root_account == root_account,
            state.signing_pk == signing_pk,
            state.message == message,
            state.fee_structure == (KeypomFees { per_drop: 0, per_key: 0 }),
            state.fees_collected == 0,
            !state.global_freeze,
            state.fees_per_user@ == Map::<Seq<u8>, KeypomFees>::empty(),
            state.user_balances@ == Map::<Seq<u8>, u128>::empty(),
            state.registered_ft_contracts@ == Map::<Seq<u8>, ()>::empty(),
            state.drop_for_id@ == Map::<DropId, Drop>::empty(),
            state.funder_index() == Map::<Seq<u8>, Set<DropId>>::empty(),
            state.key_info_for_pk@ == Map::<Seq<u8>, KeyInfo>::empty(),
    {
        let state = Keypom {
            contract_owner_id,
            root_account,
            signing_pk,
            message,
            fee_structure: KeypomFees { per_drop: 0, per_key: 0 },
            fees_per_user: ByteMap::new(),
            fees_collected: 0,
            global_freeze: false,
            user_balances: ByteMap::new(),
            registered_ft_contracts: ByteMap::new(),
            drop_for_id: HashMap::new(),
            drop_ids_for_owner: ByteMap::new(),
            key_info_for_pk: ByteMap::new(),
        };
        assert(state.funder_index() =~= Map::<Seq<u8>, Set<DropId>>::empty());
        state
    }

    /// Only the contract owner passes.
    pub fn assert_owner(&self, caller: &AccountId) -> (r: Result<(), KeypomError>)
        ensures
            r == (if caller@ == self.contract_owner_id@ {
                Ok::<(), KeypomError>(())
            } else {
                Err(KeypomError::Unauthorized)
            }),
    {
        if caller.same(&self.contract_owner_id) {
            Ok(())
        } else {
            Err(KeypomError::Unauthorized)
        }
    }

    /// Only a transaction signed by the contract's signing key passes.
    pub fn assert_contract_key(&self, signer_pk: &PublicKey) -> (r: Result<(), KeypomError>)
        ensures
            r == (if signer_pk@ == self.signing_pk@ {
                Ok::<(), KeypomError>(())
            } else {
                Err(KeypomError::Unauthorized)
            }),
    {
        if signer_pk.same(&self.signing_pk) {
            Ok(())
        } else {
            Err(KeypomError::Unauthorized)
        }
    }

    /// Sets the account under which new accounts are created.
    pub fn set_root_account(&mut self, caller: &AccountId, root_account: AccountId) -> (r: Result<
        (),
        KeypomError,
    >)
        ensures
            r == old(self).assert_owner_spec(caller@),
            r is Ok ==> *final(self) == (Keypom { root_account, ..*old(self) }),
            r is Err ==> *final(self) == *old(self),
    {
        match self.assert_owner(caller) {
            Ok(_) => {},
            Err(e) => {
                return Err(e);
            },
        }
        self.root_account = root_account;
        Ok(())
    }

    /// What the owner check answers for a caller.
    pub open spec fn assert_owner_spec(&self, caller: Seq<u8>) -> Result<(), KeypomError> {
        if caller == self.contract_owner_id@ {
            Ok(())
        } else {
            Err(KeypomError::Unauthorized)
        }
    }

    /// Sets the global fees; a fee that is not given keeps its value.
    pub fn set_fees(&mut self, caller: &AccountId, drop_fee: Option<u128>, key_fee: Option<u128>) -> (r:
        Result<(), KeypomError>)
        ensures
            r == old(self).assert_owner_spec(caller@),
            r is Ok ==> *final(self) == (Keypom {
                fee_structure: KeypomFees {
                    per_drop: if drop_fee is Some {
                        drop_fee->0
                    } else {
                        old(self).fee_structure.per_drop
                    },
                    per_key: if key_fee is Some {
                        key_fee->0
                    } else {
                        old(self).fee_structure.per_key
                    },
                },
                ..*old(self)
            }),
            r is Err ==> *final(self) == *old(self),
    {
        match self.assert_owner(caller) {
            Ok(_) => {},
            Err(e) => {
                return Err(e);
            },
        }
        let per_drop: u128 = match drop_fee {
            Some(fee) => fee,
            None => self.fee_structure.per_drop,
        };
        let per_key: u128 = match key_fee {
            Some(fee) => fee,
            None => self.fee_structure.per_key,
        };
        self.fee_structure = KeypomFees { per_drop, per_key };
        Ok(())
    }

    /// Sets the fees charged to one account.
    pub fn set_fees_per_user(
        &mut self,
        caller: &AccountId,
        account_id: AccountId,
        drop_fee: u128,
        key_fee: u128,
    ) -> (r: Result<(), KeypomError>)
        requires
            old(self).wf(),
        ensures
            final(self).wf(),
            r == old(self).assert_owner_spec(caller@),
            r is Ok ==> final(self).fees_per_user@ == old(self).fees_per_user@.insert(
                account_id@,
                KeypomFees { per_drop: drop_fee, per_key: key_fee },
            ) && *final(self) == (Keypom {
                fees_per_user: final(self).fees_per_user,
                ..*old(self)
            }),
            r is Err ==> *final(self) == *old(self),
    {
        match self.assert_owner(caller) {
            Ok(_) => {},
            Err(e) => {
                return Err(e);
            },
        }
        self.fees_per_user.insert(
            account_id.bytes,
            KeypomFees { per_drop: drop_fee, per_key: key_fee },
        );
        Ok(())
    }

    /// Stops the creation of drops and keys.
    pub fn freeze_contract(&mut self, caller: &AccountId) -> (r: Result<(), KeypomError>)
        ensures
            r == old(self).assert_owner_spec(caller@),
            r is Ok ==> *final(self) == (Keypom { global_freeze: true, ..*old(self) }),
            r is Err ==> *final(self) == *old(self),
    {
        match self.assert_owner(caller) {
            Ok(_) => {},
            Err(e) => {
                return Err(e);
            },
        }
        self.global_freeze = true;
        Ok(())
    }

    /// Allows the creation of drops and keys again.
    pub fn unfreeze_contract(&mut self, caller: &AccountId) -> (r: Result<(), KeypomError>)
        ensures
            r == old(self).assert_owner_spec(caller@),
            r is Ok ==> *final(self) == (Keypom { global_freeze: false, ..*old(self) }),
            r is Err ==> *final(self) == *old(self),
    {
        match self.assert_owner(caller) {
            Ok(_) => {},
            Err(e) => {
                return Err(e);
            },
        }
        self.global_freeze = false;
        Ok(())
    }

    /// Empties the fee counter and plans the transfer of what it held.
    pub fn withdraw_fees(&mut self, caller: &AccountId, withdraw_to: AccountId) -> (r: Result<
        FeeWithdrawal,
        KeypomError,
    >)
        ensures
            caller@ == old(self).contract_owner_id@ ==> r == Ok::<FeeWithdrawal, KeypomError>(
                FeeWithdrawal { withdraw_to, amount: old(self).fees_collected },
            ) && *final(self) == (Keypom { fees_collected: 0, ..*old(self) }),
            caller@ != old(self).contract_owner_id@ ==> r == Err::<FeeWithdrawal, KeypomError>(
                KeypomError::Unauthorized,
            ) && *final(self) == *old(self),
    {
        match self.assert_owner(caller) {
            Ok(_) => {},
            Err(e) => {
                return Err(e);
            },
        }
        let amount = self.fees_collected;
        self.fees_collected = 0;
        Ok(FeeWithdrawal { withdraw_to, amount })
    }

    /// Resolves a fee withdrawal: where the transfer failed, the amount
    /// goes back onto the fee counter. Returns whether it succeeded.
    pub fn on_withdraw_fees(&mut self, fees_collected: u128, transfer_succeeded: bool) -> (ok: bool)
        requires
            !transfer_succeeded ==> old(self).fees_collected + fees_collected <= u128::MAX,
        ensures
            ok == transfer_succeeded,
            *final(self) == (Keypom {
                fees_collected: if transfer_succeeded {
                    old(self).fees_collected
                } else {
                    (old(self).fees_collected + fees_collected) as u128
                },
                ..*old(self)
            }),
    {
        if !transfer_succeeded {
            self.fees_collected = self.fees_collected + fees_collected;
            return false;
        }
        true
    }

    /// Adds a drop to the set of drops that a funder owns.
    pub fn internal_add_drop_to_funder(&mut self, account_id: &AccountId, drop_id: &DropId)
        requires
            old(self).wf(),
        ensures
            final(self).wf(),
            final(self).funder_index() == old(self).funder_index().insert(
                account_id@,
                old(self).funder_drops(account_id@).insert(*drop_id),
            ),
            *final(self) == (Keypom {
                drop_ids_for_owner: final(self).drop_ids_for_owner,
                ..*old(self)
            }),
    {
        let found = self.drop_ids_for_owner.remove(&account_id.bytes);
        let mut drop_set: HashSet<DropId> = match found {
            Some(set) => set,
            None => HashSet::new(),
        };
        drop_set.insert(*drop_id);
        assert(drop_set@.contains(*drop_id));
        self.drop_ids_for_owner.insert(copy_bytes(&account_id.bytes), drop_set);
        assert(final(self).funder_index() =~= old(self).funder_index().insert(
            account_id@,
            old(self).funder_drops(account_id@).insert(*drop_id),
        ));
    }

    /// Takes a drop out of the set of drops that a funder owns, and the
    /// funder's entry with it where the set becomes empty. A funder
    /// without an entry is reported and nothing changes.
    pub fn internal_remove_drop_for_funder(&mut self, account_id: &AccountId, drop_id: &DropId) -> (r:
        Result<(), KeypomError>)
        requires
            old(self).wf(),
        ensures
            final(self).wf(),
            *final(self) == (Keypom {
                drop_ids_for_owner: final(self).drop_ids_for_owner,
                ..*old(self)
            }),
            r == (if old(self).funder_index().contains_key(account_id@) {
                Ok::<(), KeypomError>(())
            } else {
                Err(KeypomError::NotFound)
            }),
            final(self).funder_index() == old(self).funder_index_without(account_id@, *drop_id),
    {
        let found = self.drop_ids_for_owner.remove(&account_id.bytes);
        match found {
            None => {
                assert(final(self).funder_index() =~= old(self).funder_index());
                Err(KeypomError::NotFound)
            },
            Some(set) => {
                let mut drop_set: HashSet<DropId> = set;
                drop_set.remove(drop_id);
                if !drop_set.is_empty() {
                    self.drop_ids_for_owner.insert(copy_bytes(&account_id.bytes), drop_set);
                }
                assert(final(self).funder_index() =~= old(self).funder_index_without(
                    account_id@,
                    *drop_id,
                ));
                Ok(())
            },
        }
    }

    /// The funder index once a drop has left a funder's set: the set
    /// without the drop, or no entry at all where nothing is left in it.
    pub open spec fn funder_index_without(&self, account: Seq<u8>, drop_id: DropId) -> Map<
        Seq<u8>,
        Set<DropId>,
    > {
        if !self.funder_index().contains_key(account) {
            self.funder_index()
        } else if self.funder_index()[account].remove(drop_id).is_empty() {
            self.funder_index().remove(account)
        } else {
            self.funder_index().insert(account, self.funder_index()[account].remove(drop_id))
        }
    }
}

/// A funder has an entry in the index exactly when it owns a drop.
pub proof fn lemma_funder_entry_iff_drops(state: Keypom, account: Seq<u8>)
    requires
        state.wf(),
    ensures
        state.funder_index().contains_key(account) <==> !state.funder_drops(account).is_empty(),
{
    if state.funder_index().contains_key(account) {
        assert(state.drop_ids_for_owner@.contains_key(account));
    }
}

/// Taking a funder's only drop away leaves the funder without an entry,
/// and taking one of several away leaves the others in its set.
pub proof fn lemma_funder_index_without(state: Keypom, account: Seq<u8>, drop_id: DropId)
    requires
        state.wf(),
        state.funder_index().contains_key(account),
    ensures
        state.funder_drops(account) == Set::<DropId>::empty().insert(drop_id)
            ==> !state.funder_index_without(account, drop_id).contains_key(account),
        state.funder_index_without(account, drop_id).contains_key(account) ==> {
            &&& state.funder_index_without(account, drop_id)[account] == state.funder_drops(
                account,
            ).remove(drop_id)
            &&& !state.funder_index_without(account, drop_id)[account].is_empty()
        },
        forall|other: Seq<u8>|
            other != account ==> (state.funder_index_without(account, drop_id).contains_key(other)
                == state.funder_index().contains_key(other)
                && state.funder_index_without(account, drop_id)[other]
                == state.funder_index()[other]),
{
    if state.funder_drops(account) == Set::<DropId>::empty().insert(drop_id) {
        assert(state.funder_drops(account).remove(drop_id) =~= Set::<DropId>::empty());
    }
}

} // verus!
