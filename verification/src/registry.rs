//! Drops and keys in the registry: adding them, force-removing a drop
//! with its keys, and the registration cache for token contracts.

use vstd::prelude::*;
use vstd::std_specs::hash::*;
use crate::bytemap::copy_bytes;
use crate::keypom::{Keypom, RegistrationAction};
use crate::types::{
    AccountId, Drop, DropId, KeyInfo, KeypomError, PublicKey, MIN_GAS_FOR_FT_TRANSFER,
};

verus! {

broadcast use vstd::std_specs::hash::group_hash_axioms;

/// The keys among the first `n` of `pks`, as the byte strings that index them.
pub open spec fn key_set(pks: Seq<PublicKey>, n: int) -> Set<Seq<u8>> {
    Set::new(|k: Seq<u8>| exists|j: int| 0 <= j < n && #[trigger] pks[j]@ == k)
}

/// What a registration request does to the set of registered token
/// contracts, and whether it issues a remote registration call.
pub open spec fn spec_register_step(registered: Set<Seq<u8>>, contract: Seq<u8>) -> (
    Set<Seq<u8>>,
    bool,
) {
    (registered.insert(contract), !registered.contains(contract))
}

/// Two registration requests for one token contract issue at most one
/// remote registration call: the second finds the contract registered,
/// whatever the set held before, and leaves the set as the first left it.
pub proof fn lemma_registration_idempotent(registered: Set<Seq<u8>>, contract: Seq<u8>)
    ensures
        spec_register_step(registered, contract).0.contains(contract),
        !spec_register_step(spec_register_step(registered, contract).0, contract).1,
        spec_register_step(spec_register_step(registered, contract).0, contract).0
            == spec_register_step(registered, contract).0,
{
    let first = spec_register_step(registered, contract).0;
    assert(first.insert(contract) =~= first);
}

impl Keypom {
    /// Everything but the drops, the funder index and the keys is equal.
    pub open spec fn same_settings(&self, other: &Keypom) -> bool {
        &&& self.contract_owner_id == other.contract_owner_id
        &&& self.root_account == other.root_account
        &&& self.signing_pk == other.signing_pk
        &&& self.message == other.message
        &&& self.fee_structure == other.fee_structure
        &&& self.fees_per_user == other.fees_per_user
        &&& self.fees_collected == other.fees_collected
        &&& self.global_freeze == other.global_freeze
        &&& self.user_balances == other.user_balances
        &&& self.registered_ft_contracts == other.registered_ft_contracts
    }

    /// Stores a drop under its identity, replacing an earlier one.
    pub fn add_drop(&mut self, drop_id: DropId, drop: Drop)
        requires
            old(self).wf(),
        ensures
            final(self).wf(),
            final(self).drop_for_id@ == old(self).drop_for_id@.insert(drop_id, drop),
            final(self).same_settings(old(self)),
            final(self).drop_ids_for_owner == old(self).drop_ids_for_owner,
            final(self).key_info_for_pk == old(self).key_info_for_pk,
    {
        self.drop_for_id.insert(drop_id, drop);
    }

    /// Stores the state of a key, replacing an earlier one.
    pub fn add_key(&mut self, pk: &PublicKey, info: KeyInfo)
        requires
            old(self).wf(),
        ensures
            final(self).wf(),
            final(self).key_info_for_pk@ == old(self).key_info_for_pk@.insert(pk@, info),
            *final(self) == (Keypom {
                key_info_for_pk: final(self).key_info_for_pk,
                ..*old(self)
            }),
    {
        self.key_info_for_pk.insert(pk.to_bytes(), info);
    }

    /// The state of a key, if the key is known.
    pub fn key_info(&self, pk: &PublicKey) -> (r: Option<KeyInfo>)
        requires
            self.wf(),
        ensures
            r == (if self.key_info_for_pk@.contains_key(pk@) {
                Some(self.key_info_for_pk@[pk@])
            } else {
                None
            }),
    {
        let bytes = pk.to_bytes();
        match self.key_info_for_pk.get(&bytes) {
            Some(info) => Some(*info),
            None => None,
        }
    }

    /// Whether a funder has an entry in the funder index.
    pub fn funder_has_drops(&self, account_id: &AccountId) -> (b: bool)
        requires
            self.wf(),
        ensures
            b == self.funder_index().contains_key(account_id@),
            b == !self.funder_drops(account_id@).is_empty(),
    {
        self.drop_ids_for_owner.contains_key(&account_id.bytes)
    }

    /// Whether a drop is in a funder's set.
    pub fn funder_owns(&self, account_id: &AccountId, drop_id: &DropId) -> (b: bool)
        requires
            self.wf(),
        ensures
            b == self.funder_drops(account_id@).contains(*drop_id),
    {
        match self.drop_ids_for_owner.get(&account_id.bytes) {
            Some(set) => set.contains(drop_id),
            None => false,
        }
    }

    /// Whether a force-removal of the drop goes through: the drop exists
    /// and its funder has an entry in the funder index.
    pub open spec fn can_remove_drop(&self, drop_id: DropId) -> bool {
        &&& self.drop_for_id@.contains_key(drop_id)
        &&& self.funder_index().contains_key(self.drop_for_id@[drop_id].owner_id@)
    }

    /// Force-removes a drop: the drop itself, its entry in its funder's
    /// set, and the state of each of the given keys. Returns the funder.
    /// Where the drop or its funder's entry is missing, nothing changes.
    pub fn internal_remove_drop(&mut self, drop_id: &DropId, public_keys: Vec<PublicKey>) -> (r:
        Result<AccountId, KeypomError>)
        requires
            old(self).wf(),
        ensures
            final(self).wf(),
            !old(self).can_remove_drop(*drop_id) ==> r is Err && r->Err_0 == KeypomError::NotFound
                && *final(self) == *old(self),
            old(self).can_remove_drop(*drop_id) ==> {
                &&& r is Ok
                &&& r->Ok_0@ == old(self).drop_for_id@[*drop_id].owner_id@
                &&& final(self).same_settings(old(self))
                &&& final(self).drop_for_id@ == old(self).drop_for_id@.remove(*drop_id)
                &&& final(self).funder_index() == old(self).funder_index_without(
                    old(self).drop_for_id@[*drop_id].owner_id@,
                    *drop_id,
                )
                &&& final(self).key_info_for_pk@ == old(self).key_info_for_pk@.remove_keys(
                    key_set(public_keys@, public_keys@.len() as int),
                )
            },
    {
        let owner_id = match self.drop_for_id.get(drop_id) {
            Some(drop) => drop.owner_id.duplicate(),
            None => {
                return Err(KeypomError::NotFound);
            },
        };
        if !self.drop_ids_for_owner.contains_key(&owner_id.bytes) {
            return Err(KeypomError::NotFound);
        }
        self.drop_for_id.remove(drop_id);
        let _ = self.internal_remove_drop_for_funder(&owner_id, drop_id);
        let ghost before = *self;
        let ghost keys_before = self.key_info_for_pk@;
        assert(keys_before.remove_keys(key_set(public_keys@, 0)) =~= keys_before);
        let mut i: usize = 0;
        while i < public_keys.len()
            invariant
                i <= public_keys.len(),
                self.wf(),
                *self == (Keypom { key_info_for_pk: self.key_info_for_pk, ..before }),
                self.key_info_for_pk@ == keys_before.remove_keys(key_set(public_keys@, i as int)),
            decreases public_keys.len() - i,
        {
            let bytes = public_keys[i].to_bytes();
            self.key_info_for_pk.remove(&bytes);
            proof {
                let done = key_set(public_keys@, i as int);
                let next = key_set(public_keys@, i + 1);
                assert forall|k: Seq<u8>| next.contains(k) == (done.contains(k) || k
                    == public_keys@[i as int]@) by {
                    if done.contains(k) {
                        let j = choose|j: int| 0 <= j < i && #[trigger] public_keys@[j]@ == k;
                        assert(0 <= j < i + 1 && public_keys@[j]@ == k);
                    }
                    if k == public_keys@[i as int]@ {
                        assert(0 <= i < i + 1 && public_keys@[i as int]@ == k);
                    }
                }
                assert(self.key_info_for_pk@ =~= keys_before.remove_keys(next));
            }
            i += 1;
        }
        Ok(owner_id)
    }

    /// Makes sure that this contract is registered on a token contract.
    /// For one not seen before, a registration call funded by
    /// `storage_required` is planned and the contract is marked as seen;
    /// whether that call succeeds is not looked at. For one seen before,
    /// the storage cost goes back to `account_to_refund`: onto its balance
    /// where `refund_balance` is set, by a transfer otherwise.
    pub fn internal_register_ft_contract(
        &mut self,
        ft_contract_id: &AccountId,
        storage_required: u128,
        account_to_refund: &AccountId,
        refund_balance: bool,
    ) -> (action: RegistrationAction)
        requires
            old(self).wf(),
            old(self).is_registered(ft_contract_id@) && refund_balance ==> old(self).balance_of(
                account_to_refund@,
            ) + storage_required <= u128::MAX,
        ensures
            final(self).wf(),
            final(self).registered_ft_contracts@.dom() == spec_register_step(
                old(self).registered_ft_contracts@.dom(),
                ft_contract_id@,
            ).0,
            (action is Register) == spec_register_step(
                old(self).registered_ft_contracts@.dom(),
                ft_contract_id@,
            ).1,
            !old(self).is_registered(ft_contract_id@) ==> {
                &&& action matches RegistrationAction::Register { contract_id, deposit, static_gas }
                    && contract_id@ == ft_contract_id@ && deposit == storage_required && static_gas
                    == MIN_GAS_FOR_FT_TRANSFER
                &&& *final(self) == (Keypom {
                    registered_ft_contracts: final(self).registered_ft_contracts,
                    ..*old(self)
                })
            },
            old(self).is_registered(ft_contract_id@) && refund_balance ==> {
                &&& action is BalanceCredited
                &&& final(self).user_balances@ == old(self).user_balances@.insert(
                    account_to_refund@,
                    (old(self).balance_of(account_to_refund@) + storage_required) as u128,
                )
                &&& *final(self) == (Keypom {
                    user_balances: final(self).user_balances,
                    ..*old(self)
                })
            },
            old(self).is_registered(ft_contract_id@) && !refund_balance ==> {
                &&& action matches RegistrationAction::Transfer { account_id, amount }
                    && account_id@ == account_to_refund@ && amount == storage_required
                &&& *final(self) == *old(self)
            },
    {
        if !self.registered_ft_contracts.contains_key(&ft_contract_id.bytes) {
            self.registered_ft_contracts.insert(copy_bytes(&ft_contract_id.bytes), ());
            assert(final(self).registered_ft_contracts@.dom() =~= old(
                self,
            ).registered_ft_contracts@.dom().insert(ft_contract_id@));
            return RegistrationAction::Register {
                contract_id: ft_contract_id.duplicate(),
                deposit: storage_required,
                static_gas: MIN_GAS_FOR_FT_TRANSFER,
            };
        }
        assert(old(self).registered_ft_contracts@.dom().insert(ft_contract_id@) =~= old(
            self,
        ).registered_ft_contracts@.dom());
        if refund_balance {
            let cur_user_bal: u128 = match self.user_balances.get(&account_to_refund.bytes) {
                Some(balance) => *balance,
                None => 0,
            };
            self.user_balances.insert(
                copy_bytes(&account_to_refund.bytes),
                cur_user_bal + storage_required,
            );
            return RegistrationAction::BalanceCredited;
        }
        RegistrationAction::Transfer {
            account_id: account_to_refund.duplicate(),
            amount: storage_required,
        }
    }
}

} // verus!
