//! Event records for keys that are added and deleted. They are gathered
//! in memory during a call and written out once at its end.

use vstd::prelude::*;
use crate::types::{AccountId, PublicKey};

verus! {

/// A key's token was minted.
#[derive(Debug)]
pub struct NftMintLog {
    pub owner_id: AccountId,
    pub token_ids: Vec<String>,
    pub memo: Option<String>,
}

/// A key's token was burned.
#[derive(Debug)]
pub struct NftBurnLog {
    pub owner_id: AccountId,
    pub token_ids: Vec<String>,
    pub authorized_id: Option<String>,
    pub memo: Option<String>,
}

/// A key was added to a drop, or deleted from it.
#[derive(Debug)]
pub struct AddOrDeleteKeyLog {
    pub owner_id: AccountId,
    pub drop_id: String,
    pub public_key: PublicKey,
    pub metadata: Option<String>,
}

/// The text of an optional string, if there is one.
pub open spec fn text_of(s: Option<String>) -> Option<Seq<char>> {
    match s {
        Some(text) => Some(text@),
        None => None,
    }
}

impl NftMintLog {
    /// The record of one token minted for `owner`, without a memo.
    pub open spec fn records(&self, owner: Seq<u8>, token_id: Seq<char>) -> bool {
        &&& self.owner_id@ == owner
        &&& self.token_ids@.len() == 1
        &&& self.token_ids@[0]@ == token_id
        &&& self.memo is None
    }
}

impl NftBurnLog {
    /// The record of one token of `owner` burned, by the owner itself and
    /// without a memo.
    pub open spec fn records(&self, owner: Seq<u8>, token_id: Seq<char>) -> bool {
        &&& self.owner_id@ == owner
        &&& self.token_ids@.len() == 1
        &&& self.token_ids@[0]@ == token_id
        &&& self.authorized_id is None
        &&& self.memo is None
    }
}

impl AddOrDeleteKeyLog {
    /// The record of the given key of the given drop.
    pub open spec fn records(
        &self,
        owner: Seq<u8>,
        drop_id: Seq<char>,
        pk: Seq<u8>,
        metadata: Option<Seq<char>>,
    ) -> bool {
        &&& self.owner_id@ == owner
        &&& self.drop_id@ == drop_id
        &&& self.public_key@ == pk
        &&& text_of(self.metadata) == metadata
    }
}

fn copy_text(s: &Option<String>) -> (out: Option<String>)
    ensures
        text_of(out) == text_of(*s),
{
    match s {
        Some(text) => Some(text.clone()),
        None => None,
    }
}

fn key_log(token_owner: &AccountId, drop_id: &String, pk: &PublicKey, key_metadata: &Option<String>) -> (log:
    AddOrDeleteKeyLog)
    ensures
        log.records(token_owner@, drop_id@, pk@, text_of(*key_metadata)),
{
    AddOrDeleteKeyLog {
        owner_id: token_owner.duplicate(),
        drop_id: drop_id.clone(),
        public_key: PublicKey { data: pk.data },
        metadata: copy_text(key_metadata),
    }
}

/// Records a new key: one mint record and one key record are appended,
/// and the records gathered before stay as they are.
pub fn add_new_key_logs(
    nft_mint_logs: &mut Vec<NftMintLog>,
    add_key_logs: &mut Vec<AddOrDeleteKeyLog>,
    token_owner: &AccountId,
    drop_id: &String,
    pk: &PublicKey,
    token_id: &String,
    key_metadata: &Option<String>,
)
    ensures
        final(nft_mint_logs)@.len() == old(nft_mint_logs)@.len() + 1,
        final(nft_mint_logs)@.drop_last() == old(nft_mint_logs)@,
        final(nft_mint_logs)@.last().records(token_owner@, token_id@),
        final(add_key_logs)@.len() == old(add_key_logs)@.len() + 1,
        final(add_key_logs)@.drop_last() == old(add_key_logs)@,
        final(add_key_logs)@.last().records(
            token_owner@,
            drop_id@,
            pk@,
            text_of(*key_metadata),
        ),
{
    let mut token_ids: Vec<String> = Vec::new();
    token_ids.push(token_id.clone());
    nft_mint_logs.push(NftMintLog { owner_id: token_owner.duplicate(), token_ids, memo: None });
    add_key_logs.push(key_log(token_owner, drop_id, pk, key_metadata));
    assert(final(nft_mint_logs)@.drop_last() =~= old(nft_mint_logs)@);
    assert(final(add_key_logs)@.drop_last() =~= old(add_key_logs)@);
}

/// Records a deleted key: one burn record and one key record are
/// appended, and the records gathered before stay as they are.
pub fn add_delete_key_logs(
    nft_burn_logs: &mut Vec<NftBurnLog>,
    delete_key_logs: &mut Vec<AddOrDeleteKeyLog>,
    token_owner: &AccountId,
    drop_id: &String,
    pk: &PublicKey,
    token_id: &String,
    key_metadata: &Option<String>,
)
    ensures
        final(nft_burn_logs)@.len() == old(nft_burn_logs)@.len() + 1,
        final(nft_burn_logs)@.drop_last() == old(nft_burn_logs)@,
        final(nft_burn_logs)@.last().records(token_owner@, token_id@),
        final(delete_key_logs)@.len() == old(delete_key_logs)@.len() + 1,
        final(delete_key_logs)@.drop_last() == old(delete_key_logs)@,
        final(delete_key_logs)@.last().records(
            token_owner@,
            drop_id@,
            pk@,
            text_of(*key_metadata),
        ),
{
    let mut token_ids: Vec<String> = Vec::new();
    token_ids.push(token_id.clone());
    nft_burn_logs.push(
        NftBurnLog {
            owner_id: token_owner.duplicate(),
            token_ids,
            authorized_id: None,
            memo: None,
        },
    );
    delete_key_logs.push(key_log(token_owner, drop_id, pk, key_metadata));
    assert(final(nft_burn_logs)@.drop_last() =~= old(nft_burn_logs)@);
    assert(final(delete_key_logs)@.drop_last() =~= old(delete_key_logs)@);
}

} // verus!
