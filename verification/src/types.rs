//! The data that the claim and refund logic reads and writes.

use vstd::prelude::*;
use crate::bytemap::{bytes_eq, copy_bytes};

verus! {

/// Identity of a drop.
pub type DropId = u128;

/// 5 TGas: the least a storage registration call is given.
pub const MIN_GAS_FOR_STORAGE_DEPOSIT: u64 = 5_000_000_000_000;

/// 5 TGas: the least a token transfer call is given.
pub const MIN_GAS_FOR_FT_TRANSFER: u64 = 5_000_000_000_000;

/// 5 TGas: the least the call that resolves a transfer batch is given.
pub const MIN_GAS_FOR_RESOLVE_BATCH: u64 = 5_000_000_000_000;

/// 55 TGas: what is reserved for a claim callback chained after pending work.
pub const MIN_GAS_FOR_ON_CLAIM: u64 = 55_000_000_000_000;

/// Why a call was aborted before it changed anything.
#[derive(Debug, PartialEq, Eq, Structural, Clone, Copy)]
pub enum KeypomError {
    /// The caller or signer may not perform the action.
    Unauthorized,
    /// A drop, key or funder record that the action needs is missing.
    NotFound,
    /// A claim on a non-fungible-token drop named no token.
    MissingTokenId,
}

/// An account on the network, by the bytes of its name.
#[derive(Debug)]
pub struct AccountId {
    pub bytes: Vec<u8>,
}

impl View for AccountId {
    type V = Seq<u8>;

    open spec fn view(&self) -> Seq<u8> {
        self.bytes@
    }
}

impl AccountId {
    pub fn new(bytes: Vec<u8>) -> (a: AccountId)
        ensures
            a@ == bytes@,
    {
        AccountId { bytes }
    }

    /// A second value for the same account.
    pub fn duplicate(&self) -> (a: AccountId)
        ensures
            a@ == self@,
    {
        AccountId { bytes: copy_bytes(&self.bytes) }
    }

    /// Whether both name the same account.
    pub fn same(&self, other: &AccountId) -> (b: bool)
        ensures
            b == (self@ == other@),
    {
        bytes_eq(&self.bytes, &other.bytes)
    }
}

/// An Ed25519 public key: its 32 raw bytes.
#[derive(Debug, Clone, Copy)]
pub struct PublicKey {
    pub data: [u8; 32],
}

impl View for PublicKey {
    type V = Seq<u8>;

    open spec fn view(&self) -> Seq<u8> {
        self.data@
    }
}

impl PublicKey {
    pub fn new(data: [u8; 32]) -> (k: PublicKey)
        ensures
            k@ == data@,
    {
        PublicKey { data }
    }

    /// The key's bytes as a vector, the form under which keys are indexed.
    pub fn to_bytes(&self) -> (out: Vec<u8>)
        ensures
            out@ == self@,
    {
        let mut out: Vec<u8> = Vec::new();
        let mut i: usize = 0;
        while i < 32
            invariant
                i <= 32,
                out@ == self.data@.subrange(0, i as int),
            decreases 32 - i,
        {
            out.push(self.data[i]);
            assert(out@ =~= self.data@.subrange(0, i + 1));
            i += 1;
        }
        assert(out@ =~= self.data@);
        out
    }

    /// Whether both hold the same bytes.
    pub fn same(&self, other: &PublicKey) -> (b: bool)
        ensures
            b == (self@ == other@),
    {
        let a = self.to_bytes();
        let o = other.to_bytes();
        bytes_eq(&a, &o)
    }
}

/// Per-key state.
#[derive(Debug, PartialEq, Eq, Structural, Clone, Copy)]
pub struct KeyInfo {
    /// The drop that the key belongs to.
    pub drop_id: DropId,
    /// How many claims the key still has.
    pub remaining_uses: u64,
    /// Counts the signatures accepted for this key.
    pub nonce: u64,
}

/// The fees charged for creating drops and keys.
#[derive(Debug, PartialEq, Eq, Structural, Clone, Copy)]
pub struct KeypomFees {
    pub per_drop: u128,
    pub per_key: u128,
}

/// Payload of a function-call drop, carried through untouched.
#[derive(Debug)]
pub struct FCData {
    pub payload: Vec<u8>,
}

/// Payload of a non-fungible-token drop.
#[derive(Debug)]
pub struct NFTData {
    pub sender_id: AccountId,
    pub contract_id: AccountId,
}

/// Payload of a fungible-token drop.
#[derive(Debug)]
pub struct InternalFTData {
    /// Identity of this payload within its drop.
    pub data_id: u64,
    /// The token contract.
    pub contract_id: AccountId,
    /// Tokens that may still be handed out.
    pub balance_avail: u128,
    /// Storage deposit that the token contract asks of a new holder.
    pub registration_cost: u128,
}

/// What a drop releases when one of its keys is claimed.
#[derive(Debug)]
pub enum DropType {
    Simple,
    FunctionCall(FCData),
    NonFungibleToken(NFTData),
    FungibleToken(InternalFTData),
}

#[derive(Debug, PartialEq, Eq, Structural, Clone, Copy)]
pub struct DropConfig {
    pub uses_per_key: Option<u64>,
}

#[derive(Debug)]
pub struct Drop {
    /// The funder.
    pub owner_id: AccountId,
    /// Value released per claim.
    pub deposit_per_use: u128,
    pub drop_type: DropType,
    pub config: Option<DropConfig>,
}

/// Remote work already scheduled, after which a callback can be chained.
#[derive(Debug, PartialEq, Eq, Structural, Clone, Copy)]
pub struct PendingCall {
    pub index: u64,
}

/// What the host reports of a finished remote call.
#[derive(Debug)]
pub enum PromiseOutcome {
    /// The call returned these bytes.
    Successful(Vec<u8>),
    /// The call failed.
    Failed,
}

} // verus!
