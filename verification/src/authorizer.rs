//! Proof of key possession: a signature over the configured text followed
//! by the key's nonce in decimal. Each accepted signature moves the nonce
//! on by one, so that no signature is accepted twice.

use vstd::prelude::*;
use crate::keypom::Keypom;
use crate::types::{KeyInfo, KeypomError, PublicKey};

verus! {

/// The decimal digits of a number, most significant first, in ASCII.
pub open spec fn spec_decimal(n: nat) -> Seq<u8>
    decreases n,
{
    if n < 10 {
        seq![(48 + n) as u8]
    } else {
        spec_decimal(n / 10).push((48 + n % 10) as u8)
    }
}

/// The number that a string of ASCII digits spells.
pub open spec fn spec_digits_value(digits: Seq<u8>) -> int
    decreases digits.len(),
{
    if digits.len() == 0 {
        0
    } else {
        spec_digits_value(digits.drop_last()) * 10 + (digits.last() - 48)
    }
}

/// The message that a key holder signs at the given nonce.
pub open spec fn spec_expected_message(prefix: Seq<u8>, nonce: u64) -> Seq<u8> {
    prefix + spec_decimal(nonce as nat)
}

/// Reading the decimal digits of a number gives the number back.
pub proof fn lemma_decimal_value(n: nat)
    ensures
        spec_digits_value(spec_decimal(n)) == n,
        spec_decimal(n).len() >= 1,
    decreases n,
{
    if n < 10 {
        let d = spec_decimal(n);
        assert(d.drop_last().len() == 0);
        assert(spec_digits_value(d.drop_last()) == 0);
        assert(d.last() == (48 + n) as u8);
    } else {
        lemma_decimal_value(n / 10);
        let d = spec_decimal(n);
        assert(d.drop_last() =~= spec_decimal(n / 10));
        assert(d.last() == (48 + n % 10) as u8);
    }
}

/// Different nonces give different messages: a signature made for one
/// nonce is checked against another text once the nonce has moved on.
pub proof fn lemma_messages_differ(prefix: Seq<u8>, a: u64, b: u64)
    requires
        a != b,
    ensures
        spec_expected_message(prefix, a) != spec_expected_message(prefix, b),
{
    let ma = spec_expected_message(prefix, a);
    let mb = spec_expected_message(prefix, b);
    if ma == mb {
        let da = spec_decimal(a as nat);
        let db = spec_decimal(b as nat);
        assert(ma.subrange(prefix.len() as int, ma.len() as int) =~= da);
        assert(mb.subrange(prefix.len() as int, mb.len() as int) =~= db);
        lemma_decimal_value(a as nat);
        lemma_decimal_value(b as nat);
        assert(false);
    }
}

/// Writes a number in decimal.
pub fn decimal_text(n: u64) -> (out: Vec<u8>)
    ensures
        out@ == spec_decimal(n as nat),
    decreases n,
{
    if n < 10 {
        let mut out: Vec<u8> = Vec::new();
        out.push(48u8 + (n as u8));
        assert(out@ =~= spec_decimal(n as nat));
        out
    } else {
        let mut out = decimal_text(n / 10);
        out.push(48u8 + ((n % 10) as u8));
        out
    }
}

/// Builds the message that a key holder signs at the given nonce.
pub fn expected_message(prefix: &Vec<u8>, nonce: u64) -> (out: Vec<u8>)
    ensures
        out@ == spec_expected_message(prefix@, nonce),
{
    let mut out: Vec<u8> = Vec::new();
    let mut i: usize = 0;
    while i < prefix.len()
        invariant
            i <= prefix.len(),
            out@ == prefix@.subrange(0, i as int),
        decreases prefix.len() - i,
    {
        out.push(prefix[i]);
        assert(out@ =~= prefix@.subrange(0, i + 1));
        i += 1;
    }
    assert(out@ =~= prefix@);
    let mut digits = decimal_text(nonce);
    out.append(&mut digits);
    out
}

/// A name for the verdict of the host's Ed25519 verification on a 64-byte
/// signature, a message and a 32-byte public key.
pub uninterp spec fn ed25519_valid(signature: Seq<u8>, message: Seq<u8>, public_key: Seq<u8>)
    -> bool;

/// Calls `near_sdk::env::ed25519_verify`. The contract only names the
/// answer, and so takes it that equal signature, message and key always
/// get an equal answer. The host meters the call and aborts it when gas
/// runs out.
#[verifier::external_body]
fn ed25519_check(signature: &[u8; 64], message: &Vec<u8>, public_key: &[u8; 32]) -> (valid: bool)
    ensures
        valid == ed25519_valid(signature@, message@, public_key@),
{
    near_sdk::env::ed25519_verify(signature, message, public_key)
}

impl Keypom {
    /// What a signature check answers before the signature is looked at:
    /// the error that aborts it, or the key's state.
    pub open spec fn spec_lookup_key(&self, signer_pk: Seq<u8>, pk: Seq<u8>) -> Result<
        KeyInfo,
        KeypomError,
    > {
        if signer_pk != self.signing_pk@ {
            Err(KeypomError::Unauthorized)
        } else if !self.key_info_for_pk@.contains_key(pk) {
            Err(KeypomError::NotFound)
        } else if !self.drop_for_id@.contains_key(self.key_info_for_pk@[pk].drop_id) {
            Err(KeypomError::NotFound)
        } else {
            Ok(self.key_info_for_pk@[pk])
        }
    }

    /// The keys once a verdict on a key has been recorded: an accepted
    /// signature moves that key's nonce on by one, a rejected one changes
    /// nothing.
    pub open spec fn spec_keys_after_verdict(&self, pk: Seq<u8>, valid: bool) -> Map<
        Seq<u8>,
        KeyInfo,
    > {
        if valid {
            let info = self.key_info_for_pk@[pk];
            self.key_info_for_pk@.insert(
                pk,
                KeyInfo { nonce: (info.nonce + 1) as u64, ..info },
            )
        } else {
            self.key_info_for_pk@
        }
    }

    /// Records the verdict on a signature for a known key.
    pub fn record_verdict(&mut self, pk: &PublicKey, valid: bool) -> (r: bool)
        requires
            old(self).wf(),
            old(self).key_info_for_pk@.contains_key(pk@),
            old(self).key_info_for_pk@[pk@].nonce < u64::MAX,
        ensures
            r == valid,
            final(self).wf(),
            final(self).key_info_for_pk@ == old(self).spec_keys_after_verdict(pk@, valid),
            *final(self) == (Keypom {
                key_info_for_pk: final(self).key_info_for_pk,
                ..*old(self)
            }),
    {
        if valid {
            let bytes = pk.to_bytes();
            let info = match self.key_info_for_pk.get(&bytes) {
                Some(found) => *found,
                None => {
                    return valid;
                },
            };
            self.key_info_for_pk.insert(
                bytes,
                KeyInfo { drop_id: info.drop_id, remaining_uses: info.remaining_uses, nonce: info.nonce + 1 },
            );
        }
        valid
    }

    /// Checks a signature made with the key `pk` over the configured text
    /// followed by the key's nonce. Only a transaction signed by the
    /// contract's signing key may ask; the key and its drop must exist.
    /// An accepted signature moves the nonce on by one; a rejected one,
    /// or an aborted call, changes nothing.
    pub fn verify_signature(&mut self, signer_pk: &PublicKey, signature: &[u8; 64], pk: &PublicKey) -> (r:
        Result<bool, KeypomError>)
        requires
            old(self).wf(),
            old(self).key_info_for_pk@.contains_key(pk@) ==> old(self).key_info_for_pk@[pk@].nonce
                < u64::MAX,
        ensures
            final(self).wf(),
            match old(self).spec_lookup_key(signer_pk@, pk@) {
                Err(e) => r == Err::<bool, KeypomError>(e) && *final(self) == *old(self),
                Ok(info) => {
                    &&& r == Ok::<bool, KeypomError>(
                        ed25519_valid(
                            signature@,
                            spec_expected_message(old(self).message@, info.nonce),
                            pk@,
                        ),
                    )
                    &&& final(self).key_info_for_pk@ == old(self).spec_keys_after_verdict(
                        pk@,
                        r->Ok_0,
                    )
                    &&& *final(self) == (Keypom {
                        key_info_for_pk: final(self).key_info_for_pk,
                        ..*old(self)
                    })
                },
            },
    {
        match self.assert_contract_key(signer_pk) {
            Ok(_) => {},
            Err(e) => {
                return Err(e);
            },
        }
        let info = match self.key_info(pk) {
            Some(found) => found,
            None => {
                return Err(KeypomError::NotFound);
            },
        };
        if !self.drop_for_id.contains_key(&info.drop_id) {
            return Err(KeypomError::NotFound);
        }
        let message = expected_message(&self.message, info.nonce);
        let valid = ed25519_check(signature, &message, &pk.data);
        Ok(self.record_verdict(pk, valid))
    }
}

/// The nonce of a key moves on by exactly one with an accepted signature
/// and stays with a rejected one; and after an accepted signature the
/// message that is checked next differs from the one that was signed.
pub proof fn lemma_nonce_moves_on(state: Keypom, pk: Seq<u8>, valid: bool, prefix: Seq<u8>)
    requires
        state.key_info_for_pk@.contains_key(pk),
        state.key_info_for_pk@[pk].nonce < u64::MAX,
    ensures
        state.spec_keys_after_verdict(pk, valid).contains_key(pk),
        valid ==> state.spec_keys_after_verdict(pk, valid)[pk].nonce
            == state.key_info_for_pk@[pk].nonce + 1,
        !valid ==> state.spec_keys_after_verdict(pk, valid)[pk].nonce
            == state.key_info_for_pk@[pk].nonce,
        forall|other: Seq<u8>|
            other != pk ==> (state.spec_keys_after_verdict(pk, valid).contains_key(other)
                == state.key_info_for_pk@.contains_key(other)
                && state.spec_keys_after_verdict(pk, valid)[other]
                == state.key_info_for_pk@[other]),
        valid ==> spec_expected_message(
            prefix,
            state.spec_keys_after_verdict(pk, valid)[pk].nonce,
        ) != spec_expected_message(prefix, state.key_info_for_pk@[pk].nonce),
{
    if valid {
        lemma_messages_differ(
            prefix,
            state.spec_keys_after_verdict(pk, valid)[pk].nonce,
            state.key_info_for_pk@[pk].nonce,
        );
    }
}

} // verus!
