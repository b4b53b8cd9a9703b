//! Evidence that validators signed a slashable vote, and the checks on it
//! that come before the signature check.

use crate::attestation::{AttestationData, AttestationDataAndCustodyBit};
use crate::consts::{DOMAIN_ATTESTATION, MAX_INDICES_PER_SLASHABLE_VOTE};
use crate::primitives::{BitField, Signature, ValidatorId, ValidatorIndex, H256};
use crate::state::{bls_domain, spec_bls_domain, BeaconState, BeaconStateView};
use crate::util::{slot_to_epoch, spec_slot_to_epoch};
use crate::validator::Validator;
use vstd::prelude::*;

verus! {

/// A vote with the validators that signed it, as a slashing presents it.
#[derive(Debug)]
pub struct SlashableAttestation {
    /// The signers, by registry index, in ascending order.
    pub validator_indices: Vec<ValidatorIndex>,
    /// What they voted for.
    pub data: AttestationData,
    /// Their custody bits.
    pub custody_bitfield: BitField,
    /// Their signatures, aggregated.
    pub aggregate_signature: Signature,
}

/// What the signature check of a slashable vote is to be run on: the keys
/// of the signers by custody bit, the message that each group signed, the
/// aggregate signature and the domain.
#[derive(Debug)]
pub struct SlashableVerification {
    /// Keys of the signers whose custody bit is clear.
    pub custody_bit_0_pubkeys: Vec<ValidatorId>,
    /// Keys of the signers whose custody bit is set.
    pub custody_bit_1_pubkeys: Vec<ValidatorId>,
    /// Root of the vote with the custody bit clear.
    pub custody_bit_0_message: H256,
    /// Root of the vote with the custody bit set.
    pub custody_bit_1_message: H256,
    /// The signatures of all signers, aggregated.
    pub aggregate_signature: Signature,
    /// The signature domain of attestations at the epoch of the vote.
    pub domain: u64,
}

/// The keys of those of the first `count` signers whose custody bit is
/// `bit`, in the order of the signers.
pub open spec fn spec_pubkeys_with_bit(
    registry: Seq<Validator>,
    indices: Seq<ValidatorIndex>,
    bits: Seq<bool>,
    bit: bool,
    count: nat,
) -> Seq<ValidatorId>
    decreases count,
{
    if count == 0 {
        Seq::empty()
    } else {
        let before = spec_pubkeys_with_bit(registry, indices, bits, bit, (count - 1) as nat);
        if (count - 1 < bits.len() && bits[count - 1]) == bit {
            before.push(registry[indices[count - 1] as int].pubkey)
        } else {
            before
        }
    }
}

impl BeaconStateView {
    /// Whether a slashable vote passes every check that comes before the
    /// signature check: no custody bit is set; there is a signer; the
    /// signers are in ascending order; there is one custody bit for each;
    /// they are no more than a vote may name; and each is a validator of
    /// the registry.
    pub open spec fn is_slashable_attestation_formed(
        &self,
        slashable: SlashableAttestation,
    ) -> bool {
        let indices = slashable.validator_indices@;
        let custody = slashable.custody_bitfield@;
        &&& forall|i: int| 0 <= i < custody.len() ==> !custody[i]
        &&& indices.len() > 0
        &&& forall|i: int| 0 <= i < indices.len() - 1 ==> indices[i] <= #[trigger] indices[i + 1]
        &&& custody.len() == indices.len()
        &&& indices.len() <= MAX_INDICES_PER_SLASHABLE_VOTE
        &&& forall|i: int|
            0 <= i < indices.len() ==> #[trigger] indices[i] < self.validator_registry.len()
    }

    /// Whether `verification` is what the signature check of `slashable`
    /// is to be run on.
    pub open spec fn is_verification_of(
        &self,
        verification: SlashableVerification,
        slashable: SlashableAttestation,
    ) -> bool {
        let indices = slashable.validator_indices@;
        let custody = slashable.custody_bitfield@;
        &&& verification.custody_bit_0_pubkeys@ == spec_pubkeys_with_bit(
            self.validator_registry,
            indices,
            custody,
            false,
            indices.len(),
        )
        &&& verification.custody_bit_1_pubkeys@ == spec_pubkeys_with_bit(
            self.validator_registry,
            indices,
            custody,
            true,
            indices.len(),
        )
        &&& verification.custody_bit_0_message@ == (AttestationDataAndCustodyBit {
            data: slashable.data,
            custody_bit: false,
        }).spec_hash()
        &&& verification.custody_bit_1_message@ == (AttestationDataAndCustodyBit {
            data: slashable.data,
            custody_bit: true,
        }).spec_hash()
        &&& verification.aggregate_signature == slashable.aggregate_signature
        &&& verification.domain == spec_bls_domain(
            self.fork,
            spec_slot_to_epoch(slashable.data.slot),
            DOMAIN_ATTESTATION,
        )
    }
}

impl BeaconState {
    /// Checks a slashable vote as far as can be done without its
    /// signature, and says what the signature check is to be run on.
    /// `None` means that the vote is refused whatever its signature.
    pub fn slashable_attestation_verification(&self, slashable: &SlashableAttestation) -> (r:
        Option<SlashableVerification>)
        ensures
            r is Some <==> self@.is_slashable_attestation_formed(*slashable),
            r matches Some(verification) ==> self@.is_verification_of(verification, *slashable),
    {
        if !slashable.custody_bitfield.is_clear() {
            return None;
        }
        let count = slashable.validator_indices.len();
        if count == 0 {
            return None;
        }
        let mut i: usize = 0;
        while i < count - 1
            invariant
                count == slashable.validator_indices@.len(),
                count > 0,
                i <= count - 1,
                forall|j: int|
                    0 <= j < i ==> slashable.validator_indices@[j]
                        <= #[trigger] slashable.validator_indices@[j + 1],
            decreases count - i,
        {
            if slashable.validator_indices[i] > slashable.validator_indices[i + 1] {
                return None;
            }
            i += 1;
        }
        if slashable.custody_bitfield.count() != count {
            return None;
        }
        if count > MAX_INDICES_PER_SLASHABLE_VOTE {
            return None;
        }
        let registry_len = self.validator_registry.len();
        let mut custody_bit_0_pubkeys: Vec<ValidatorId> = Vec::new();
        let mut custody_bit_1_pubkeys: Vec<ValidatorId> = Vec::new();
        let mut k: usize = 0;
        while k < count
            invariant
                count == slashable.validator_indices@.len(),
                registry_len == self@.validator_registry.len(),
                k <= count,
                forall|j: int|
                    0 <= j < k ==> #[trigger] slashable.validator_indices@[j]
                        < self@.validator_registry.len(),
                custody_bit_0_pubkeys@ == spec_pubkeys_with_bit(
                    self@.validator_registry,
                    slashable.validator_indices@,
                    slashable.custody_bitfield@,
                    false,
                    k as nat,
                ),
                custody_bit_1_pubkeys@ == spec_pubkeys_with_bit(
                    self@.validator_registry,
                    slashable.validator_indices@,
                    slashable.custody_bitfield@,
                    true,
                    k as nat,
                ),
            decreases count - k,
        {
            let validator_index = slashable.validator_indices[k];
            if validator_index >= registry_len as u64 {
                return None;
            }
            let pubkey = self.validator_registry[validator_index as usize].pubkey;
            if !slashable.custody_bitfield.has_voted(k) {
                custody_bit_0_pubkeys.push(pubkey);
            } else {
                custody_bit_1_pubkeys.push(pubkey);
            }
            k += 1;
        }
        let custody_bit_0_message = (AttestationDataAndCustodyBit {
            data: slashable.data,
            custody_bit: false,
        }).hash();
        let custody_bit_1_message = (AttestationDataAndCustodyBit {
            data: slashable.data,
            custody_bit: true,
        }).hash();
        Some(
            SlashableVerification {
                custody_bit_0_pubkeys,
                custody_bit_1_pubkeys,
                custody_bit_0_message,
                custody_bit_1_message,
                aggregate_signature: slashable.aggregate_signature,
                domain: bls_domain(
                    &self.fork,
                    slot_to_epoch(slashable.data.slot),
                    DOMAIN_ATTESTATION,
                ),
            },
        )
    }

    /// Whether a slashable vote is valid, given the verdict of the
    /// signature check on what `slashable_attestation_verification` names:
    /// the vote must pass the checks that come before the signature check,
    /// and the signature must hold.
    pub fn verify_slashable_attestation(
        &self,
        slashable: &SlashableAttestation,
        signature_valid: bool,
    ) -> (valid: bool)
        ensures
            valid == (self@.is_slashable_attestation_formed(*slashable) && signature_valid),
    {
        match self.slashable_attestation_verification(slashable) {
            Some(_) => signature_valid,
            None => false,
        }
    }
}

} // verus!
