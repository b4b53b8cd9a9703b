//! The operations of a block that slash validators or let them exit.
//!
//! Each operation takes the verdicts of its signature checks, which are
//! made outside, and refuses with the first check of its own that fails.

use crate::attestation::AttestationData;
use crate::block::BeaconBlockHeader;
use crate::consts::{
    FAR_FUTURE_EPOCH, MAX_ATTESTATIONS, MAX_ATTESTER_SLASHINGS, MAX_DEPOSITS, MAX_DEPOSIT_AMOUNT,
    MAX_INDICES_PER_SLASHABLE_VOTE, MAX_PROPOSER_SLASHINGS, MAX_TRANSFERS, MAX_VOLUNTARY_EXITS,
    PERSISTENT_COMMITTEE_PERIOD, WHISTLEBLOWER_REWARD_QUOTIENT,
};
use crate::error::Error;
use crate::primitives::{
    lemma_h256_of_view, lemma_signature_of_view, Epoch, Signature, ValidatorIndex,
};
use crate::registry::lemma_proposer_is_validator;
use crate::slashing::SlashableAttestation;
use crate::state::{BeaconState, BeaconStateView};
use crate::util::{slot_to_epoch, spec_slot_to_epoch};
use crate::validator::Validator;
use vstd::prelude::*;

verus! {

/// Numbers of operations of each kind in a block.
#[derive(Clone, Copy, Debug, PartialEq, Eq, Structural)]
pub struct OperationCounts {
    pub proposer_slashings: usize,
    pub attester_slashings: usize,
    pub attestations: usize,
    pub deposits: usize,
    pub voluntary_exits: usize,
    pub transfers: usize,
}

/// What the check of the numbers of operations in a block returns: the
/// error of the first kind, in the order in which the kinds are applied, of
/// which the block holds more than a block may.
pub open spec fn spec_check_operation_counts(counts: OperationCounts) -> Result<(), Error> {
    if counts.proposer_slashings > MAX_PROPOSER_SLASHINGS {
        Err(Error::TooManyProposerSlashings)
    } else if counts.attester_slashings > MAX_ATTESTER_SLASHINGS {
        Err(Error::TooManyAttesterSlashings)
    } else if counts.attestations > MAX_ATTESTATIONS {
        Err(Error::TooManyAttestations)
    } else if counts.deposits > MAX_DEPOSITS {
        Err(Error::TooManyDeposits)
    } else if counts.voluntary_exits > MAX_VOLUNTARY_EXITS {
        Err(Error::TooManyVoluntaryExits)
    } else if counts.transfers > MAX_TRANSFERS {
        Err(Error::TooManyTransfers)
    } else {
        Ok(())
    }
}

/// Checks that a block holds no more operations of any kind than a block
/// may.
pub fn check_operation_counts(counts: &OperationCounts) -> (r: Result<(), Error>)
    ensures
        r == spec_check_operation_counts(*counts),
{
    if counts.proposer_slashings > MAX_PROPOSER_SLASHINGS {
        Err(Error::TooManyProposerSlashings)
    } else if counts.attester_slashings > MAX_ATTESTER_SLASHINGS {
        Err(Error::TooManyAttesterSlashings)
    } else if counts.attestations > MAX_ATTESTATIONS {
        Err(Error::TooManyAttestations)
    } else if counts.deposits > MAX_DEPOSITS {
        Err(Error::TooManyDeposits)
    } else if counts.voluntary_exits > MAX_VOLUNTARY_EXITS {
        Err(Error::TooManyVoluntaryExits)
    } else if counts.transfers > MAX_TRANSFERS {
        Err(Error::TooManyTransfers)
    } else {
        Ok(())
    }
}

/// Evidence that a proposer signed two blocks for one slot.
#[derive(Clone, Copy, Debug)]
pub struct ProposerSlashing {
    /// The proposer, by registry index.
    pub proposer_index: ValidatorIndex,
    /// The header of one block.
    pub header_1: BeaconBlockHeader,
    /// The header of the other.
    pub header_2: BeaconBlockHeader,
}

/// Evidence that validators signed two votes that Casper forbids together.
#[derive(Debug)]
pub struct AttesterSlashing {
    /// One vote.
    pub slashable_attestation_1: SlashableAttestation,
    /// The other.
    pub slashable_attestation_2: SlashableAttestation,
}

/// A validator's request to leave.
#[derive(Clone, Copy, Debug)]
pub struct VoluntaryExit {
    /// First epoch in which the request may be applied.
    pub epoch: Epoch,
    /// The validator, by registry index.
    pub validator_index: ValidatorIndex,
    /// The validator's signature of the request.
    pub signature: Signature,
}

/// Whether two headers hold the same values.
pub fn same_header(a: &BeaconBlockHeader, b: &BeaconBlockHeader) -> (r: bool)
    ensures
        r == (*a == *b),
{
    proof {
        lemma_h256_of_view(a.previous_block_root);
        lemma_h256_of_view(b.previous_block_root);
        lemma_h256_of_view(a.state_root);
        lemma_h256_of_view(b.state_root);
        lemma_h256_of_view(a.block_body_root);
        lemma_h256_of_view(b.block_body_root);
        lemma_signature_of_view(a.signature);
        lemma_signature_of_view(b.signature);
    }
    a.slot == b.slot && a.previous_block_root == b.previous_block_root && a.state_root
        == b.state_root && a.block_body_root == b.block_body_root && a.signature == b.signature
}

/// Whether two votes are for the same values.
pub fn same_data(a: &AttestationData, b: &AttestationData) -> (r: bool)
    ensures
        r == (*a == *b),
{
    proof {
        lemma_h256_of_view(a.beacon_block_root);
        lemma_h256_of_view(b.beacon_block_root);
        lemma_h256_of_view(a.source_root);
        lemma_h256_of_view(b.source_root);
        lemma_h256_of_view(a.target_root);
        lemma_h256_of_view(b.target_root);
        lemma_h256_of_view(a.crosslink_data_root);
        lemma_h256_of_view(b.crosslink_data_root);
        lemma_h256_of_view(a.previous_crosslink.crosslink_data_root);
        lemma_h256_of_view(b.previous_crosslink.crosslink_data_root);
    }
    a.slot == b.slot && a.shard == b.shard && a.beacon_block_root == b.beacon_block_root
        && a.source_epoch == b.source_epoch && a.source_root == b.source_root && a.target_root
        == b.target_root && a.crosslink_data_root == b.crosslink_data_root
        && a.previous_crosslink.epoch == b.previous_crosslink.epoch
        && a.previous_crosslink.crosslink_data_root == b.previous_crosslink.crosslink_data_root
}

/// The epoch that a vote is for: that of its slot.
pub open spec fn spec_target_epoch(data: AttestationData) -> Epoch {
    spec_slot_to_epoch(data.slot)
}

/// Whether vote `a` surrounds vote `b`: it starts earlier and ends later.
pub open spec fn spec_data_surrounds(a: AttestationData, b: AttestationData) -> bool {
    a.source_epoch < b.source_epoch < spec_target_epoch(b) < spec_target_epoch(a)
}

/// Whether two votes satisfy a Casper slashing condition, given that they
/// differ: they have the same target, or one surrounds the other.
pub open spec fn spec_is_slashable_data(a: AttestationData, b: AttestationData) -> bool {
    spec_target_epoch(a) == spec_target_epoch(b) || spec_data_surrounds(a, b)
        || spec_data_surrounds(b, a)
}

/// Whether two votes satisfy a Casper slashing condition, given that they
/// differ.
pub fn is_slashable_data(a: &AttestationData, b: &AttestationData) -> (r: bool)
    ensures
        r == spec_is_slashable_data(*a, *b),
{
    let target_a = slot_to_epoch(a.slot);
    let target_b = slot_to_epoch(b.slot);
    target_a == target_b || (a.source_epoch < b.source_epoch && b.source_epoch < target_b
        && target_b < target_a) || (b.source_epoch < a.source_epoch && a.source_epoch < target_a
        && target_a < target_b)
}

/// Those of the first `count` signers of one vote that also signed the
/// other and are not slashed yet, in the order of the first vote.
pub open spec fn spec_slashable_indices(
    registry: Seq<Validator>,
    indices: Seq<ValidatorIndex>,
    others: Seq<ValidatorIndex>,
    count: nat,
) -> Seq<ValidatorIndex>
    decreases count,
{
    if count == 0 {
        Seq::empty()
    } else {
        let before = spec_slashable_indices(registry, indices, others, (count - 1) as nat);
        let index = indices[count - 1];
        if others.contains(index) && !registry[index as int].slashed {
            before.push(index)
        } else {
            before
        }
    }
}

/// The slashable indices are no more than the signers looked at, and each
/// is one of them.
pub proof fn lemma_slashable_indices(
    registry: Seq<Validator>,
    indices: Seq<ValidatorIndex>,
    others: Seq<ValidatorIndex>,
    count: nat,
)
    requires
        count <= indices.len(),
    ensures
        spec_slashable_indices(registry, indices, others, count).len() <= count,
        forall|i: int|
            0 <= i < spec_slashable_indices(registry, indices, others, count).len()
                ==> indices.contains(
                #[trigger] spec_slashable_indices(registry, indices, others, count)[i],
            ),
    decreases count,
{
    if count > 0 {
        lemma_slashable_indices(registry, indices, others, (count - 1) as nat);
        assert(indices[count - 1] == indices[count - 1]);
    }
}

/// The largest reward that one slashing pays.
pub open spec fn spec_largest_reward() -> nat {
    (MAX_DEPOSIT_AMOUNT / WHISTLEBLOWER_REWARD_QUOTIENT) as nat
}

impl BeaconStateView {
    /// Whether `count` slashings in a row stay within 64-bit balances,
    /// whoever is slashed and whoever proposes.
    pub open spec fn slashings_fit(&self, count: nat) -> bool {
        &&& self.latest_slashed_balances[self.slashed_balance_position()] + count
            * MAX_DEPOSIT_AMOUNT <= u64::MAX
        &&& forall|i: int|
            0 <= i < self.validator_balances.len() ==> #[trigger] self.validator_balances[i]
                + count * spec_largest_reward() <= u64::MAX
    }

    /// What slashing the first `count` of `indices` in order returns: the
    /// first error, if there is one.
    pub open spec fn slash_validators_result(
        &self,
        indices: Seq<ValidatorIndex>,
        count: nat,
    ) -> Result<(), Error>
        decreases count,
    {
        if count == 0 {
            Ok(())
        } else {
            match self.slash_validators_result(indices, (count - 1) as nat) {
                Err(e) => Err(e),
                Ok(_) => self.slash_validators(
                    indices,
                    (count - 1) as nat,
                ).slash_validator_result(indices[count - 1]),
            }
        }
    }

    /// The state that slashing the first `count` of `indices` in order
    /// leaves; after an error nothing more is done.
    pub open spec fn slash_validators(
        &self,
        indices: Seq<ValidatorIndex>,
        count: nat,
    ) -> BeaconStateView
        decreases count,
    {
        if count == 0 {
            *self
        } else {
            let before = self.slash_validators(indices, (count - 1) as nat);
            if self.slash_validators_result(indices, (count - 1) as nat) is Err {
                before
            } else {
                before.slash_validator(indices[count - 1])
            }
        }
    }

    /// What applying a proposer slashing returns, given whether both
    /// headers carry the proposer's signature.
    pub open spec fn process_proposer_slashing_result(
        &self,
        slashing: ProposerSlashing,
        signatures_valid: bool,
    ) -> Result<(), Error> {
        if slashing.header_1.slot != slashing.header_2.slot {
            Err(Error::ProposerSlashingInvalidSlot)
        } else if slashing.header_1 == slashing.header_2 {
            Err(Error::ProposerSlashingSameHeader)
        } else if slashing.proposer_index >= self.validator_registry.len() {
            Err(Error::ProposerSlashingInvalidSignature)
        } else if self.validator_registry[slashing.proposer_index as int].slashed {
            Err(Error::ProposerSlashingAlreadySlashed)
        } else if !signatures_valid {
            Err(Error::ProposerSlashingInvalidSignature)
        } else {
            self.slash_validator_result(slashing.proposer_index)
        }
    }

    /// Whether a proposer slashing passes every check of its own, so that
    /// the proposer is slashed.
    pub open spec fn accepts_proposer_slashing(
        &self,
        slashing: ProposerSlashing,
        signatures_valid: bool,
    ) -> bool {
        &&& slashing.header_1.slot == slashing.header_2.slot
        &&& slashing.header_1 != slashing.header_2
        &&& slashing.proposer_index < self.validator_registry.len()
        &&& !self.validator_registry[slashing.proposer_index as int].slashed
        &&& signatures_valid
    }

    /// The state that applying a proposer slashing leaves.
    pub open spec fn process_proposer_slashing(
        &self,
        slashing: ProposerSlashing,
        signatures_valid: bool,
    ) -> BeaconStateView {
        if self.accepts_proposer_slashing(slashing, signatures_valid) {
            self.slash_validator(slashing.proposer_index)
        } else {
            *self
        }
    }

    /// The validators that an attester slashing convicts.
    pub open spec fn attester_slashing_indices(&self, slashing: AttesterSlashing) -> Seq<
        ValidatorIndex,
    > {
        spec_slashable_indices(
            self.validator_registry,
            slashing.slashable_attestation_1.validator_indices@,
            slashing.slashable_attestation_2.validator_indices@,
            slashing.slashable_attestation_1.validator_indices@.len(),
        )
    }

    /// The error of the first check of its own that an attester slashing
    /// fails, if it fails one, given the verdicts of the signature checks
    /// of its two votes.
    pub open spec fn attester_slashing_fault(
        &self,
        slashing: AttesterSlashing,
        signature_1_valid: bool,
        signature_2_valid: bool,
    ) -> Option<Error> {
        let first = slashing.slashable_attestation_1;
        let second = slashing.slashable_attestation_2;
        if first.data == second.data {
            Some(Error::AttesterSlashingSameAttestation)
        } else if !spec_is_slashable_data(first.data, second.data) {
            Some(Error::AttesterSlashingNotSlashable)
        } else if !(self.is_slashable_attestation_formed(first) && signature_1_valid) {
            Some(Error::AttesterSlashingInvalid)
        } else if !(self.is_slashable_attestation_formed(second) && signature_2_valid) {
            Some(Error::AttesterSlashingInvalid)
        } else if self.attester_slashing_indices(slashing).len() == 0 {
            Some(Error::AttesterSlashingEmptyIndices)
        } else {
            None
        }
    }

    /// What applying an attester slashing returns.
    pub open spec fn process_attester_slashing_result(
        &self,
        slashing: AttesterSlashing,
        signature_1_valid: bool,
        signature_2_valid: bool,
    ) -> Result<(), Error> {
        match self.attester_slashing_fault(slashing, signature_1_valid, signature_2_valid) {
            Some(e) => Err(e),
            None => self.slash_validators_result(
                self.attester_slashing_indices(slashing),
                self.attester_slashing_indices(slashing).len(),
            ),
        }
    }

    /// The state that applying an attester slashing leaves: the validators
    /// that signed both votes and were not slashed before are slashed, in
    /// the order of the first vote.
    pub open spec fn process_attester_slashing(
        &self,
        slashing: AttesterSlashing,
        signature_1_valid: bool,
        signature_2_valid: bool,
    ) -> BeaconStateView {
        match self.attester_slashing_fault(slashing, signature_1_valid, signature_2_valid) {
            Some(_) => *self,
            None => self.slash_validators(
                self.attester_slashing_indices(slashing),
                self.attester_slashing_indices(slashing).len(),
            ),
        }
    }

    /// What applying a voluntary exit returns, given whether the request
    /// carries the validator's signature.
    pub open spec fn process_voluntary_exit_result(
        &self,
        exit: VoluntaryExit,
        signature_valid: bool,
    ) -> Result<(), Error> {
        if exit.validator_index >= self.validator_registry.len() {
            Err(Error::VoluntaryExitInvalidSignature)
        } else {
            let validator = self.validator_registry[exit.validator_index as int];
            if validator.exit_epoch != FAR_FUTURE_EPOCH {
                Err(Error::VoluntaryExitAlreadyExited)
            } else if validator.initiated_exit {
                Err(Error::VoluntaryExitAlreadyInitiated)
            } else if self.current_epoch() < exit.epoch {
                Err(Error::VoluntaryExitNotYetValid)
            } else if self.current_epoch() - validator.activation_epoch
                < PERSISTENT_COMMITTEE_PERIOD {
                Err(Error::VoluntaryExitNotLongEnough)
            } else if !signature_valid {
                Err(Error::VoluntaryExitInvalidSignature)
            } else {
                Ok(())
            }
        }
    }

    /// The state that applying a voluntary exit leaves: the validator has
    /// asked to exit; a request that is refused leaves the state as it was.
    pub open spec fn process_voluntary_exit(
        &self,
        exit: VoluntaryExit,
        signature_valid: bool,
    ) -> BeaconStateView {
        if self.process_voluntary_exit_result(exit, signature_valid) is Ok {
            self.initiate_validator_exit(exit.validator_index)
        } else {
            *self
        }
    }
}

/// A slashing raises no balance by more than the largest reward and the
/// slashed balance of the current epoch by no more than the largest
/// deposit; it keeps the slot and the shape of the state.
pub proof fn lemma_slash_validator_bounds(state: BeaconStateView, index: ValidatorIndex)
    requires
        state.wf(),
        index < state.validator_registry.len() <= u64::MAX,
        state.slashing_fits(index),
    ensures
        state.slash_validator(index).wf(),
        state.slash_validator(index).slot == state.slot,
        state.slash_validator(index).validator_registry.len() == state.validator_registry.len(),
        state.slash_validator(index).latest_slashed_balances[state.slashed_balance_position()]
            <= state.latest_slashed_balances[state.slashed_balance_position()]
            + MAX_DEPOSIT_AMOUNT,
        forall|i: int|
            0 <= i < state.validator_balances.len() ==> #[trigger] state.slash_validator(
                index,
            ).validator_balances[i] <= state.validator_balances[i] + spec_largest_reward(),
{
    let begun = state.begin_slashing(index);
    if state.is_slashable(index) && begun.beacon_proposer_result(state.slot, false) is Ok {
        lemma_proposer_is_validator(begun, state.slot, false);
    }
}

/// Where `count` slashings in a row fit, the next one fits, and after it
/// the rest do.
pub proof fn lemma_slashings_fit(state: BeaconStateView, index: ValidatorIndex, count: nat)
    requires
        state.wf(),
        index < state.validator_registry.len() <= u64::MAX,
        count > 0,
        state.slashings_fit(count),
    ensures
        state.slashing_fits(index),
        state.slash_validator(index).slashings_fit((count - 1) as nat),
{
    assert(MAX_DEPOSIT_AMOUNT <= count * MAX_DEPOSIT_AMOUNT) by (nonlinear_arith)
        requires
            count >= 1,
    ;
    assert(spec_largest_reward() <= count * spec_largest_reward()) by (nonlinear_arith)
        requires
            count >= 1,
    ;
    assert((count - 1) * MAX_DEPOSIT_AMOUNT + MAX_DEPOSIT_AMOUNT == count * MAX_DEPOSIT_AMOUNT)
        by (nonlinear_arith);
    assert((count - 1) * spec_largest_reward() + spec_largest_reward() == count
        * spec_largest_reward()) by (nonlinear_arith);
    assert forall|i: int| 0 <= i < state.validator_balances.len() implies #[trigger] state.validator_balances[i]
        + state.whistleblower_reward(index) <= u64::MAX by {
        assert(state.validator_balances[i] + count * spec_largest_reward() <= u64::MAX);
    }
    lemma_slash_validator_bounds(state, index);
    let after = state.slash_validator(index);
    assert forall|i: int| 0 <= i < after.validator_balances.len() implies #[trigger] after.validator_balances[i]
        + (count - 1) * spec_largest_reward() <= u64::MAX by {
        assert(state.validator_balances[i] + count * spec_largest_reward() <= u64::MAX);
    }
}

impl BeaconState {
    /// Applies a proposer slashing.
    ///
    /// The two headers must be for one slot (`ProposerSlashingInvalidSlot`)
    /// and differ (`ProposerSlashingSameHeader`); the proposer must not be
    /// slashed already (`ProposerSlashingAlreadySlashed`); and both headers
    /// must carry its signature (`ProposerSlashingInvalidSignature`, which
    /// is also the answer where the registry has no such proposer).
    /// `signatures_valid` is the verdict on the two signatures. The
    /// proposer is then slashed.
    pub fn process_proposer_slashing(
        &mut self,
        slashing: &ProposerSlashing,
        signatures_valid: bool,
    ) -> (r: Result<(), Error>)
        requires
            old(self).wf(),
            old(self)@.slashings_fit(1),
        ensures
            r == old(self)@.process_proposer_slashing_result(*slashing, signatures_valid),
            final(self)@ == old(self)@.process_proposer_slashing(*slashing, signatures_valid),
            final(self).wf(),
    {
        if slashing.header_1.slot != slashing.header_2.slot {
            return Err(Error::ProposerSlashingInvalidSlot);
        }
        if same_header(&slashing.header_1, &slashing.header_2) {
            return Err(Error::ProposerSlashingSameHeader);
        }
        let count = self.validator_registry.len();
        if slashing.proposer_index >= count as u64 {
            return Err(Error::ProposerSlashingInvalidSignature);
        }
        if self.validator_registry[slashing.proposer_index as usize].slashed {
            return Err(Error::ProposerSlashingAlreadySlashed);
        }
        if !signatures_valid {
            return Err(Error::ProposerSlashingInvalidSignature);
        }
        proof {
            lemma_slashings_fit(self@, slashing.proposer_index, 1);
        }
        self.slash_validator(slashing.proposer_index)
    }

    /// The validators that an attester slashing convicts: the signers of
    /// its first vote that also signed the second and are not slashed.
    fn attester_slashing_indices(&self, slashing: &AttesterSlashing) -> (indices: Vec<
        ValidatorIndex,
    >)
        requires
            forall|i: int|
                0 <= i < slashing.slashable_attestation_1.validator_indices@.len()
                    ==> #[trigger] slashing.slashable_attestation_1.validator_indices@[i]
                    < self@.validator_registry.len(),
        ensures
            indices@ == self@.attester_slashing_indices(*slashing),
    {
        let first = &slashing.slashable_attestation_1.validator_indices;
        let second = &slashing.slashable_attestation_2.validator_indices;
        let mut indices: Vec<ValidatorIndex> = Vec::new();
        let mut i: usize = 0;
        while i < first.len()
            invariant
                i <= first@.len(),
                forall|j: int|
                    0 <= j < first@.len() ==> #[trigger] first@[j]
                        < self@.validator_registry.len(),
                indices@ == spec_slashable_indices(
                    self@.validator_registry,
                    first@,
                    second@,
                    i as nat,
                ),
            decreases first@.len() - i,
        {
            let index = first[i];
            let mut found = false;
            let mut k: usize = 0;
            while k < second.len() && !found
                invariant
                    k <= second@.len(),
                    found ==> second@.contains(index),
                    !found ==> forall|j: int| 0 <= j < k ==> second@[j] != index,
                decreases second@.len() - k + if found {
                    0int
                } else {
                    1int
                },
            {
                if second[k] == index {
                    found = true;
                } else {
                    k += 1;
                }
            }
            let registry_len = self.validator_registry.len();
            assert(first@[i as int] < registry_len);
            if found && !self.validator_registry[index as usize].slashed {
                indices.push(index);
            }
            i += 1;
        }
        indices
    }

    /// Applies an attester slashing.
    ///
    /// The two votes must differ (`AttesterSlashingSameAttestation`) and
    /// satisfy a Casper slashing condition: the same target, or one
    /// surrounds the other (`AttesterSlashingNotSlashable`). Each must be a
    /// valid slashable vote (`AttesterSlashingInvalid`); `signature_1_valid`
    /// and `signature_2_valid` are the verdicts on their signatures. Some
    /// validator that is not slashed yet must have signed both
    /// (`AttesterSlashingEmptyIndices`). Those validators are then slashed
    /// in the order of the first vote; an error of a slashing ends the
    /// operation and leaves the slashings made before it.
    pub fn process_attester_slashing(
        &mut self,
        slashing: &AttesterSlashing,
        signature_1_valid: bool,
        signature_2_valid: bool,
    ) -> (r: Result<(), Error>)
        requires
            old(self).wf(),
            old(self)@.slashings_fit(MAX_INDICES_PER_SLASHABLE_VOTE as nat),
        ensures
            r == old(self)@.process_attester_slashing_result(
                *slashing,
                signature_1_valid,
                signature_2_valid,
            ),
            final(self)@ == old(self)@.process_attester_slashing(
                *slashing,
                signature_1_valid,
                signature_2_valid,
            ),
            final(self).wf(),
    {
        let first = &slashing.slashable_attestation_1;
        let second = &slashing.slashable_attestation_2;
        if same_data(&first.data, &second.data) {
            return Err(Error::AttesterSlashingSameAttestation);
        }
        if !is_slashable_data(&first.data, &second.data) {
            return Err(Error::AttesterSlashingNotSlashable);
        }
        if !self.verify_slashable_attestation(first, signature_1_valid) {
            return Err(Error::AttesterSlashingInvalid);
        }
        if !self.verify_slashable_attestation(second, signature_2_valid) {
            return Err(Error::AttesterSlashingInvalid);
        }
        let indices = self.attester_slashing_indices(slashing);
        if indices.len() == 0 {
            return Err(Error::AttesterSlashingEmptyIndices);
        }
        proof {
            lemma_slashable_indices(
                self@.validator_registry,
                first.validator_indices@,
                second.validator_indices@,
                first.validator_indices@.len(),
            );
            assert forall|i: int| 0 <= i < indices@.len() implies #[trigger] indices@[i]
                < self@.validator_registry.len() by {
                let index = indices@[i];
                assert(first.validator_indices@.contains(index));
                let j = choose|j: int|
                    0 <= j < first.validator_indices@.len() && first.validator_indices@[j]
                        == index;
                assert(first.validator_indices@[j] < self@.validator_registry.len());
            }
            assert(MAX_DEPOSIT_AMOUNT * indices@.len() <= MAX_INDICES_PER_SLASHABLE_VOTE
                * MAX_DEPOSIT_AMOUNT) by (nonlinear_arith)
                requires
                    indices@.len() <= MAX_INDICES_PER_SLASHABLE_VOTE,
            ;
            assert(spec_largest_reward() * indices@.len() <= MAX_INDICES_PER_SLASHABLE_VOTE
                * spec_largest_reward()) by (nonlinear_arith)
                requires
                    indices@.len() <= MAX_INDICES_PER_SLASHABLE_VOTE,
            ;
            assert(indices@.len() * MAX_DEPOSIT_AMOUNT == MAX_DEPOSIT_AMOUNT * indices@.len())
                by (nonlinear_arith);
            assert(indices@.len() * spec_largest_reward() == spec_largest_reward()
                * indices@.len()) by (nonlinear_arith);
            assert forall|i: int| 0 <= i < self@.validator_balances.len() implies #[trigger] self@.validator_balances[i]
                + indices@.len() * spec_largest_reward() <= u64::MAX by {
                assert(self@.validator_balances[i] + MAX_INDICES_PER_SLASHABLE_VOTE
                    * spec_largest_reward() <= u64::MAX);
            }
        }
        let ghost start = self@;
        let registry_len = self.validator_registry.len();
        let mut i: usize = 0;
        while i < indices.len()
            invariant
                i <= indices@.len(),
                self.wf(),
                registry_len == self@.validator_registry.len(),
                registry_len == start.validator_registry.len(),
                forall|j: int| 0 <= j < indices@.len() ==> #[trigger] indices@[j] < registry_len,
                self@.slashings_fit((indices@.len() - i) as nat),
                self@ == start.slash_validators(indices@, i as nat),
                start.slash_validators_result(indices@, i as nat) is Ok,
                start == old(self)@,
                indices@ == start.attester_slashing_indices(*slashing),
                start.attester_slashing_fault(*slashing, signature_1_valid, signature_2_valid)
                    is None,
            decreases indices@.len() - i,
        {
            let index = indices[i];
            proof {
                assert(indices@[i as int] < registry_len);
                lemma_slashings_fit(self@, index, (indices@.len() - i) as nat);
                lemma_slash_validator_bounds(self@, index);
            }
            match self.slash_validator(index) {
                Ok(_) => {},
                Err(e) => {
                    proof {
                        assert(start.slash_validators_result(indices@, (i + 1) as nat) == Err::<
                            (),
                            Error,
                        >(e));
                        assert(self@ == start.slash_validators(indices@, (i + 1) as nat));
                        lemma_slash_validators_error_stands(
                            start,
                            indices@,
                            (i + 1) as nat,
                            indices@.len(),
                        );
                    }
                    return Err(e);
                },
            }
            i += 1;
        }
        Ok(())
    }

    /// Applies a voluntary exit.
    ///
    /// The validator must not have an exit scheduled
    /// (`VoluntaryExitAlreadyExited`) nor have asked for one
    /// (`VoluntaryExitAlreadyInitiated`); the epoch of the request must have
    /// come (`VoluntaryExitNotYetValid`); the validator must have been active
    /// for the persistent-committee period (`VoluntaryExitNotLongEnough`);
    /// and the request must carry its signature
    /// (`VoluntaryExitInvalidSignature`, which is also the answer where the
    /// registry has no such validator). `signature_valid` is the verdict on
    /// the signature. The validator has then asked to exit.
    pub fn process_voluntary_exit(&mut self, exit: &VoluntaryExit, signature_valid: bool) -> (r:
        Result<(), Error>)
        requires
            old(self).wf(),
        ensures
            r == old(self)@.process_voluntary_exit_result(*exit, signature_valid),
            final(self)@ == old(self)@.process_voluntary_exit(*exit, signature_valid),
            final(self).wf(),
    {
        let count = self.validator_registry.len();
        if exit.validator_index >= count as u64 {
            return Err(Error::VoluntaryExitInvalidSignature);
        }
        let validator = self.validator_registry[exit.validator_index as usize];
        let current_epoch = self.current_epoch();
        if validator.exit_epoch != FAR_FUTURE_EPOCH {
            return Err(Error::VoluntaryExitAlreadyExited);
        }
        if validator.initiated_exit {
            return Err(Error::VoluntaryExitAlreadyInitiated);
        }
        if current_epoch < exit.epoch {
            return Err(Error::VoluntaryExitNotYetValid);
        }
        if current_epoch < validator.activation_epoch || current_epoch
            - validator.activation_epoch < PERSISTENT_COMMITTEE_PERIOD {
            return Err(Error::VoluntaryExitNotLongEnough);
        }
        if !signature_valid {
            return Err(Error::VoluntaryExitInvalidSignature);
        }
        self.initiate_validator_exit(exit.validator_index);
        Ok(())
    }
}

/// Once a slashing has failed, the run of slashings has failed with its
/// error and has left the state that the failure left.
pub proof fn lemma_slash_validators_error_stands(
    state: BeaconStateView,
    indices: Seq<ValidatorIndex>,
    failed: nat,
    count: nat,
)
    requires
        failed <= count,
        state.slash_validators_result(indices, failed) is Err,
    ensures
        state.slash_validators_result(indices, count) == state.slash_validators_result(
            indices,
            failed,
        ),
        state.slash_validators(indices, count) == state.slash_validators(indices, failed),
    decreases count,
{
    if failed < count {
        lemma_slash_validators_error_stands(state, indices, failed, (count - 1) as nat);
    }
}

} // verus!
