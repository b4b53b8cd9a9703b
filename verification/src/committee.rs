//! Committee selection: which validators attest at a slot, for which shard,
//! and which of them proposes the block.

use crate::attestation::AttestationData;
use crate::consts::{SHARD_COUNT, SLOTS_PER_EPOCH};
use crate::error::Error;
use crate::primitives::{BitField, Epoch, Shard, Slot, ValidatorIndex, H256};
use crate::shuffle::{
    lemma_shuffle_is_bijection, lemma_split_offsets, shuffling, spec_permuted_index, spec_shuffle,
    spec_shuffling, spec_split_offset,
};
use crate::state::{lemma_active_validator_indices_complete, BeaconState, BeaconStateView};
use crate::util::{
    is_power_of_two, lemma_epoch_committee_count, slot_to_epoch, spec_epoch_committee_count,
    spec_is_power_of_two, spec_slot_to_epoch,
};
use vstd::prelude::*;
use vstd::slice::slice_to_vec;

verus! {

/// The committees of a slot as mathematical values: the members of each
/// and its shard.
pub open spec fn committees_view(committees: Seq<(Vec<ValidatorIndex>, Shard)>) -> Seq<
    (Seq<ValidatorIndex>, Shard),
> {
    Seq::new(committees.len(), |i: int| (committees[i].0@, committees[i].1))
}

/// The position of the first committee at or after `from` that serves
/// `shard`.
pub open spec fn spec_committee_of_shard(
    committees: Seq<(Seq<ValidatorIndex>, Shard)>,
    shard: Shard,
    from: int,
) -> Option<int>
    decreases committees.len() - from,
{
    if from < 0 || from >= committees.len() {
        None
    } else if committees[from].1 == shard {
        Some(from)
    } else {
        spec_committee_of_shard(committees, shard, from + 1)
    }
}

/// The first `count` members of `committee` whose bit is set, in committee
/// order.
pub open spec fn spec_participants_among(
    committee: Seq<ValidatorIndex>,
    bits: Seq<bool>,
    count: nat,
) -> Seq<ValidatorIndex>
    decreases count,
{
    if count == 0 {
        Seq::empty()
    } else {
        let before = spec_participants_among(committee, bits, (count - 1) as nat);
        if count - 1 < bits.len() && bits[count - 1] {
            before.push(committee[count - 1])
        } else {
            before
        }
    }
}

impl BeaconStateView {
    /// Whether the epoch of `slot` is the previous, the current or the next
    /// epoch.
    pub open spec fn is_epoch_in_reach(&self, slot: Slot) -> bool {
        self.previous_epoch() <= spec_slot_to_epoch(slot) <= self.current_epoch() + 1
    }

    /// Whether `slot` belongs to the next epoch, and to neither the current
    /// nor the previous one.
    pub open spec fn is_in_next_epoch(&self, slot: Slot) -> bool {
        &&& spec_slot_to_epoch(slot) != self.current_epoch()
        &&& spec_slot_to_epoch(slot) != self.previous_epoch()
    }

    /// Whether the next epoch gets a shuffling of its own: the registry
    /// changes, or the number of epochs since it last changed is a power of
    /// two above one.
    pub open spec fn reshuffles_next_epoch(&self, registry_change: bool) -> bool {
        let since = self.current_epoch() - self.validator_registry_update_epoch;
        registry_change || (since > 1 && spec_is_power_of_two(since as nat))
    }

    /// Whether the state can name the committees of `slot`.
    pub open spec fn has_committees(&self, slot: Slot, registry_change: bool) -> bool {
        &&& self.is_epoch_in_reach(slot)
        &&& (self.is_in_next_epoch(slot) && self.reshuffles_next_epoch(registry_change))
            ==> self.has_seed((self.current_epoch() + 1) as u64)
    }

    /// The epoch whose active validators form the committees of `slot`.
    pub open spec fn shuffling_epoch(&self, slot: Slot, registry_change: bool) -> Epoch {
        if spec_slot_to_epoch(slot) == self.current_epoch() {
            self.current_shuffling_epoch
        } else if spec_slot_to_epoch(slot) == self.previous_epoch() {
            self.previous_shuffling_epoch
        } else if self.reshuffles_next_epoch(registry_change) {
            (self.current_epoch() + 1) as u64
        } else {
            self.current_shuffling_epoch
        }
    }

    /// The seed that shuffles the committees of `slot`.
    pub open spec fn shuffling_seed(&self, slot: Slot, registry_change: bool) -> Seq<u8> {
        if spec_slot_to_epoch(slot) == self.current_epoch() {
            self.current_shuffling_seed@
        } else if spec_slot_to_epoch(slot) == self.previous_epoch() {
            self.previous_shuffling_seed@
        } else if self.reshuffles_next_epoch(registry_change) {
            self.seed((self.current_epoch() + 1) as u64)
        } else {
            self.current_shuffling_seed@
        }
    }

    /// The shard that the first committee of the epoch of `slot` serves.
    pub open spec fn shuffling_start_shard(&self, slot: Slot, registry_change: bool) -> nat {
        if spec_slot_to_epoch(slot) == self.current_epoch() {
            self.current_shuffling_start_shard as nat
        } else if spec_slot_to_epoch(slot) == self.previous_epoch() {
            self.previous_shuffling_start_shard as nat
        } else if registry_change {
            ((self.current_shuffling_start_shard + self.current_epoch_committee_count())
                % SHARD_COUNT as int) as nat
        } else {
            self.current_shuffling_start_shard as nat
        }
    }

    /// Number of committees in the epoch of `slot`.
    pub open spec fn committees_per_epoch(&self, slot: Slot, registry_change: bool) -> nat {
        spec_epoch_committee_count(
            self.active_validator_indices(self.shuffling_epoch(slot, registry_change)).len(),
        )
    }

    /// Number of committees at each slot of the epoch of `slot`.
    pub open spec fn committees_per_slot(&self, slot: Slot, registry_change: bool) -> nat {
        self.committees_per_epoch(slot, registry_change) / SLOTS_PER_EPOCH as nat
    }

    /// The committees of `slot` with their shards. Committee `k` of the
    /// slot is committee `committees_per_slot * (slot mod SLOTS_PER_EPOCH) +
    /// k` of the epoch, and serves the shard that many places after the
    /// start shard, modulo the number of shards.
    pub open spec fn crosslink_committees_at_slot(
        &self,
        slot: Slot,
        registry_change: bool,
    ) -> Seq<(Seq<ValidatorIndex>, Shard)> {
        let committees = spec_shuffling(
            self.shuffling_seed(slot, registry_change),
            self.active_validator_indices(self.shuffling_epoch(slot, registry_change)),
        );
        let per_slot = self.committees_per_slot(slot, registry_change);
        let first = per_slot * (slot % SLOTS_PER_EPOCH) as nat;
        let start_shard = self.shuffling_start_shard(slot, registry_change);
        Seq::new(
            per_slot,
            |k: int| (committees[first + k], ((start_shard + first + k) % SHARD_COUNT as int) as u64),
        )
    }

    /// The members of the first committee of `slot`.
    pub open spec fn proposer_committee(&self, slot: Slot, registry_change: bool) -> Seq<
        ValidatorIndex,
    > {
        self.crosslink_committees_at_slot(slot, registry_change)[0].0
    }

    /// The proposer of `slot`: the member of the first committee at
    /// position `slot` modulo the committee's size.
    pub open spec fn beacon_proposer_index(
        &self,
        slot: Slot,
        registry_change: bool,
    ) -> ValidatorIndex {
        let committee = self.proposer_committee(slot, registry_change);
        committee[slot as int % committee.len() as int]
    }

    /// What asking for the proposer of `slot` gives.
    pub open spec fn beacon_proposer_result(&self, slot: Slot, registry_change: bool) -> Result<
        ValidatorIndex,
        Error,
    > {
        if !self.has_committees(slot, registry_change) {
            Err(Error::EpochOutOfRange)
        } else if self.proposer_committee(slot, registry_change).len() == 0 {
            Err(Error::ProposerCommitteeEmpty)
        } else {
            Ok(self.beacon_proposer_index(slot, registry_change))
        }
    }

    /// What asking for the participants of an attestation gives.
    pub open spec fn attestation_participants(
        &self,
        attestation: AttestationData,
        bits: Seq<bool>,
    ) -> Result<Seq<ValidatorIndex>, Error> {
        let committees = self.crosslink_committees_at_slot(attestation.slot, false);
        if !self.has_committees(attestation.slot, false) {
            Err(Error::EpochOutOfRange)
        } else {
            match spec_committee_of_shard(committees, attestation.shard, 0) {
                None => Err(Error::AttestationShardInvalid),
                Some(k) => if bits.len() != committees[k].0.len() {
                    Err(Error::AttestationBitFieldInvalid)
                } else {
                    Ok(spec_participants_among(committees[k].0, bits, committees[k].0.len()))
                },
            }
        }
    }
}

/// Every item of a shuffled list is an item of the list.
pub proof fn lemma_shuffle_members(seed: Seq<u8>, indices: Seq<ValidatorIndex>, i: int)
    requires
        0 <= i < indices.len(),
    ensures
        indices.contains(spec_shuffle(seed, indices)[i]),
{
    lemma_shuffle_is_bijection(seed, indices.len());
    let from = spec_permuted_index(seed, indices.len(), i as nat);
    assert(from < indices.len());
    assert(indices[from as int] == spec_shuffle(seed, indices)[i]);
}

/// Every member of committee `k` of a slot is the index of a validator of
/// the registry that is active in the epoch of the shuffling.
pub proof fn lemma_committee_members_are_validators(
    state: BeaconStateView,
    slot: Slot,
    registry_change: bool,
    k: int,
)
    requires
        state.validator_registry.len() <= u64::MAX,
        0 <= k < state.committees_per_slot(slot, registry_change),
    ensures
        forall|i: int|
            0 <= i < state.crosslink_committees_at_slot(slot, registry_change)[k].0.len() ==> {
                let member = #[trigger] state.crosslink_committees_at_slot(
                    slot,
                    registry_change,
                )[k].0[i];
                &&& member < state.validator_registry.len()
                &&& state.validator_registry[member as int].spec_is_active(
                    state.shuffling_epoch(slot, registry_change),
                )
            },
{
    let epoch = state.shuffling_epoch(slot, registry_change);
    let seed = state.shuffling_seed(slot, registry_change);
    let active = state.active_validator_indices(epoch);
    let shuffled = spec_shuffle(seed, active);
    let count = spec_epoch_committee_count(active.len());
    lemma_epoch_committee_count(active.len());
    let per_slot = state.committees_per_slot(slot, registry_change);
    let first = per_slot * (slot % SLOTS_PER_EPOCH) as nat;
    assert(first + per_slot <= per_slot * 64) by (nonlinear_arith)
        requires
            first == per_slot * (slot % SLOTS_PER_EPOCH) as nat,
            (slot % SLOTS_PER_EPOCH) <= 63,
    ;
    let piece = first + k;
    let start = spec_split_offset(shuffled.len(), count, piece as nat);
    let end = spec_split_offset(shuffled.len(), count, (piece + 1) as nat);
    lemma_split_offsets(shuffled.len(), count, piece as nat);
    let committee = state.crosslink_committees_at_slot(slot, registry_change)[k].0;
    assert(committee == shuffled.subrange(start as int, end as int));
    assert forall|i: int| 0 <= i < committee.len() implies {
        let member = #[trigger] committee[i];
        &&& member < state.validator_registry.len()
        &&& state.validator_registry[member as int].spec_is_active(epoch)
    } by {
        let member = committee[i];
        assert(member == shuffled[start + i]);
        lemma_shuffle_members(seed, active, start + i);
        lemma_active_validator_indices_complete(
            state,
            epoch,
            state.validator_registry.len(),
            member,
        );
    }
}

impl BeaconState {
    /// The committees of `slot` with their shards.
    ///
    /// `registry_change` says whether the validator registry changes at the
    /// end of the current epoch; it matters for slots of the next epoch
    /// only. Slots outside the previous, current and next epoch, and slots
    /// of a next epoch whose seed the state cannot derive, are refused.
    pub fn crosslink_committees_at_slot(&self, slot: Slot, registry_change: bool) -> (r: Result<
        Vec<(Vec<ValidatorIndex>, Shard)>,
        Error,
    >)
        requires
            self.wf(),
        ensures
            self@.has_committees(slot, registry_change) ==> (r matches Ok(committees)
                && committees_view(committees@) == self@.crosslink_committees_at_slot(
                slot,
                registry_change,
            )),
            !self@.has_committees(slot, registry_change) ==> r == Err::<
                Vec<(Vec<ValidatorIndex>, Shard)>,
                Error,
            >(Error::EpochOutOfRange),
    {
        let epoch = slot_to_epoch(slot);
        let current_epoch = self.current_epoch();
        let previous_epoch = self.previous_epoch();
        let next_epoch = current_epoch + 1;

        if previous_epoch > epoch || epoch > next_epoch {
            return Err(Error::EpochOutOfRange);
        }
        let seed: H256;
        let shuffling_epoch: Epoch;
        let shuffling_start_shard: u64;
        if epoch == current_epoch {
            seed = self.current_shuffling_seed;
            shuffling_epoch = self.current_shuffling_epoch;
            shuffling_start_shard = self.current_shuffling_start_shard;
        } else if epoch == previous_epoch {
            seed = self.previous_shuffling_seed;
            shuffling_epoch = self.previous_shuffling_epoch;
            shuffling_start_shard = self.previous_shuffling_start_shard;
        } else {
            let reshuffles = registry_change || (current_epoch
                > self.validator_registry_update_epoch && current_epoch
                - self.validator_registry_update_epoch > 1 && is_power_of_two(
                current_epoch - self.validator_registry_update_epoch,
            ));
            if reshuffles {
                seed =
                match self.seed(next_epoch) {
                    Ok(seed) => seed,
                    Err(e) => {
                        return Err(e);
                    },
                };
                shuffling_epoch = next_epoch;
            } else {
                seed = self.current_shuffling_seed;
                shuffling_epoch = self.current_shuffling_epoch;
            }
            if registry_change {
                let current_committees_per_epoch = self.current_epoch_committee_count();
                shuffling_start_shard = ((self.current_shuffling_start_shard as u128
                    + current_committees_per_epoch as u128) % (SHARD_COUNT as u128)) as u64;
            } else {
                shuffling_start_shard = self.current_shuffling_start_shard;
            }
        }

        let active_validators = self.active_validator_indices(shuffling_epoch);
        proof {
            lemma_epoch_committee_count(active_validators@.len());
        }
        let committees = shuffling(&seed, active_validators);
        let offset: usize = (slot % SLOTS_PER_EPOCH) as usize;
        let committees_per_slot: usize = committees.len() / (SLOTS_PER_EPOCH as usize);
        assert(committees_per_slot * offset + committees_per_slot <= committees_per_slot * 64)
            by (nonlinear_arith)
            requires
                offset <= 63,
                committees_per_slot >= 0,
        ;
        let first: usize = committees_per_slot * offset;

        let mut ret: Vec<(Vec<ValidatorIndex>, Shard)> = Vec::new();
        let mut k: usize = 0;
        while k < committees_per_slot
            invariant
                k <= committees_per_slot,
                committees_per_slot == self@.committees_per_slot(slot, registry_change),
                committees_per_slot <= 16,
                offset == slot % SLOTS_PER_EPOCH,
                first == committees_per_slot * offset,
                first + committees_per_slot <= committees@.len(),
                committees@.len() <= SHARD_COUNT,
                shuffling_start_shard == self@.shuffling_start_shard(slot, registry_change),
                forall|i: int|
                    0 <= i < committees@.len() ==> #[trigger] committees@[i]@ == spec_shuffling(
                        self@.shuffling_seed(slot, registry_change),
                        self@.active_validator_indices(
                            self@.shuffling_epoch(slot, registry_change),
                        ),
                    )[i],
                ret@.len() == k,
                forall|i: int|
                    0 <= i < k ==> #[trigger] committees_view(ret@)[i]
                        == self@.crosslink_committees_at_slot(slot, registry_change)[i],
            decreases committees_per_slot - k,
        {
            let members = slice_to_vec(committees[first + k].as_slice());
            let shard: u64 = ((shuffling_start_shard as u128 + first as u128 + k as u128) % (
            SHARD_COUNT as u128)) as u64;
            let ghost before = ret@;
            ret.push((members, shard));
            proof {
                assert(committees@[first + k]@ == members@);
                assert forall|i: int| 0 <= i < k + 1 implies #[trigger] committees_view(ret@)[i]
                    == self@.crosslink_committees_at_slot(slot, registry_change)[i] by {
                    if i < k {
                        assert(ret@[i] == before[i]);
                        assert(committees_view(before)[i] == (before[i].0@, before[i].1));
                    }
                }
            }
            k += 1;
        }
        assert(committees_view(ret@) =~= self@.crosslink_committees_at_slot(
            slot,
            registry_change,
        ));
        Ok(ret)
    }

    /// The validator that proposes the block of `slot`.
    pub fn beacon_proposer_index(&self, slot: Slot, registry_change: bool) -> (r: Result<
        ValidatorIndex,
        Error,
    >)
        requires
            self.wf(),
        ensures
            r == self@.beacon_proposer_result(slot, registry_change),
    {
        let committees = match self.crosslink_committees_at_slot(slot, registry_change) {
            Ok(committees) => committees,
            Err(e) => {
                return Err(e);
            },
        };
        proof {
            lemma_epoch_committee_count(
                self@.active_validator_indices(
                    self@.shuffling_epoch(slot, registry_change),
                ).len(),
            );
            assert(committees_view(committees@).len() == committees@.len());
            assert(committees_view(committees@)[0] == (committees@[0].0@, committees@[0].1));
        }
        let first_committee = &committees[0].0;
        if first_committee.len() == 0 {
            return Err(Error::ProposerCommitteeEmpty);
        }
        Ok(first_committee[(slot % first_committee.len() as u64) as usize])
    }

    /// The validators that signed an attestation: the members of the
    /// committee of the attestation's slot and shard whose bit is set in
    /// `bitfield`, in committee order.
    pub fn attestation_participants(
        &self,
        attestation: &AttestationData,
        bitfield: &BitField,
    ) -> (r: Result<Vec<ValidatorIndex>, Error>)
        requires
            self.wf(),
        ensures
            match self@.attestation_participants(*attestation, bitfield@) {
                Ok(participants) => r matches Ok(found) && found@ == participants,
                Err(e) => r == Err::<Vec<ValidatorIndex>, Error>(e),
            },
    {
        let crosslink_committees = match self.crosslink_committees_at_slot(
            attestation.slot,
            false,
        ) {
            Ok(committees) => committees,
            Err(e) => {
                return Err(e);
            },
        };
        let ghost committees = self@.crosslink_committees_at_slot(attestation.slot, false);
        let mut matched: usize = 0;
        while matched < crosslink_committees.len() && crosslink_committees[matched].1
            != attestation.shard
            invariant
                matched <= crosslink_committees@.len(),
                committees_view(crosslink_committees@) == committees,
                spec_committee_of_shard(committees, attestation.shard, matched as int)
                    == spec_committee_of_shard(committees, attestation.shard, 0),
            decreases crosslink_committees@.len() - matched,
        {
            assert(committees_view(crosslink_committees@)[matched as int].1
                == crosslink_committees@[matched as int].1);
            matched += 1;
        }
        if matched == crosslink_committees.len() {
            return Err(Error::AttestationShardInvalid);
        }
        assert(committees_view(crosslink_committees@)[matched as int] == (
            crosslink_committees@[matched as int].0@,
            crosslink_committees@[matched as int].1,
        ));
        let crosslink_committee = &crosslink_committees[matched].0;
        if bitfield.count() != crosslink_committee.len() {
            return Err(Error::AttestationBitFieldInvalid);
        }
        let mut participants: Vec<ValidatorIndex> = Vec::new();
        let mut i: usize = 0;
        while i < crosslink_committee.len()
            invariant
                i <= crosslink_committee@.len(),
                participants@ == spec_participants_among(
                    crosslink_committee@,
                    bitfield@,
                    i as nat,
                ),
            decreases crosslink_committee@.len() - i,
        {
            if bitfield.has_voted(i) {
                participants.push(crosslink_committee[i]);
            }
            i += 1;
        }
        Ok(participants)
    }
}

} // verus!
