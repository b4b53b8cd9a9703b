//! The beacon state and the operations of the validator registry.

use crate::attestation::{
    attestation_views, copy_attestations, Crosslink, PendingAttestation, PendingAttestationView,
};
use crate::block::BeaconBlockHeader;
use crate::consts::{
    ACTIVATION_EXIT_DELAY, GENESIS_EPOCH, GENESIS_FORK_VERSION, LATEST_ACTIVE_INDEX_ROOTS_LENGTH,
    LATEST_RANDAO_MIXES_LENGTH, LATEST_SLASHED_EXIT_LENGTH, MAX_DEPOSIT_AMOUNT,
    MIN_SEED_LOOKAHEAD, MIN_VALIDATOR_WITHDRAWABILITY_DELAY, SHARD_COUNT,
    SLOTS_PER_HISTORICAL_ROOT,
};
use crate::error::Error;
use crate::eth1::{Eth1Data, Eth1DataVote};
use crate::hashing::{hash3, keccak256_digest, spec_to_bytes, to_bytes};
use crate::primitives::{
    Epoch, Gwei, Shard, Slot, Timestamp, ValidatorId, ValidatorIndex, H256,
};
use crate::util::{
    epoch_committee_count, slot_to_epoch, spec_epoch_committee_count, spec_slot_to_epoch,
};
use crate::validator::Validator;
use vstd::prelude::*;
use vstd::slice::slice_to_vec;

verus! {

/// The versions on either side of a hard fork.
#[derive(Clone, Copy, Debug, PartialEq, Eq, Structural)]
pub struct Fork {
    /// Previous fork version
    pub previous_version: u64,
    /// Current fork version
    pub current_version: u64,
    /// Fork epoch number
    pub epoch: u64,
}

impl Fork {
    /// The fork of a chain that has not forked.
    pub open spec fn spec_default() -> Fork {
        Fork {
            previous_version: GENESIS_FORK_VERSION,
            current_version: GENESIS_FORK_VERSION,
            epoch: GENESIS_EPOCH,
        }
    }

    /// The version in force at `epoch`.
    pub open spec fn spec_version(&self, epoch: Epoch) -> u64 {
        if epoch < self.epoch {
            self.previous_version
        } else {
            self.current_version
        }
    }

    /// The version in force at `epoch`.
    pub fn version(&self, epoch: Epoch) -> (version: u64)
        ensures
            version == self.spec_version(epoch),
    {
        if epoch < self.epoch {
            self.previous_version
        } else {
            self.current_version
        }
    }
}

impl Default for Fork {
    fn default() -> (fork: Fork)
        ensures
            fork == Fork::spec_default(),
    {
        Fork {
            previous_version: GENESIS_FORK_VERSION,
            current_version: GENESIS_FORK_VERSION,
            epoch: GENESIS_EPOCH,
        }
    }
}

/// The signature domain: the fork version in force at `epoch` in the high
/// 32 bits, the kind of message in the low ones.
pub open spec fn spec_bls_domain(fork: Fork, epoch: Epoch, domain_type: u64) -> u64 {
    ((fork.spec_version(epoch) * 0x1_0000_0000 + domain_type) % 0x1_0000_0000_0000_0000) as u64
}

/// The signature domain of a message of kind `domain_type` at `epoch`.
pub fn bls_domain(fork: &Fork, epoch: Epoch, domain_type: u64) -> (domain: u64)
    ensures
        domain == spec_bls_domain(*fork, epoch, domain_type),
{
    let wide: u128 = (fork.version(epoch) as u128) * 0x1_0000_0000u128 + (domain_type as u128);
    (wide % 0x1_0000_0000_0000_0000u128) as u64
}

/// The block roots and state roots of one period, as the chain archives
/// them.
#[derive(Debug)]
pub struct HistoricalBatch {
    /// Block roots
    pub block_roots: Vec<H256>,
    /// State roots
    pub state_roots: Vec<H256>,
}

impl HistoricalBatch {
    /// Whether both rings have their fixed length.
    pub open spec fn wf(&self) -> bool {
        &&& self.block_roots@.len() == SLOTS_PER_HISTORICAL_ROOT
        &&& self.state_roots@.len() == SLOTS_PER_HISTORICAL_ROOT
    }
}

/// Everything the chain knows at one slot.
#[derive(Debug)]
pub struct BeaconState {
    // Misc
    pub slot: Slot,
    pub genesis_time: Timestamp,
    pub fork: Fork,
    // Validator registry
    pub validator_registry: Vec<Validator>,
    pub validator_balances: Vec<u64>,
    pub validator_registry_update_epoch: Epoch,
    // Randomness and committees
    pub latest_randao_mixes: Vec<H256>,
    pub previous_shuffling_start_shard: Shard,
    pub current_shuffling_start_shard: Shard,
    pub previous_shuffling_epoch: Epoch,
    pub current_shuffling_epoch: Epoch,
    pub previous_shuffling_seed: H256,
    pub current_shuffling_seed: H256,
    // Finality
    pub previous_epoch_attestations: Vec<PendingAttestation>,
    pub current_epoch_attestations: Vec<PendingAttestation>,
    pub previous_justified_epoch: Epoch,
    pub justified_epoch: Epoch,
    pub justification_bitfield: u64,
    pub finalized_epoch: Epoch,
    // Recent state
    pub latest_crosslinks: Vec<Crosslink>,
    pub latest_block_roots: Vec<H256>,
    pub latest_state_roots: Vec<H256>,
    pub latest_active_index_roots: Vec<H256>,
    /// Balances slashed at every withdrawal period
    pub latest_slashed_balances: Vec<u64>,
    pub latest_block_header: BeaconBlockHeader,
    pub historical_roots: Vec<H256>,
    // Ethereum 1.0 chain data
    pub latest_eth1_data: Eth1Data,
    pub eth1_data_votes: Vec<Eth1DataVote>,
    pub deposit_index: u64,
}

/// The beacon state as a mathematical value: every list is a sequence.
pub struct BeaconStateView {
    pub slot: Slot,
    pub genesis_time: Timestamp,
    pub fork: Fork,
    pub validator_registry: Seq<Validator>,
    pub validator_balances: Seq<u64>,
    pub validator_registry_update_epoch: Epoch,
    pub latest_randao_mixes: Seq<H256>,
    pub previous_shuffling_start_shard: Shard,
    pub current_shuffling_start_shard: Shard,
    pub previous_shuffling_epoch: Epoch,
    pub current_shuffling_epoch: Epoch,
    pub previous_shuffling_seed: H256,
    pub current_shuffling_seed: H256,
    pub previous_epoch_attestations: Seq<PendingAttestationView>,
    pub current_epoch_attestations: Seq<PendingAttestationView>,
    pub previous_justified_epoch: Epoch,
    pub justified_epoch: Epoch,
    pub justification_bitfield: u64,
    pub finalized_epoch: Epoch,
    pub latest_crosslinks: Seq<Crosslink>,
    pub latest_block_roots: Seq<H256>,
    pub latest_state_roots: Seq<H256>,
    pub latest_active_index_roots: Seq<H256>,
    pub latest_slashed_balances: Seq<u64>,
    pub latest_block_header: BeaconBlockHeader,
    pub historical_roots: Seq<H256>,
    pub latest_eth1_data: Eth1Data,
    pub eth1_data_votes: Seq<Eth1DataVote>,
    pub deposit_index: u64,
}

impl View for BeaconState {
    type V = BeaconStateView;

    open spec fn view(&self) -> BeaconStateView {
        BeaconStateView {
            slot: self.slot,
            genesis_time: self.genesis_time,
            fork: self.fork,
            validator_registry: self.validator_registry@,
            validator_balances: self.validator_balances@,
            validator_registry_update_epoch: self.validator_registry_update_epoch,
            latest_randao_mixes: self.latest_randao_mixes@,
            previous_shuffling_start_shard: self.previous_shuffling_start_shard,
            current_shuffling_start_shard: self.current_shuffling_start_shard,
            previous_shuffling_epoch: self.previous_shuffling_epoch,
            current_shuffling_epoch: self.current_shuffling_epoch,
            previous_shuffling_seed: self.previous_shuffling_seed,
            current_shuffling_seed: self.current_shuffling_seed,
            previous_epoch_attestations: attestation_views(self.previous_epoch_attestations@),
            current_epoch_attestations: attestation_views(self.current_epoch_attestations@),
            previous_justified_epoch: self.previous_justified_epoch,
            justified_epoch: self.justified_epoch,
            justification_bitfield: self.justification_bitfield,
            finalized_epoch: self.finalized_epoch,
            latest_crosslinks: self.latest_crosslinks@,
            latest_block_roots: self.latest_block_roots@,
            latest_state_roots: self.latest_state_roots@,
            latest_active_index_roots: self.latest_active_index_roots@,
            latest_slashed_balances: self.latest_slashed_balances@,
            latest_block_header: self.latest_block_header,
            historical_roots: self.historical_roots@,
            latest_eth1_data: self.latest_eth1_data,
            eth1_data_votes: self.eth1_data_votes@,
            deposit_index: self.deposit_index,
        }
    }
}

impl BeaconStateView {
    /// Whether the registry and the balances run in parallel and every ring
    /// has its fixed length.
    pub open spec fn wf(&self) -> bool {
        &&& self.validator_registry.len() == self.validator_balances.len()
        &&& self.latest_randao_mixes.len() == LATEST_RANDAO_MIXES_LENGTH
        &&& self.latest_crosslinks.len() == SHARD_COUNT
        &&& self.latest_block_roots.len() == SLOTS_PER_HISTORICAL_ROOT
        &&& self.latest_state_roots.len() == SLOTS_PER_HISTORICAL_ROOT
        &&& self.latest_active_index_roots.len() == LATEST_ACTIVE_INDEX_ROOTS_LENGTH
        &&& self.latest_slashed_balances.len() == LATEST_SLASHED_EXIT_LENGTH
    }

    /// The epoch of the current slot.
    pub open spec fn current_epoch(&self) -> Epoch {
        spec_slot_to_epoch(self.slot)
    }

    /// The epoch before the current one, or the current one at epoch zero.
    pub open spec fn previous_epoch(&self) -> Epoch {
        if self.current_epoch() > 0 {
            (self.current_epoch() - 1) as u64
        } else {
            0
        }
    }

    /// The first epoch in which an activation or exit asked for now takes
    /// effect.
    pub open spec fn delayed_activation_exit_epoch(&self) -> Epoch {
        (self.current_epoch() + 1 + ACTIVATION_EXIT_DELAY) as u64
    }

    /// Whether the ring of randao mixes still holds the mix of `epoch`: of
    /// the epochs up to the current one, the ring holds as many as it has
    /// places, and never epoch zero.
    pub open spec fn has_randao_mix(&self, epoch: Epoch) -> bool {
        &&& self.current_epoch() - LATEST_RANDAO_MIXES_LENGTH < epoch
        &&& 0 < epoch
        &&& epoch <= self.current_epoch()
    }

    /// The randao mix of `epoch`.
    pub open spec fn randao_mix(&self, epoch: Epoch) -> H256 {
        self.latest_randao_mixes[(epoch % LATEST_RANDAO_MIXES_LENGTH as u64) as int]
    }

    /// Whether the rings of recent roots still hold the root of `slot`: of
    /// the slots before the current one, the rings hold as many as they
    /// have places.
    pub open spec fn has_recent_root(&self, slot: Slot) -> bool {
        slot < self.slot <= slot + SLOTS_PER_HISTORICAL_ROOT
    }

    /// The block root of `slot`.
    pub open spec fn block_root(&self, slot: Slot) -> H256 {
        self.latest_block_roots[(slot % SLOTS_PER_HISTORICAL_ROOT as u64) as int]
    }

    /// The state root of `slot`.
    pub open spec fn state_root(&self, slot: Slot) -> H256 {
        self.latest_state_roots[(slot % SLOTS_PER_HISTORICAL_ROOT as u64) as int]
    }

    /// Whether the ring of active-index roots holds the root of `epoch`:
    /// the ring reaches ahead of the current epoch by the delay of
    /// activations and exits, holds as many epochs as it has places, and
    /// never epoch zero.
    pub open spec fn has_active_index_root(&self, epoch: Epoch) -> bool {
        &&& self.current_epoch() - (LATEST_ACTIVE_INDEX_ROOTS_LENGTH - ACTIVATION_EXIT_DELAY)
            < epoch
        &&& 0 < epoch
        &&& epoch <= self.current_epoch() + ACTIVATION_EXIT_DELAY
    }

    /// The active-index root of `epoch`.
    pub open spec fn active_index_root(&self, epoch: Epoch) -> H256 {
        self.latest_active_index_roots[(epoch % LATEST_ACTIVE_INDEX_ROOTS_LENGTH as u64) as int]
    }

    /// The epoch whose randao mix seeds the shuffling of `epoch`.
    pub open spec fn seed_mix_epoch(epoch: Epoch) -> Epoch {
        if epoch >= MIN_SEED_LOOKAHEAD {
            (epoch - MIN_SEED_LOOKAHEAD) as u64
        } else {
            0
        }
    }

    /// Whether the state can still derive the seed of `epoch`.
    pub open spec fn has_seed(&self, epoch: Epoch) -> bool {
        self.has_randao_mix(Self::seed_mix_epoch(epoch)) && self.has_active_index_root(epoch)
    }

    /// The seed of `epoch`: the digest of the randao mix, the active-index
    /// root and the epoch number.
    pub open spec fn seed(&self, epoch: Epoch) -> Seq<u8> {
        keccak256_digest(
            self.randao_mix(Self::seed_mix_epoch(epoch))@ + self.active_index_root(epoch)@
                + spec_to_bytes(epoch),
        )
    }

    /// The balance of validator `index` that counts as its weight.
    pub open spec fn effective_balance(&self, index: ValidatorIndex) -> Gwei {
        if self.validator_balances[index as int] < MAX_DEPOSIT_AMOUNT {
            self.validator_balances[index as int]
        } else {
            MAX_DEPOSIT_AMOUNT
        }
    }

    /// The state after validator `index` is activated.
    pub open spec fn activate_validator(
        &self,
        index: ValidatorIndex,
        is_genesis: bool,
    ) -> BeaconStateView {
        BeaconStateView {
            validator_registry: self.validator_registry.update(
                index as int,
                self.validator_registry[index as int].spec_activate(
                    self.delayed_activation_exit_epoch(),
                    is_genesis,
                ),
            ),
            ..*self
        }
    }

    /// The state after validator `index` has asked to exit.
    pub open spec fn initiate_validator_exit(&self, index: ValidatorIndex) -> BeaconStateView {
        BeaconStateView {
            validator_registry: self.validator_registry.update(
                index as int,
                self.validator_registry[index as int].spec_initiate_exit(),
            ),
            ..*self
        }
    }

    /// The state after validator `index` exits.
    pub open spec fn exit_validator(&self, index: ValidatorIndex) -> BeaconStateView {
        BeaconStateView {
            validator_registry: self.validator_registry.update(
                index as int,
                self.validator_registry[index as int].spec_exit(
                    self.delayed_activation_exit_epoch(),
                ),
            ),
            ..*self
        }
    }

    /// The state after validator `index` is given its date of withdrawal.
    pub open spec fn prepare_validator_for_withdrawal(
        &self,
        index: ValidatorIndex,
    ) -> BeaconStateView {
        BeaconStateView {
            validator_registry: self.validator_registry.update(
                index as int,
                Validator {
                    withdrawable_epoch: (self.current_epoch()
                        + MIN_VALIDATOR_WITHDRAWABILITY_DELAY) as u64,
                    ..self.validator_registry[index as int]
                },
            ),
            ..*self
        }
    }

    /// The position of the first validator at or after `from` whose key is
    /// `id`.
    pub open spec fn find_validator_from(&self, id: ValidatorId, from: int) -> Option<int>
        decreases self.validator_registry.len() - from,
    {
        if from < 0 || from >= self.validator_registry.len() {
            None
        } else if self.validator_registry[from].pubkey@ == id@ {
            Some(from)
        } else {
            self.find_validator_from(id, from + 1)
        }
    }

    /// The position of the first validator whose key is `id`.
    pub open spec fn find_validator(&self, id: ValidatorId) -> Option<int> {
        self.find_validator_from(id, 0)
    }

    /// The indices below `count` of the validators that are active in
    /// `epoch`, in ascending order.
    pub open spec fn active_validator_indices_below(&self, epoch: Epoch, count: nat) -> Seq<
        ValidatorIndex,
    >
        decreases count,
    {
        if count == 0 {
            Seq::empty()
        } else {
            let below = self.active_validator_indices_below(epoch, (count - 1) as nat);
            if self.validator_registry[count - 1].spec_is_active(epoch) {
                below.push((count - 1) as u64)
            } else {
                below
            }
        }
    }

    /// The indices of the validators that are active in `epoch`, in
    /// ascending order.
    pub open spec fn active_validator_indices(&self, epoch: Epoch) -> Seq<ValidatorIndex> {
        self.active_validator_indices_below(epoch, self.validator_registry.len())
    }

    /// Number of committees of the previous shuffling.
    pub open spec fn previous_epoch_committee_count(&self) -> nat {
        spec_epoch_committee_count(
            self.active_validator_indices(self.previous_shuffling_epoch).len(),
        )
    }

    /// Number of committees of the current shuffling.
    pub open spec fn current_epoch_committee_count(&self) -> nat {
        spec_epoch_committee_count(
            self.active_validator_indices(self.current_shuffling_epoch).len(),
        )
    }

    /// Number of committees that the next epoch would have.
    pub open spec fn next_epoch_committee_count(&self) -> nat {
        spec_epoch_committee_count(
            self.active_validator_indices((self.current_epoch() + 1) as u64).len(),
        )
    }

    /// The sum of the effective balances of the validators in `indices`.
    pub open spec fn total_balance(&self, indices: Seq<ValidatorIndex>) -> nat
        decreases indices.len(),
    {
        if indices.len() == 0 {
            0
        } else {
            self.total_balance(indices.drop_last()) + self.effective_balance(
                indices.last(),
            ) as nat
        }
    }

    /// Whether the sum of any effective balances of the registry fits a
    /// 64-bit integer.
    pub open spec fn balances_fit(&self) -> bool {
        self.validator_registry.len() * MAX_DEPOSIT_AMOUNT <= u64::MAX
    }
}

/// The active indices below `count` are fewer than `count` and each lies
/// below `count`, in strictly ascending order.
pub proof fn lemma_active_validator_indices_below(state: BeaconStateView, epoch: Epoch, count: nat)
    requires
        count <= state.validator_registry.len(),
        state.validator_registry.len() <= u64::MAX,
    ensures
        state.active_validator_indices_below(epoch, count).len() <= count,
        forall|i: int|
            0 <= i < state.active_validator_indices_below(epoch, count).len()
                ==> #[trigger] state.active_validator_indices_below(epoch, count)[i] < count,
        forall|i: int, j: int|
            0 <= i < j < state.active_validator_indices_below(epoch, count).len()
                ==> #[trigger] state.active_validator_indices_below(epoch, count)[i]
                < #[trigger] state.active_validator_indices_below(epoch, count)[j],
        forall|i: int|
            0 <= i < state.active_validator_indices_below(epoch, count).len()
                ==> state.validator_registry[#[trigger] state.active_validator_indices_below(
                epoch,
                count,
            )[i] as int].spec_is_active(epoch),
    decreases count,
{
    if count > 0 {
        lemma_active_validator_indices_below(state, epoch, (count - 1) as nat);
    }
}

/// A validator's index is among the active indices of an epoch exactly
/// when the validator is active in it.
pub proof fn lemma_active_validator_indices_complete(
    state: BeaconStateView,
    epoch: Epoch,
    count: nat,
    index: ValidatorIndex,
)
    requires
        count <= state.validator_registry.len(),
        state.validator_registry.len() <= u64::MAX,
    ensures
        state.active_validator_indices_below(epoch, count).contains(index) <==> (index < count
            && state.validator_registry[index as int].spec_is_active(epoch)),
    decreases count,
{
    if count > 0 {
        let below = state.active_validator_indices_below(epoch, (count - 1) as nat);
        lemma_active_validator_indices_complete(state, epoch, (count - 1) as nat, index);
        if state.validator_registry[count - 1].spec_is_active(epoch) {
            let all = below.push((count - 1) as u64);
            assert(all.last() == (count - 1) as u64);
            if below.contains(index) {
                let i = choose|i: int| 0 <= i < below.len() && below[i] == index;
                assert(all[i] == index);
            }
            if index == count - 1 {
                assert(all[all.len() - 1] == index);
            }
            if all.contains(index) {
                let i = choose|i: int| 0 <= i < all.len() && all[i] == index;
                if i < below.len() {
                    assert(below[i] == index);
                }
            }
        }
    } else {
        assert(!Seq::<ValidatorIndex>::empty().contains(index));
    }
}

/// The sum of `count` effective balances is at most `count` times the
/// largest deposit.
pub proof fn lemma_total_balance_bound(state: BeaconStateView, indices: Seq<ValidatorIndex>)
    ensures
        state.total_balance(indices) <= indices.len() * MAX_DEPOSIT_AMOUNT,
    decreases indices.len(),
{
    if indices.len() > 0 {
        lemma_total_balance_bound(state, indices.drop_last());
        assert((indices.len() - 1) * MAX_DEPOSIT_AMOUNT + MAX_DEPOSIT_AMOUNT == indices.len()
            * MAX_DEPOSIT_AMOUNT) by (nonlinear_arith);
    }
}

impl BeaconState {
    /// Whether the state's view is well formed.
    pub open spec fn wf(&self) -> bool {
        self@.wf()
    }

    /// A copy of the state, to try a transition on: the first error of a
    /// transition leaves the state it ran on half changed.
    pub fn snapshot(&self) -> (copy: BeaconState)
        ensures
            copy@ == self@,
    {
        BeaconState {
            slot: self.slot,
            genesis_time: self.genesis_time,
            fork: self.fork,
            validator_registry: slice_to_vec(self.validator_registry.as_slice()),
            validator_balances: slice_to_vec(self.validator_balances.as_slice()),
            validator_registry_update_epoch: self.validator_registry_update_epoch,
            latest_randao_mixes: slice_to_vec(self.latest_randao_mixes.as_slice()),
            previous_shuffling_start_shard: self.previous_shuffling_start_shard,
            current_shuffling_start_shard: self.current_shuffling_start_shard,
            previous_shuffling_epoch: self.previous_shuffling_epoch,
            current_shuffling_epoch: self.current_shuffling_epoch,
            previous_shuffling_seed: self.previous_shuffling_seed,
            current_shuffling_seed: self.current_shuffling_seed,
            previous_epoch_attestations: copy_attestations(&self.previous_epoch_attestations),
            current_epoch_attestations: copy_attestations(&self.current_epoch_attestations),
            previous_justified_epoch: self.previous_justified_epoch,
            justified_epoch: self.justified_epoch,
            justification_bitfield: self.justification_bitfield,
            finalized_epoch: self.finalized_epoch,
            latest_crosslinks: slice_to_vec(self.latest_crosslinks.as_slice()),
            latest_block_roots: slice_to_vec(self.latest_block_roots.as_slice()),
            latest_state_roots: slice_to_vec(self.latest_state_roots.as_slice()),
            latest_active_index_roots: slice_to_vec(self.latest_active_index_roots.as_slice()),
            latest_slashed_balances: slice_to_vec(self.latest_slashed_balances.as_slice()),
            latest_block_header: self.latest_block_header,
            historical_roots: slice_to_vec(self.historical_roots.as_slice()),
            latest_eth1_data: self.latest_eth1_data,
            eth1_data_votes: slice_to_vec(self.eth1_data_votes.as_slice()),
            deposit_index: self.deposit_index,
        }
    }

    /// The epoch of the current slot.
    pub fn current_epoch(&self) -> (epoch: Epoch)
        ensures
            epoch == self@.current_epoch(),
    {
        slot_to_epoch(self.slot)
    }

    /// The epoch before the current one, or the current one at epoch zero.
    pub fn previous_epoch(&self) -> (epoch: Epoch)
        ensures
            epoch == self@.previous_epoch(),
    {
        self.current_epoch().saturating_sub(1)
    }

    /// The first epoch in which an activation or exit asked for now takes
    /// effect.
    pub fn delayed_activation_exit_epoch(&self) -> (epoch: u64)
        ensures
            epoch == self@.delayed_activation_exit_epoch(),
            epoch == self@.current_epoch() + 1 + ACTIVATION_EXIT_DELAY,
    {
        self.current_epoch() + 1 + ACTIVATION_EXIT_DELAY
    }

    /// The randao mix of `epoch`, which must be one of the epochs that the
    /// ring still holds.
    pub fn randao_mix(&self, epoch: Epoch) -> (r: Result<H256, Error>)
        requires
            self.wf(),
        ensures
            self@.has_randao_mix(epoch) ==> r == Ok::<H256, Error>(self@.randao_mix(epoch)),
            !self@.has_randao_mix(epoch) ==> r == Err::<H256, Error>(Error::EpochOutOfRange),
    {
        if self.current_epoch().saturating_sub(LATEST_RANDAO_MIXES_LENGTH as u64) >= epoch || epoch
            > self.current_epoch() {
            return Err(Error::EpochOutOfRange);
        }
        Ok(self.latest_randao_mixes[(epoch % LATEST_RANDAO_MIXES_LENGTH as u64) as usize])
    }

    /// The block root of `slot`, which must be one of the slots that the
    /// ring still holds.
    pub fn block_root(&self, slot: Slot) -> (r: Result<H256, Error>)
        requires
            self.wf(),
        ensures
            self@.has_recent_root(slot) ==> r == Ok::<H256, Error>(self@.block_root(slot)),
            !self@.has_recent_root(slot) ==> r == Err::<H256, Error>(Error::SlotOutOfRange),
    {
        if slot >= self.slot || self.slot - slot > SLOTS_PER_HISTORICAL_ROOT as u64 {
            return Err(Error::SlotOutOfRange);
        }
        Ok(self.latest_block_roots[(slot % SLOTS_PER_HISTORICAL_ROOT as u64) as usize])
    }

    /// The state root of `slot`, which must be one of the slots that the
    /// ring still holds.
    pub fn state_root(&self, slot: Slot) -> (r: Result<H256, Error>)
        requires
            self.wf(),
        ensures
            self@.has_recent_root(slot) ==> r == Ok::<H256, Error>(self@.state_root(slot)),
            !self@.has_recent_root(slot) ==> r == Err::<H256, Error>(Error::SlotOutOfRange),
    {
        if slot >= self.slot || self.slot - slot > SLOTS_PER_HISTORICAL_ROOT as u64 {
            return Err(Error::SlotOutOfRange);
        }
        Ok(self.latest_state_roots[(slot % SLOTS_PER_HISTORICAL_ROOT as u64) as usize])
    }

    /// The active-index root of `epoch`, which must be one of the epochs
    /// that the ring holds.
    pub fn active_index_root(&self, epoch: Epoch) -> (r: Result<H256, Error>)
        requires
            self.wf(),
        ensures
            self@.has_active_index_root(epoch) ==> r == Ok::<H256, Error>(
                self@.active_index_root(epoch),
            ),
            !self@.has_active_index_root(epoch) ==> r == Err::<H256, Error>(
                Error::EpochOutOfRange,
            ),
    {
        if self.current_epoch().saturating_sub(
            LATEST_ACTIVE_INDEX_ROOTS_LENGTH as u64 - ACTIVATION_EXIT_DELAY,
        ) >= epoch || epoch > self.current_epoch() + ACTIVATION_EXIT_DELAY {
            return Err(Error::EpochOutOfRange);
        }
        Ok(
            self.latest_active_index_roots[(epoch
                % LATEST_ACTIVE_INDEX_ROOTS_LENGTH as u64) as usize],
        )
    }

    /// The seed of the shuffling of `epoch`.
    pub fn seed(&self, epoch: Epoch) -> (r: Result<H256, Error>)
        requires
            self.wf(),
        ensures
            self@.has_seed(epoch) ==> (r matches Ok(seed) && seed@ == self@.seed(epoch)),
            !self@.has_seed(epoch) ==> r == Err::<H256, Error>(Error::EpochOutOfRange),
    {
        let mix = match self.randao_mix(epoch.saturating_sub(MIN_SEED_LOOKAHEAD)) {
            Ok(mix) => mix,
            Err(e) => {
                return Err(e);
            },
        };
        let root = match self.active_index_root(epoch) {
            Ok(root) => root,
            Err(e) => {
                return Err(e);
            },
        };
        let number = to_bytes(epoch);
        Ok(hash3(mix.bytes.as_slice(), root.bytes.as_slice(), number.bytes.as_slice()))
    }

    /// The balance of validator `index` that counts as its weight: the
    /// balance itself, or the largest deposit if the balance is above it.
    pub fn effective_balance(&self, index: ValidatorIndex) -> (balance: Gwei)
        requires
            index < self@.validator_balances.len(),
        ensures
            balance == self@.effective_balance(index),
    {
        let count = self.validator_balances.len();
        assert(index < count);
        let balance = self.validator_balances[index as usize];
        if balance < MAX_DEPOSIT_AMOUNT {
            balance
        } else {
            MAX_DEPOSIT_AMOUNT
        }
    }
    /// The first validator of the registry whose key is `validator_id`.
    pub fn validator_by_id(&self, validator_id: &ValidatorId) -> (r: Option<&Validator>)
        ensures
            match self@.find_validator(*validator_id) {
                Some(i) => r == Some(&self@.validator_registry[i]),
                None => r is None,
            },
    {
        match self.validator_position(validator_id) {
            Some(i) => Some(&self.validator_registry[i]),
            None => None,
        }
    }

    /// The position of the first validator whose key is `validator_id`.
    pub fn validator_position(&self, validator_id: &ValidatorId) -> (r: Option<usize>)
        ensures
            match self@.find_validator(*validator_id) {
                Some(i) => r == Some(i as usize) && 0 <= i < self@.validator_registry.len() && i
                    <= usize::MAX,
                None => r is None,
            },
    {
        let mut i: usize = 0;
        while i < self.validator_registry.len()
            invariant
                i <= self.validator_registry.len(),
                self@.find_validator_from(*validator_id, i as int) == self@.find_validator(
                    *validator_id,
                ),
            decreases self.validator_registry.len() - i,
        {
            if self.validator_registry[i].pubkey == *validator_id {
                return Some(i);
            }
            i += 1;
        }
        None
    }

    /// Schedules the activation of validator `index`.
    pub fn activate_validator(&mut self, index: ValidatorIndex, is_genesis: bool)
        requires
            index < old(self)@.validator_registry.len(),
        ensures
            final(self)@ == old(self)@.activate_validator(index, is_genesis),
    {
        let delayed_activation_exit_epoch = self.delayed_activation_exit_epoch();
        let count = self.validator_registry.len();
        assert(index < count);
        let mut validator = self.validator_registry[index as usize];
        validator.activate(delayed_activation_exit_epoch, is_genesis);
        self.validator_registry[index as usize] = validator;
    }

    /// Records that validator `index` has asked to exit.
    pub fn initiate_validator_exit(&mut self, index: ValidatorIndex)
        requires
            index < old(self)@.validator_registry.len(),
        ensures
            final(self)@ == old(self)@.initiate_validator_exit(index),
    {
        let count = self.validator_registry.len();
        assert(index < count);
        let mut validator = self.validator_registry[index as usize];
        validator.initiate_exit();
        self.validator_registry[index as usize] = validator;
    }

    /// Sets the epoch from which validator `index` may withdraw.
    pub fn prepare_validator_for_withdrawal(&mut self, index: ValidatorIndex)
        requires
            index < old(self)@.validator_registry.len(),
        ensures
            final(self)@ == old(self)@.prepare_validator_for_withdrawal(index),
    {
        let count = self.validator_registry.len();
        assert(index < count);
        let mut validator = self.validator_registry[index as usize];
        validator.withdrawable_epoch = self.current_epoch() + MIN_VALIDATOR_WITHDRAWABILITY_DELAY;
        self.validator_registry[index as usize] = validator;
    }

    /// Schedules the exit of validator `index`, unless an exit that is due
    /// no later stands already.
    pub fn exit_validator(&mut self, index: ValidatorIndex)
        requires
            index < old(self)@.validator_registry.len(),
        ensures
            final(self)@ == old(self)@.exit_validator(index),
    {
        let delayed_activation_exit_epoch = self.delayed_activation_exit_epoch();
        let count = self.validator_registry.len();
        assert(index < count);
        let mut validator = self.validator_registry[index as usize];
        validator.exit(delayed_activation_exit_epoch);
        self.validator_registry[index as usize] = validator;
    }

    /// The indices of the validators that are active in `epoch`, in
    /// ascending order.
    pub fn active_validator_indices(&self, epoch: Epoch) -> (indices: Vec<ValidatorIndex>)
        ensures
            indices@ == self@.active_validator_indices(epoch),
            indices@.len() <= self@.validator_registry.len(),
    {
        let mut indices: Vec<ValidatorIndex> = Vec::new();
        let mut i: usize = 0;
        while i < self.validator_registry.len()
            invariant
                i <= self.validator_registry.len(),
                indices@ == self@.active_validator_indices_below(epoch, i as nat),
            decreases self.validator_registry.len() - i,
        {
            if self.validator_registry[i].is_active(epoch) {
                indices.push(i as u64);
            }
            i += 1;
        }
        proof {
            lemma_active_validator_indices_below(
                self@,
                epoch,
                self@.validator_registry.len(),
            );
        }
        indices
    }

    /// Number of committees of the previous shuffling.
    pub fn previous_epoch_committee_count(&self) -> (count: usize)
        ensures
            count == self@.previous_epoch_committee_count(),
    {
        let previous_active_validators = self.active_validator_indices(
            self.previous_shuffling_epoch,
        );
        epoch_committee_count(previous_active_validators.len())
    }

    /// Number of committees of the current shuffling.
    pub fn current_epoch_committee_count(&self) -> (count: usize)
        ensures
            count == self@.current_epoch_committee_count(),
    {
        let current_active_validators = self.active_validator_indices(
            self.current_shuffling_epoch,
        );
        epoch_committee_count(current_active_validators.len())
    }

    /// Number of committees that the next epoch would have.
    pub fn next_epoch_committee_count(&self) -> (count: usize)
        ensures
            count == self@.next_epoch_committee_count(),
    {
        let next_active_validators = self.active_validator_indices(self.current_epoch() + 1);
        epoch_committee_count(next_active_validators.len())
    }

    /// The sum of the effective balances of the validators in `indices`.
    pub fn total_balance(&self, indices: &[ValidatorIndex]) -> (total: Gwei)
        requires
            forall|i: int| 0 <= i < indices@.len() ==> indices@[i] < self@.validator_balances.len(),
            indices@.len() * MAX_DEPOSIT_AMOUNT <= u64::MAX,
        ensures
            total == self@.total_balance(indices@),
    {
        let mut total: u64 = 0;
        let mut i: usize = 0;
        while i < indices.len()
            invariant
                i <= indices.len(),
                forall|j: int|
                    0 <= j < indices@.len() ==> indices@[j] < self@.validator_balances.len(),
                indices@.len() * MAX_DEPOSIT_AMOUNT <= u64::MAX,
                total == self@.total_balance(indices@.take(i as int)),
            decreases indices.len() - i,
        {
            proof {
                let next = indices@.take(i + 1);
                assert(next.drop_last() =~= indices@.take(i as int));
                lemma_total_balance_bound(self@, next);
                assert(next.len() * MAX_DEPOSIT_AMOUNT <= indices@.len() * MAX_DEPOSIT_AMOUNT)
                    by (nonlinear_arith)
                    requires
                        next.len() <= indices@.len(),
                ;
            }
            total = total + self.effective_balance(indices[i]);
            i += 1;
        }
        assert(indices@.take(i as int) =~= indices@);
        total
    }

    /// The sum of the effective balances of the validators that are active
    /// in the current epoch.
    pub fn current_total_balance(&self) -> (total: Gwei)
        requires
            self.wf(),
            self@.balances_fit(),
        ensures
            total == self@.total_balance(self@.active_validator_indices(self@.current_epoch())),
    {
        let indices = self.active_validator_indices(self.current_epoch());
        proof {
            lemma_active_validator_indices_below(
                self@,
                self@.current_epoch(),
                self@.validator_registry.len(),
            );
            assert(indices@.len() * MAX_DEPOSIT_AMOUNT <= self@.validator_registry.len()
                * MAX_DEPOSIT_AMOUNT) by (nonlinear_arith)
                requires
                    indices@.len() <= self@.validator_registry.len(),
            ;
        }
        self.total_balance(indices.as_slice())
    }

    /// The sum of the effective balances of the validators that were
    /// active in the previous epoch.
    pub fn previous_total_balance(&self) -> (total: Gwei)
        requires
            self.wf(),
            self@.balances_fit(),
        ensures
            total == self@.total_balance(self@.active_validator_indices(self@.previous_epoch())),
    {
        let indices = self.active_validator_indices(self.previous_epoch());
        proof {
            lemma_active_validator_indices_below(
                self@,
                self@.previous_epoch(),
                self@.validator_registry.len(),
            );
            assert(indices@.len() * MAX_DEPOSIT_AMOUNT <= self@.validator_registry.len()
                * MAX_DEPOSIT_AMOUNT) by (nonlinear_arith)
                requires
                    indices@.len() <= self@.validator_registry.len(),
            ;
        }
        self.total_balance(indices.as_slice())
    }
}

} // verus!
