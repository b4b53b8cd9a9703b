//! The state that a chain starts from.

use crate::attestation::{Crosslink, PendingAttestation};
use crate::block::BeaconBlockHeader;
use crate::consts::{
    GENESIS_EPOCH, GENESIS_SLOT, GENESIS_START_SHARD, LATEST_ACTIVE_INDEX_ROOTS_LENGTH,
    LATEST_RANDAO_MIXES_LENGTH, LATEST_SLASHED_EXIT_LENGTH, MAX_DEPOSIT_AMOUNT, SHARD_COUNT,
    SLOTS_PER_HISTORICAL_ROOT,
};
use crate::error::Error;
use crate::eth1::{CheckedDeposit, Eth1Data, Eth1DataVote};
use crate::hashing::{hash_u64_list, spec_hash_u64_list};
use crate::primitives::{lemma_h256_of_view, spec_h256, zero_bytes, Timestamp, H256};
use crate::registry::{
    lemma_find_validator_depends_on_registry, lemma_find_validator_in_range,
    lemma_push_deposit_keeps_coupling,
};
use crate::state::{BeaconState, BeaconStateView, Fork};
use crate::validator::Validator;
use vstd::prelude::*;

verus! {

/// The sum of the amounts of the first `count` deposits.
pub open spec fn spec_total_amount(deposits: Seq<CheckedDeposit>, count: nat) -> nat
    decreases count,
{
    if count == 0 {
        0
    } else {
        spec_total_amount(deposits, (count - 1) as nat) + deposits[count
            - 1].deposit.deposit_data.amount as nat
    }
}

impl BeaconStateView {
    /// The state at the genesis slot before any deposit: no validator, every
    /// ring filled with zeros, every epoch the genesis epoch.
    pub open spec fn genesis_base(
        genesis_time: Timestamp,
        latest_eth1_data: Eth1Data,
    ) -> BeaconStateView {
        let zero = spec_h256(zero_bytes(32));
        BeaconStateView {
            slot: GENESIS_SLOT,
            genesis_time,
            fork: Fork::spec_default(),
            validator_registry: Seq::empty(),
            validator_balances: Seq::empty(),
            validator_registry_update_epoch: GENESIS_EPOCH,
            latest_randao_mixes: Seq::new(LATEST_RANDAO_MIXES_LENGTH as nat, |i: int| zero),
            previous_shuffling_start_shard: GENESIS_START_SHARD,
            current_shuffling_start_shard: GENESIS_START_SHARD,
            previous_shuffling_epoch: GENESIS_EPOCH,
            current_shuffling_epoch: GENESIS_EPOCH,
            previous_shuffling_seed: zero,
            current_shuffling_seed: zero,
            previous_epoch_attestations: Seq::empty(),
            current_epoch_attestations: Seq::empty(),
            previous_justified_epoch: GENESIS_EPOCH,
            justified_epoch: GENESIS_EPOCH,
            justification_bitfield: 0,
            finalized_epoch: GENESIS_EPOCH,
            latest_crosslinks: Seq::new(
                SHARD_COUNT as nat,
                |i: int| Crosslink { epoch: 0, crosslink_data_root: zero },
            ),
            latest_block_roots: Seq::new(SLOTS_PER_HISTORICAL_ROOT as nat, |i: int| zero),
            latest_state_roots: Seq::new(SLOTS_PER_HISTORICAL_ROOT as nat, |i: int| zero),
            latest_active_index_roots: Seq::new(
                LATEST_ACTIVE_INDEX_ROOTS_LENGTH as nat,
                |i: int| zero,
            ),
            latest_slashed_balances: Seq::new(LATEST_SLASHED_EXIT_LENGTH as nat, |i: int| 0u64),
            latest_block_header: BeaconBlockHeader::spec_genesis(),
            historical_roots: Seq::empty(),
            latest_eth1_data,
            eth1_data_votes: Seq::empty(),
            deposit_index: 0,
        }
    }

    /// The state after the first `count` of `deposits` are applied in
    /// order.
    pub open spec fn push_deposits(
        &self,
        deposits: Seq<CheckedDeposit>,
        count: nat,
    ) -> BeaconStateView
        decreases count,
    {
        if count == 0 {
            *self
        } else {
            self.push_deposits(deposits, (count - 1) as nat).push_deposit(deposits[count - 1])
        }
    }

    /// The first error among the first `count` of `deposits` applied in
    /// order, if there is one.
    pub open spec fn push_deposits_result(
        &self,
        deposits: Seq<CheckedDeposit>,
        count: nat,
    ) -> Result<(), Error>
        decreases count,
    {
        if count == 0 {
            Ok(())
        } else {
            match self.push_deposits_result(deposits, (count - 1) as nat) {
                Err(e) => Err(e),
                Ok(_) => self.push_deposits(deposits, (count - 1) as nat).push_deposit_result(
                    deposits[count - 1],
                ),
            }
        }
    }

    /// The state after those of the first `count` validators whose
    /// effective balance is a full deposit are activated as of genesis.
    pub open spec fn activate_genesis_validators(&self, count: nat) -> BeaconStateView
        decreases count,
    {
        if count == 0 {
            *self
        } else {
            let before = self.activate_genesis_validators((count - 1) as nat);
            if before.effective_balance((count - 1) as u64) >= MAX_DEPOSIT_AMOUNT {
                before.activate_validator((count - 1) as u64, true)
            } else {
                before
            }
        }
    }

    /// The state after every place of the ring of active-index roots holds
    /// the root of the list of validators that are active at genesis.
    pub open spec fn with_genesis_index_roots(&self) -> BeaconStateView {
        let root = spec_h256(spec_hash_u64_list(self.active_validator_indices(GENESIS_EPOCH)));
        BeaconStateView {
            latest_active_index_roots: Seq::new(
                LATEST_ACTIVE_INDEX_ROOTS_LENGTH as nat,
                |i: int| root,
            ),
            ..*self
        }
    }

    /// The genesis state of a chain that starts with `deposits`: the
    /// deposits applied to the empty state, the validators with a full
    /// deposit activated, the active-index roots set, and the seed of the
    /// genesis epoch derived from them.
    pub open spec fn genesis(
        deposits: Seq<CheckedDeposit>,
        genesis_time: Timestamp,
        latest_eth1_data: Eth1Data,
    ) -> BeaconStateView {
        let deposited = Self::genesis_base(genesis_time, latest_eth1_data).push_deposits(
            deposits,
            deposits.len(),
        );
        let activated = deposited.activate_genesis_validators(deposited.validator_registry.len());
        let rooted = activated.with_genesis_index_roots();
        BeaconStateView { current_shuffling_seed: spec_h256(rooted.seed(GENESIS_EPOCH)), ..rooted }
    }

    /// What building the genesis state from `deposits` returns: the first
    /// error among the deposits, if there is one.
    pub open spec fn genesis_result(
        deposits: Seq<CheckedDeposit>,
        genesis_time: Timestamp,
        latest_eth1_data: Eth1Data,
    ) -> Result<(), Error> {
        Self::genesis_base(genesis_time, latest_eth1_data).push_deposits_result(
            deposits,
            deposits.len(),
        )
    }
}

/// Once a deposit has failed, the run of deposits has failed with its
/// error.
pub proof fn lemma_push_deposits_error_stands(
    state: BeaconStateView,
    deposits: Seq<CheckedDeposit>,
    failed: nat,
    count: nat,
)
    requires
        failed <= count,
        state.push_deposits_result(deposits, failed) is Err,
    ensures
        state.push_deposits_result(deposits, count) == state.push_deposits_result(
            deposits,
            failed,
        ),
    decreases count,
{
    if failed < count {
        lemma_push_deposits_error_stands(state, deposits, failed, (count - 1) as nat);
    }
}

/// A run of deposits that are all accepted counts each of them once, and
/// keeps the registry and the balances in step.
pub proof fn lemma_push_deposits_counts(
    state: BeaconStateView,
    deposits: Seq<CheckedDeposit>,
    count: nat,
)
    requires
        state.wf(),
        state.deposit_index + count <= u64::MAX,
        state.push_deposits_result(deposits, count) is Ok,
    ensures
        state.push_deposits(deposits, count).wf(),
        state.push_deposits(deposits, count).deposit_index == state.deposit_index + count,
        state.push_deposits(deposits, count).slot == state.slot,
    decreases count,
{
    if count > 0 {
        lemma_push_deposits_counts(state, deposits, (count - 1) as nat);
        lemma_push_deposit_keeps_coupling(
            state.push_deposits(deposits, (count - 1) as nat),
            deposits[count - 1],
        );
    }
}

/// The genesis state is well formed, stands at the genesis slot, and has
/// counted every deposit it was made from.
pub proof fn lemma_genesis_counts_deposits(
    deposits: Seq<CheckedDeposit>,
    genesis_time: Timestamp,
    latest_eth1_data: Eth1Data,
)
    requires
        deposits.len() <= u64::MAX,
        BeaconStateView::genesis_result(deposits, genesis_time, latest_eth1_data) is Ok,
    ensures
        BeaconStateView::genesis(deposits, genesis_time, latest_eth1_data).wf(),
        BeaconStateView::genesis(deposits, genesis_time, latest_eth1_data).slot == GENESIS_SLOT,
        BeaconStateView::genesis(deposits, genesis_time, latest_eth1_data).deposit_index
            == deposits.len(),
{
    let base = BeaconStateView::genesis_base(genesis_time, latest_eth1_data);
    lemma_push_deposits_counts(base, deposits, deposits.len());
    let deposited = base.push_deposits(deposits, deposits.len());
    lemma_activate_genesis_validators(deposited, deposited.validator_registry.len());
}

/// Activating validators changes neither the balances nor the length of
/// the registry.
pub proof fn lemma_activate_genesis_validators(state: BeaconStateView, count: nat)
    requires
        count <= state.validator_registry.len(),
    ensures
        state.activate_genesis_validators(count).validator_balances == state.validator_balances,
        state.activate_genesis_validators(count).validator_registry.len()
            == state.validator_registry.len(),
        state.activate_genesis_validators(count).wf() == state.wf(),
        state.activate_genesis_validators(count).slot == state.slot,
        state.activate_genesis_validators(count).deposit_index == state.deposit_index,
    decreases count,
{
    if count > 0 {
        lemma_activate_genesis_validators(state, (count - 1) as nat);
    }
}

/// A vector of `count` copies of `value`.
fn filled_hashes(value: H256, count: usize) -> (v: Vec<H256>)
    ensures
        v@ == Seq::new(count as nat, |i: int| value),
{
    let mut v: Vec<H256> = Vec::new();
    let mut i: usize = 0;
    while i < count
        invariant
            i <= count,
            v@.len() == i,
            forall|j: int| 0 <= j < i ==> v@[j] == value,
        decreases count - i,
    {
        v.push(value);
        i += 1;
    }
    assert(v@ =~= Seq::new(count as nat, |i: int| value));
    v
}

/// A vector of `count` zero balances.
fn filled_balances(count: usize) -> (v: Vec<u64>)
    ensures
        v@ == Seq::new(count as nat, |i: int| 0u64),
{
    let mut v: Vec<u64> = Vec::new();
    let mut i: usize = 0;
    while i < count
        invariant
            i <= count,
            v@.len() == i,
            forall|j: int| 0 <= j < i ==> v@[j] == 0u64,
        decreases count - i,
    {
        v.push(0u64);
        i += 1;
    }
    assert(v@ =~= Seq::new(count as nat, |i: int| 0u64));
    v
}

/// A vector of `count` crosslinks of epoch zero with the zero root.
fn filled_crosslinks(zero: H256, count: usize) -> (v: Vec<Crosslink>)
    ensures
        v@ == Seq::new(count as nat, |i: int| Crosslink { epoch: 0, crosslink_data_root: zero }),
{
    let mut v: Vec<Crosslink> = Vec::new();
    let mut i: usize = 0;
    while i < count
        invariant
            i <= count,
            v@.len() == i,
            forall|j: int|
                0 <= j < i ==> v@[j] == (Crosslink { epoch: 0, crosslink_data_root: zero }),
        decreases count - i,
    {
        v.push(Crosslink { epoch: 0, crosslink_data_root: zero });
        i += 1;
    }
    assert(v@ =~= Seq::new(
        count as nat,
        |i: int| Crosslink { epoch: 0, crosslink_data_root: zero },
    ));
    v
}

impl BeaconState {
    /// The state at the genesis slot before any deposit.
    fn genesis_base(genesis_time: Timestamp, latest_eth1_data: Eth1Data) -> (state: BeaconState)
        ensures
            state@ == BeaconStateView::genesis_base(genesis_time, latest_eth1_data),
            state.wf(),
    {
        let zero = H256::zero();
        proof {
            lemma_h256_of_view(zero);
        }
        let validator_registry: Vec<Validator> = Vec::new();
        let validator_balances: Vec<u64> = Vec::new();
        let previous_epoch_attestations: Vec<PendingAttestation> = Vec::new();
        let current_epoch_attestations: Vec<PendingAttestation> = Vec::new();
        let historical_roots: Vec<H256> = Vec::new();
        let eth1_data_votes: Vec<Eth1DataVote> = Vec::new();
        let state = BeaconState {
            slot: GENESIS_SLOT,
            genesis_time,
            fork: Fork::default(),
            validator_registry,
            validator_balances,
            validator_registry_update_epoch: GENESIS_EPOCH,
            latest_randao_mixes: filled_hashes(zero, LATEST_RANDAO_MIXES_LENGTH),
            previous_shuffling_start_shard: GENESIS_START_SHARD,
            current_shuffling_start_shard: GENESIS_START_SHARD,
            previous_shuffling_epoch: GENESIS_EPOCH,
            current_shuffling_epoch: GENESIS_EPOCH,
            previous_shuffling_seed: zero,
            current_shuffling_seed: zero,
            previous_epoch_attestations,
            current_epoch_attestations,
            previous_justified_epoch: GENESIS_EPOCH,
            justified_epoch: GENESIS_EPOCH,
            justification_bitfield: 0,
            finalized_epoch: GENESIS_EPOCH,
            latest_crosslinks: filled_crosslinks(zero, SHARD_COUNT),
            latest_block_roots: filled_hashes(zero, SLOTS_PER_HISTORICAL_ROOT),
            latest_state_roots: filled_hashes(zero, SLOTS_PER_HISTORICAL_ROOT),
            latest_active_index_roots: filled_hashes(zero, LATEST_ACTIVE_INDEX_ROOTS_LENGTH),
            latest_slashed_balances: filled_balances(LATEST_SLASHED_EXIT_LENGTH),
            latest_block_header: BeaconBlockHeader::genesis(),
            historical_roots,
            latest_eth1_data,
            eth1_data_votes,
            deposit_index: 0,
        };
        assert(state@.validator_registry =~= Seq::empty());
        assert(state@.validator_balances =~= Seq::empty());
        assert(state@.previous_epoch_attestations =~= Seq::empty());
        assert(state@.current_epoch_attestations =~= Seq::empty());
        assert(state@.historical_roots =~= Seq::empty());
        assert(state@.eth1_data_votes =~= Seq::empty());
        state
    }

    /// The genesis state of a chain that starts with `deposits`.
    ///
    /// The deposits are applied in order to the empty state of the genesis
    /// slot, and the first one that is refused ends the attempt with its
    /// error. Every validator whose effective balance is then a full
    /// deposit is active from the genesis epoch. Every place of the ring of
    /// active-index roots holds the root of the list of those validators,
    /// and the current shuffling seed is the seed of the genesis epoch.
    pub fn genesis(
        deposits: Vec<CheckedDeposit>,
        genesis_time: Timestamp,
        latest_eth1_data: Eth1Data,
    ) -> (r: Result<BeaconState, Error>)
        requires
            spec_total_amount(deposits@, deposits@.len()) <= u64::MAX,
        ensures
            match BeaconStateView::genesis_result(deposits@, genesis_time, latest_eth1_data) {
                Ok(_) => r matches Ok(state) && state.wf() && state@ == BeaconStateView::genesis(
                    deposits@,
                    genesis_time,
                    latest_eth1_data,
                ),
                Err(e) => r matches Err(refused) && refused == e,
            },
    {
        let mut state = BeaconState::genesis_base(genesis_time, latest_eth1_data);
        let ghost base = state@;

        let mut i: usize = 0;
        while i < deposits.len()
            invariant
                i <= deposits@.len(),
                spec_total_amount(deposits@, deposits@.len()) <= u64::MAX,
                state.wf(),
                base == BeaconStateView::genesis_base(genesis_time, latest_eth1_data),
                state@ == base.push_deposits(deposits@, i as nat),
                base.push_deposits_result(deposits@, i as nat) is Ok,
                state@.deposit_index <= i,
                state@.slot == GENESIS_SLOT,
                forall|j: int|
                    0 <= j < state@.validator_balances.len() ==> #[trigger] state@.validator_balances[j]
                        <= spec_total_amount(deposits@, i as nat),
            decreases deposits@.len() - i,
        {
            proof {
                lemma_total_amount_grows(deposits@, (i + 1) as nat, deposits@.len());
            }
            let ghost before = state@;
            proof {
                lemma_push_deposit_bounds(
                    before,
                    deposits@[i as int],
                    spec_total_amount(deposits@, i as nat),
                );
            }
            match state.push_deposit(&deposits[i]) {
                Ok(_) => {},
                Err(e) => {
                    proof {
                        assert(base.push_deposits_result(deposits@, (i + 1) as nat) == Err::<
                            (),
                            Error,
                        >(e));
                        lemma_push_deposits_error_stands(
                            base,
                            deposits@,
                            (i + 1) as nat,
                            deposits@.len(),
                        );
                    }
                    return Err(e);
                },
            }
            i += 1;
        }

        let count = state.validator_registry.len();
        let ghost deposited = state@;
        let mut validator_index: usize = 0;
        while validator_index < count
            invariant
                validator_index <= count,
                count == deposited.validator_registry.len(),
                deposited.wf(),
                deposited.slot == GENESIS_SLOT,
                state@ == deposited.activate_genesis_validators(validator_index as nat),
            decreases count - validator_index,
        {
            proof {
                lemma_activate_genesis_validators(deposited, validator_index as nat);
            }
            if state.effective_balance(validator_index as u64) >= MAX_DEPOSIT_AMOUNT {
                state.activate_validator(validator_index as u64, true);
            }
            validator_index += 1;
        }
        proof {
            lemma_activate_genesis_validators(deposited, count as nat);
        }
        let active = state.active_validator_indices(GENESIS_EPOCH);
        let genesis_active_index_root = hash_u64_list(active.as_slice());
        proof {
            lemma_h256_of_view(genesis_active_index_root);
        }
        state.latest_active_index_roots = filled_hashes(
            genesis_active_index_root,
            LATEST_ACTIVE_INDEX_ROOTS_LENGTH,
        );
        // At the genesis slot the rings hold what the seed of the genesis
        // epoch is made of.
        assert(state@.has_seed(GENESIS_EPOCH));
        let seed = match state.seed(GENESIS_EPOCH) {
            Ok(seed) => seed,
            Err(e) => {
                return Err(e);
            },
        };
        proof {
            lemma_h256_of_view(seed);
        }
        state.current_shuffling_seed = seed;
        Ok(state)
    }
}

/// A deposit leaves the slot alone, counts at most one deposit, and raises
/// no balance above the amount it brings on top of what bounded the
/// balances before.
pub proof fn lemma_push_deposit_bounds(state: BeaconStateView, checked: CheckedDeposit, bound: nat)
    requires
        state.wf(),
        forall|j: int|
            0 <= j < state.validator_balances.len() ==> #[trigger] state.validator_balances[j]
                <= bound,
        bound + checked.deposit.deposit_data.amount <= u64::MAX,
        state.deposit_index < u64::MAX,
    ensures
        state.deposit_fits(checked.deposit.deposit_data.amount),
        state.push_deposit(checked).slot == state.slot,
        state.push_deposit(checked).deposit_index <= state.deposit_index + 1,
        forall|j: int|
            0 <= j < state.push_deposit(checked).validator_balances.len()
                ==> #[trigger] state.push_deposit(checked).validator_balances[j] <= bound
                + checked.deposit.deposit_data.amount,
{
    let after = state.push_deposit(checked);
    let input = checked.deposit.deposit_data.deposit_input;
    lemma_find_validator_depends_on_registry(
        state.count_deposit(),
        state,
        input.pubkey,
        0,
    );
    lemma_find_validator_in_range(state, input.pubkey, 0);
    assert forall|j: int| 0 <= j < after.validator_balances.len() implies #[trigger] after.validator_balances[j]
        <= bound + checked.deposit.deposit_data.amount by {
        if j < state.validator_balances.len() {
            assert(state.validator_balances[j] <= bound);
        }
    }
}

/// The sum of the amounts of more deposits is no smaller.
pub proof fn lemma_total_amount_grows(deposits: Seq<CheckedDeposit>, fewer: nat, more: nat)
    requires
        fewer <= more,
    ensures
        spec_total_amount(deposits, fewer) <= spec_total_amount(deposits, more),
    decreases more,
{
    if fewer < more {
        lemma_total_amount_grows(deposits, fewer, (more - 1) as nat);
    }
}

} // verus!
