//! The steps at the end of an epoch that stand on their own: finality,
//! ejections, the active-index root, and the rotation of what the epoch
//! collected.

use crate::attestation::PendingAttestation;
use crate::casper::{lemma_finality_is_monotonic, CasperProcess};
use crate::consts::{ACTIVATION_EXIT_DELAY, EJECTION_BALANCE, LATEST_ACTIVE_INDEX_ROOTS_LENGTH};
use crate::hashing::{
    chunk_views, hash_container, hash_each, hash_u64_list, spec_hash_container, spec_hash_each,
    spec_hash_u64_list,
};
use crate::primitives::{lemma_h256_of_view, spec_h256, Epoch, H256};
use crate::state::{BeaconState, BeaconStateView, HistoricalBatch};
use vstd::prelude::*;
use vstd::slice::slice_to_vec;

verus! {

/// The root of a batch of block roots and state roots.
pub open spec fn spec_historical_batch_root(block_roots: Seq<H256>, state_roots: Seq<H256>) -> Seq<
    u8,
> {
    spec_hash_container(
        seq![
            spec_hash_container(spec_hash_each(block_roots)),
            spec_hash_container(spec_hash_each(state_roots)),
        ],
    )
}

impl HistoricalBatch {
    /// The root of the batch.
    pub fn hash(&self) -> (root: H256)
        ensures
            root@ == spec_historical_batch_root(self.block_roots@, self.state_roots@),
    {
        let block_roots = hash_each(self.block_roots.as_slice());
        let state_roots = hash_each(self.state_roots.as_slice());
        let mut parts: Vec<H256> = Vec::new();
        parts.push(hash_container(&block_roots));
        parts.push(hash_container(&state_roots));
        assert(chunk_views(parts@) =~= seq![
            spec_hash_container(spec_hash_each(self.block_roots@)),
            spec_hash_container(spec_hash_each(self.state_roots@)),
        ]);
        hash_container(&parts)
    }
}

impl BeaconStateView {
    /// The state after the root of the recent block roots and state roots
    /// has joined the historical roots.
    pub open spec fn accumulate_historical_root(&self) -> BeaconStateView {
        BeaconStateView {
            historical_roots: self.historical_roots.push(
                spec_h256(
                    spec_historical_batch_root(self.latest_block_roots, self.latest_state_roots),
                ),
            ),
            ..*self
        }
    }

    /// The finality fields of the state as the state of a Casper engine at
    /// the current epoch.
    pub open spec fn finality(&self) -> CasperProcess {
        CasperProcess {
            justification_bitfield: self.justification_bitfield,
            epoch: self.current_epoch(),
            justified_epoch: self.justified_epoch,
            finalized_epoch: self.finalized_epoch,
            previous_justified_epoch: self.previous_justified_epoch,
        }
    }

    /// The state after the Casper engine has closed the current epoch,
    /// given whether the previous and the current epoch have the votes of
    /// a supermajority.
    pub open spec fn update_finality(
        &self,
        previous_justified: bool,
        current_justified: bool,
    ) -> BeaconStateView {
        let next = self.finality().spec_advance(previous_justified, current_justified);
        BeaconStateView {
            justification_bitfield: next.justification_bitfield,
            previous_justified_epoch: next.previous_justified_epoch,
            justified_epoch: next.justified_epoch,
            finalized_epoch: next.finalized_epoch,
            ..*self
        }
    }

    /// The state after those of the first `count` validators that are
    /// active in the current epoch with a balance below the ejection
    /// balance have been made to ask for their exit.
    pub open spec fn process_ejections_below(&self, count: nat) -> BeaconStateView
        decreases count,
    {
        if count == 0 {
            *self
        } else {
            let before = self.process_ejections_below((count - 1) as nat);
            if before.validator_registry[count - 1].spec_is_active(self.current_epoch())
                && before.validator_balances[count - 1] < EJECTION_BALANCE {
                before.initiate_validator_exit((count - 1) as u64)
            } else {
                before
            }
        }
    }

    /// The state after every active validator whose balance is below the
    /// ejection balance has been made to ask for its exit.
    pub open spec fn process_ejections(&self) -> BeaconStateView {
        self.process_ejections_below(self.validator_registry.len())
    }

    /// The epoch whose active validators the epoch that ends commits to:
    /// the next epoch but for the delay of activations and exits.
    pub open spec fn committed_epoch(&self) -> Epoch {
        (self.current_epoch() + 1 + ACTIVATION_EXIT_DELAY) as u64
    }

    /// The state after the root of the validators that are active in the
    /// committed epoch stands at that epoch's place in the ring of
    /// active-index roots.
    pub open spec fn update_active_index_root(&self) -> BeaconStateView {
        BeaconStateView {
            latest_active_index_roots: self.latest_active_index_roots.update(
                (self.committed_epoch() % LATEST_ACTIVE_INDEX_ROOTS_LENGTH as u64) as int,
                spec_h256(
                    spec_hash_u64_list(self.active_validator_indices(self.committed_epoch())),
                ),
            ),
            ..*self
        }
    }

    /// The state after the current shuffling has become the previous one.
    pub open spec fn rotate_shuffling(&self) -> BeaconStateView {
        BeaconStateView {
            previous_shuffling_epoch: self.current_shuffling_epoch,
            previous_shuffling_start_shard: self.current_shuffling_start_shard,
            previous_shuffling_seed: self.current_shuffling_seed,
            ..*self
        }
    }

    /// The state after the attestations of the previous epoch are dropped
    /// and those of the current epoch have taken their place.
    pub open spec fn rotate_attestations(&self) -> BeaconStateView {
        BeaconStateView {
            previous_epoch_attestations: self.current_epoch_attestations,
            current_epoch_attestations: Seq::empty(),
            ..*self
        }
    }
}

/// Ejections change neither the balances nor the length of the registry,
/// nor whether a validator is active.
pub proof fn lemma_process_ejections_below(state: BeaconStateView, count: nat)
    requires
        count <= state.validator_registry.len(),
    ensures
        state.process_ejections_below(count).validator_balances == state.validator_balances,
        state.process_ejections_below(count).validator_registry.len()
            == state.validator_registry.len(),
        state.process_ejections_below(count).slot == state.slot,
        state.process_ejections_below(count).wf() == state.wf(),
        forall|i: int|
            count <= i < state.validator_registry.len() ==> #[trigger] state.process_ejections_below(
                count,
            ).validator_registry[i] == state.validator_registry[i],
    decreases count,
{
    if count > 0 {
        lemma_process_ejections_below(state, (count - 1) as nat);
    }
}

/// For a state whose finality epochs stand in order, closing an epoch
/// never moves the finalized epoch back, and leaves the justified epoch no
/// earlier than the epoch that was the previous justified one; but for the
/// one case in which the previous epoch alone is justified while the
/// previous justified epoch is the current epoch itself.
pub proof fn lemma_update_finality_is_monotonic(
    state: BeaconStateView,
    previous_justified: bool,
    current_justified: bool,
)
    requires
        state.finality().spec_is_ordered(),
        !(previous_justified && !current_justified && state.previous_justified_epoch
            == state.current_epoch() && state.current_epoch() > 0),
    ensures
        state.update_finality(previous_justified, current_justified).finalized_epoch
            >= state.finalized_epoch,
        state.update_finality(previous_justified, current_justified).justified_epoch
            >= state.previous_justified_epoch,
        state.update_finality(previous_justified, current_justified).validator_registry
            == state.validator_registry,
        state.update_finality(previous_justified, current_justified).slot == state.slot,
{
    lemma_finality_is_monotonic(
        state.finality(),
        previous_justified,
        current_justified,
    );
}

impl BeaconState {
    /// The recent block roots and state roots as a batch for the archive.
    pub fn historical_batch(&self) -> (batch: HistoricalBatch)
        ensures
            batch.block_roots@ == self@.latest_block_roots,
            batch.state_roots@ == self@.latest_state_roots,
            self.wf() ==> batch.wf(),
    {
        HistoricalBatch {
            block_roots: slice_to_vec(self.latest_block_roots.as_slice()),
            state_roots: slice_to_vec(self.latest_state_roots.as_slice()),
        }
    }

    /// Adds the root of the recent block roots and state roots to the
    /// historical roots.
    pub fn accumulate_historical_root(&mut self)
        ensures
            final(self)@ == old(self)@.accumulate_historical_root(),
    {
        let root = self.historical_batch().hash();
        proof {
            lemma_h256_of_view(root);
        }
        self.historical_roots.push(root);
    }

    /// The finality fields of the state as the state of a Casper engine at
    /// the current epoch.
    pub fn finality(&self) -> (process: CasperProcess)
        ensures
            process == self@.finality(),
    {
        CasperProcess {
            justification_bitfield: self.justification_bitfield,
            epoch: self.current_epoch(),
            justified_epoch: self.justified_epoch,
            finalized_epoch: self.finalized_epoch,
            previous_justified_epoch: self.previous_justified_epoch,
        }
    }

    /// Closes the current epoch for the Casper engine: the justification
    /// bits, the justified epochs and the finalized epoch move on, given
    /// whether the previous and the current epoch have the votes of a
    /// supermajority.
    pub fn update_finality(&mut self, previous_justified: bool, current_justified: bool)
        ensures
            final(self)@ == old(self)@.update_finality(previous_justified, current_justified),
    {
        let next = self.finality().advance(previous_justified, current_justified);
        self.justification_bitfield = next.justification_bitfield;
        self.previous_justified_epoch = next.previous_justified_epoch;
        self.justified_epoch = next.justified_epoch;
        self.finalized_epoch = next.finalized_epoch;
    }

    /// Makes every validator that is active in the current epoch with a
    /// balance below the ejection balance ask for its exit.
    pub fn process_ejections(&mut self)
        requires
            old(self).wf(),
        ensures
            final(self)@ == old(self)@.process_ejections(),
            final(self).wf(),
    {
        let current_epoch = self.current_epoch();
        let count = self.validator_registry.len();
        let mut i: usize = 0;
        while i < count
            invariant
                i <= count,
                count == old(self)@.validator_registry.len(),
                old(self).wf(),
                current_epoch == old(self)@.current_epoch(),
                self@ == old(self)@.process_ejections_below(i as nat),
            decreases count - i,
        {
            proof {
                lemma_process_ejections_below(old(self)@, i as nat);
            }
            if self.validator_registry[i].is_active(current_epoch) && self.validator_balances[i]
                < EJECTION_BALANCE {
                self.initiate_validator_exit(i as u64);
            }
            i += 1;
        }
        proof {
            lemma_process_ejections_below(old(self)@, count as nat);
        }
    }

    /// Commits to the validators that are active once the delay of
    /// activations and exits has passed: their root goes to that epoch's
    /// place in the ring of active-index roots.
    pub fn update_active_index_root(&mut self)
        requires
            old(self).wf(),
        ensures
            final(self)@ == old(self)@.update_active_index_root(),
            final(self).wf(),
    {
        let epoch = self.current_epoch() + 1 + ACTIVATION_EXIT_DELAY;
        let active = self.active_validator_indices(epoch);
        let root = hash_u64_list(active.as_slice());
        proof {
            lemma_h256_of_view(root);
        }
        self.latest_active_index_roots[(epoch % LATEST_ACTIVE_INDEX_ROOTS_LENGTH as u64) as usize] =
            root;
    }

    /// Makes the current shuffling the previous one.
    pub fn rotate_shuffling(&mut self)
        ensures
            final(self)@ == old(self)@.rotate_shuffling(),
    {
        self.previous_shuffling_epoch = self.current_shuffling_epoch;
        self.previous_shuffling_start_shard = self.current_shuffling_start_shard;
        self.previous_shuffling_seed = self.current_shuffling_seed;
    }

    /// Drops the attestations of the previous epoch and puts those of the
    /// current epoch in their place.
    pub fn rotate_attestations(&mut self)
        ensures
            final(self)@ == old(self)@.rotate_attestations(),
    {
        let mut moved: Vec<PendingAttestation> = Vec::new();
        core::mem::swap(&mut moved, &mut self.current_epoch_attestations);
        self.previous_epoch_attestations = moved;
        assert(self@.current_epoch_attestations =~= Seq::empty());
    }
}

} // verus!
