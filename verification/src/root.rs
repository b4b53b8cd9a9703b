//! The root of the beacon state, and the per-slot bookkeeping that records
//! it.

use crate::attestation::{
    attestation_roots, crosslink_roots, spec_attestation_roots, spec_crosslink_roots,
};
use crate::block::BeaconBlockHeader;
use crate::consts::SLOTS_PER_HISTORICAL_ROOT;
use crate::eth1::{spec_vote_roots, vote_roots};
use crate::hashing::{
    chunk_views, hash_container, hash_each, hash_fixed_bytes, hash_list, hash_u64,
    hash_u64_list, hash_u64_vector, spec_hash_container, spec_hash_each, spec_hash_fixed_bytes,
    spec_hash_list, spec_hash_u64, spec_hash_u64_list, spec_hash_u64_vector,
};
use crate::primitives::{lemma_h256_of_view, spec_h256, zero_bytes, H256};
use crate::state::{BeaconState, BeaconStateView, Fork};
use crate::validator::{spec_validator_roots, validator_roots};
use vstd::prelude::*;

verus! {

impl Fork {
    /// The roots of the fields, in declaration order.
    pub open spec fn spec_hash_parts(&self) -> Seq<Seq<u8>> {
        seq![
            spec_hash_u64(self.previous_version),
            spec_hash_u64(self.current_version),
            spec_hash_u64(self.epoch),
        ]
    }

    /// The root of the fork.
    pub open spec fn spec_hash(&self) -> Seq<u8> {
        spec_hash_container(self.spec_hash_parts())
    }

    /// The root of the fork.
    pub fn hash(&self) -> (root: H256)
        ensures
            root@ == self.spec_hash(),
    {
        let mut parts: Vec<H256> = Vec::new();
        parts.push(hash_u64(self.previous_version));
        parts.push(hash_u64(self.current_version));
        parts.push(hash_u64(self.epoch));
        assert(chunk_views(parts@) =~= self.spec_hash_parts());
        hash_container(&parts)
    }
}

impl BeaconStateView {
    /// The roots of the fields, in declaration order.
    pub open spec fn spec_hash_parts(&self) -> Seq<Seq<u8>> {
        seq![
            spec_hash_u64(self.slot),
            spec_hash_u64(self.genesis_time),
            self.fork.spec_hash(),
            spec_hash_list(spec_validator_roots(self.validator_registry)),
            spec_hash_u64_list(self.validator_balances),
            spec_hash_u64(self.validator_registry_update_epoch),
            spec_hash_container(spec_hash_each(self.latest_randao_mixes)),
            spec_hash_u64(self.previous_shuffling_start_shard),
            spec_hash_u64(self.current_shuffling_start_shard),
            spec_hash_u64(self.previous_shuffling_epoch),
            spec_hash_u64(self.current_shuffling_epoch),
            spec_hash_fixed_bytes(self.previous_shuffling_seed@),
            spec_hash_fixed_bytes(self.current_shuffling_seed@),
            spec_hash_list(spec_attestation_roots(self.previous_epoch_attestations)),
            spec_hash_list(spec_attestation_roots(self.current_epoch_attestations)),
            spec_hash_u64(self.previous_justified_epoch),
            spec_hash_u64(self.justified_epoch),
            spec_hash_u64(self.justification_bitfield),
            spec_hash_u64(self.finalized_epoch),
            spec_hash_container(spec_crosslink_roots(self.latest_crosslinks)),
            spec_hash_container(spec_hash_each(self.latest_block_roots)),
            spec_hash_container(spec_hash_each(self.latest_state_roots)),
            spec_hash_container(spec_hash_each(self.latest_active_index_roots)),
            spec_hash_u64_vector(self.latest_slashed_balances),
            self.latest_block_header.spec_hash(),
            spec_hash_list(spec_hash_each(self.historical_roots)),
            self.latest_eth1_data.spec_hash(),
            spec_hash_list(spec_vote_roots(self.eth1_data_votes)),
            spec_hash_u64(self.deposit_index),
        ]
    }

    /// The root of the state.
    pub open spec fn spec_hash(&self) -> Seq<u8> {
        spec_hash_container(self.spec_hash_parts())
    }

    /// The position of the current slot in a ring of `ring_length` roots.
    pub open spec fn root_position(&self, ring_length: nat) -> int {
        self.slot as int % ring_length as int
    }

    /// The latest block header once it is linked to the state it led to:
    /// a state root that is still zero becomes the root of this state.
    pub open spec fn linked_block_header(&self) -> BeaconBlockHeader {
        if self.latest_block_header.state_root@ == zero_bytes(32) {
            BeaconBlockHeader {
                state_root: spec_h256(self.spec_hash()),
                ..self.latest_block_header
            }
        } else {
            self.latest_block_header
        }
    }

    /// The state after the roots of this slot are recorded in rings of
    /// which `ring_length` places are in use: the root of the state as the
    /// slot found it, and the truncated root of the linked block header.
    pub open spec fn update_cache_in(&self, ring_length: nat) -> BeaconStateView {
        BeaconStateView {
            latest_state_roots: self.latest_state_roots.update(
                self.root_position(ring_length),
                spec_h256(self.spec_hash()),
            ),
            latest_block_header: self.linked_block_header(),
            latest_block_roots: self.latest_block_roots.update(
                self.root_position(ring_length),
                spec_h256(self.linked_block_header().spec_truncated_hash()),
            ),
            ..*self
        }
    }

    /// The state after the roots of this slot are recorded.
    pub open spec fn update_cache(&self) -> BeaconStateView {
        self.update_cache_in(SLOTS_PER_HISTORICAL_ROOT as nat)
    }

    /// The state at the start of the next slot.
    pub open spec fn advance_slot(&self) -> BeaconStateView {
        BeaconStateView { slot: (self.slot + 1) as u64, ..self.update_cache() }
    }
}

impl BeaconState {
    /// The root of the state.
    pub fn hash(&self) -> (root: H256)
        ensures
            root@ == self@.spec_hash(),
    {
        let mut parts: Vec<H256> = Vec::new();
        parts.push(hash_u64(self.slot));
        parts.push(hash_u64(self.genesis_time));
        parts.push(self.fork.hash());
        let validators = validator_roots(&self.validator_registry);
        parts.push(hash_list(&validators));
        parts.push(hash_u64_list(self.validator_balances.as_slice()));
        parts.push(hash_u64(self.validator_registry_update_epoch));
        let randao_mixes = hash_each(self.latest_randao_mixes.as_slice());
        parts.push(hash_container(&randao_mixes));
        parts.push(hash_u64(self.previous_shuffling_start_shard));
        parts.push(hash_u64(self.current_shuffling_start_shard));
        parts.push(hash_u64(self.previous_shuffling_epoch));
        parts.push(hash_u64(self.current_shuffling_epoch));
        parts.push(hash_fixed_bytes(self.previous_shuffling_seed.bytes.as_slice()));
        parts.push(hash_fixed_bytes(self.current_shuffling_seed.bytes.as_slice()));
        let previous_attestations = attestation_roots(&self.previous_epoch_attestations);
        parts.push(hash_list(&previous_attestations));
        let current_attestations = attestation_roots(&self.current_epoch_attestations);
        parts.push(hash_list(&current_attestations));
        parts.push(hash_u64(self.previous_justified_epoch));
        parts.push(hash_u64(self.justified_epoch));
        parts.push(hash_u64(self.justification_bitfield));
        parts.push(hash_u64(self.finalized_epoch));
        let crosslinks = crosslink_roots(&self.latest_crosslinks);
        parts.push(hash_container(&crosslinks));
        let block_roots = hash_each(self.latest_block_roots.as_slice());
        parts.push(hash_container(&block_roots));
        let state_roots = hash_each(self.latest_state_roots.as_slice());
        parts.push(hash_container(&state_roots));
        let active_index_roots = hash_each(self.latest_active_index_roots.as_slice());
        parts.push(hash_container(&active_index_roots));
        parts.push(hash_u64_vector(self.latest_slashed_balances.as_slice()));
        parts.push(self.latest_block_header.hash());
        let historical_roots = hash_each(self.historical_roots.as_slice());
        parts.push(hash_list(&historical_roots));
        parts.push(self.latest_eth1_data.hash());
        let votes = vote_roots(&self.eth1_data_votes);
        parts.push(hash_list(&votes));
        parts.push(hash_u64(self.deposit_index));
        assert(chunk_views(parts@) =~= self@.spec_hash_parts());
        hash_container(&parts)
    }

    /// Records the roots of the current slot: the root of the state as the
    /// slot found it, at the slot's place in the ring of state roots, and
    /// the truncated root of the latest block header, at the same place in
    /// the ring of block roots. A header whose state root is still zero is
    /// given the root of the state first.
    pub fn update_cache(&mut self)
        requires
            old(self).wf(),
        ensures
            final(self)@ == old(self)@.update_cache(),
            final(self)@.latest_state_roots[old(self)@.root_position(
                SLOTS_PER_HISTORICAL_ROOT as nat,
            )]@ == old(self)@.spec_hash(),
            final(self)@.latest_block_roots[old(self)@.root_position(
                SLOTS_PER_HISTORICAL_ROOT as nat,
            )]@ == final(self)@.latest_block_header.spec_truncated_hash(),
            final(self).wf(),
    {
        let previous_slot_state_root = self.hash();
        let position = (self.slot % SLOTS_PER_HISTORICAL_ROOT as u64) as usize;
        self.latest_state_roots[position] = previous_slot_state_root;

        if self.latest_block_header.state_root.is_zero() {
            self.latest_block_header.state_root = previous_slot_state_root;
        }
        let block_root = self.latest_block_header.truncated_hash();
        self.latest_block_roots[position] = block_root;
        proof {
            lemma_h256_of_view(previous_slot_state_root);
            lemma_h256_of_view(block_root);
        }
    }

    /// Moves the state to the next slot: records the roots of the current
    /// slot, then counts the slot up.
    pub fn advance_slot(&mut self)
        requires
            old(self).wf(),
            old(self).slot < u64::MAX,
        ensures
            final(self)@ == old(self)@.advance_slot(),
            final(self)@.slot == old(self)@.slot + 1,
            final(self)@.latest_state_roots[old(self)@.root_position(
                SLOTS_PER_HISTORICAL_ROOT as nat,
            )]@ == old(self)@.spec_hash(),
            final(self).wf(),
    {
        self.update_cache();
        self.slot = self.slot + 1;
    }
}

/// A slot advance counts the slot up by one, keeps the registry, the
/// balances, the deposit count and the finality epochs as they are, and
/// leaves the root of the state that the slot found at the slot's place in
/// the ring of state roots.
pub proof fn lemma_advance_slot(state: BeaconStateView)
    requires
        state.wf(),
        state.slot < u64::MAX,
    ensures
        state.advance_slot().wf(),
        state.advance_slot().slot == state.slot + 1,
        state.advance_slot().validator_registry == state.validator_registry,
        state.advance_slot().validator_balances == state.validator_balances,
        state.advance_slot().deposit_index == state.deposit_index,
        state.advance_slot().finalized_epoch == state.finalized_epoch,
        state.advance_slot().justified_epoch == state.justified_epoch,
        state.advance_slot().previous_justified_epoch == state.previous_justified_epoch,
        state.finality().spec_is_ordered() ==> state.advance_slot().finality().spec_is_ordered(),
        state.advance_slot().latest_state_roots[state.slot as int
            % SLOTS_PER_HISTORICAL_ROOT as int] == spec_h256(state.spec_hash()),
{
}

} // verus!
