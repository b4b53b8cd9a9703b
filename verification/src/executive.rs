//! The state transition as an object: a state that is being moved forward
//! under a configuration.

use crate::primitives::lemma_h256_of_view;
use crate::state::BeaconState;
use vstd::prelude::*;

verus! {

/// The parameters of a chain that a transition reads.
#[derive(Clone, Copy, Debug)]
pub struct Config {
    /// Number of places in use in the rings of recent roots.
    pub slots_per_historical_root: usize,
}

impl Config {
    /// Number of places in use in the rings of recent roots.
    pub fn slots_per_historical_root(&self) -> (n: usize)
        ensures
            n == self.slots_per_historical_root,
    {
        self.slots_per_historical_root
    }
}

/// A state under transition.
pub struct Executive<'state, 'config> {
    /// The state that the transition moves forward.
    pub state: &'state mut BeaconState,
    /// The configuration of the chain.
    pub config: &'config Config,
}

impl<'state, 'config> Executive<'state, 'config> {
    /// Records the roots of the current slot in the state, at the slot's
    /// place among the places that the configuration has in use. The
    /// executive keeps the state and the configuration it was made with.
    pub fn update_cache(&mut self)
        requires
            0 < old(self).config.slots_per_historical_root,
            old(self).config.slots_per_historical_root <= old(
                self,
            ).state@.latest_state_roots.len(),
            old(self).config.slots_per_historical_root <= old(
                self,
            ).state@.latest_block_roots.len(),
        ensures
            final(self).state@ == old(self).state@.update_cache_in(
                old(self).config.slots_per_historical_root as nat,
            ),
            final(self).config == old(self).config,
            *final(final(self).state) == *final(old(self).state),
    {
        let previous_slot_state_root = self.state.hash();
        let position = (self.state.slot % self.config.slots_per_historical_root() as u64) as usize;
        self.state.latest_state_roots[position] = previous_slot_state_root;

        if self.state.latest_block_header.state_root.is_zero() {
            self.state.latest_block_header.state_root = previous_slot_state_root;
        }
        let block_root = self.state.latest_block_header.truncated_hash();
        self.state.latest_block_roots[position] = block_root;
        proof {
            lemma_h256_of_view(previous_slot_state_root);
            lemma_h256_of_view(block_root);
        }
    }
}

} // verus!
