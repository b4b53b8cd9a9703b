//! What the runtime is told at genesis, and the values it stores from it.

use crate::casper::CasperProcess;
use crate::checked::Balance;
use crate::primitives::{Epoch, Slot, Timestamp, ValidatorId, H256};
use crate::storage::{
    slot_to_epoch, spec_slot_to_epoch, ValidatorRecord, CYCLE_LENGTH, SLOT_DURATION,
};
use vstd::prelude::*;

verus! {

/// The configuration of a chain at genesis.
#[derive(Debug)]
pub struct GenesisConfig {
    /// Initial validator set: key, balance and randao commitment of each.
    pub authorities: Vec<(ValidatorId, Balance, H256)>,
    /// Code being set as `:code`.
    pub code: Vec<u8>,
    /// Genesis timestamp.
    pub timestamp: Timestamp,
}

/// The slot of a chain that starts at `timestamp`: the slot of that time,
/// moved back to the start of its cycle.
pub open spec fn spec_genesis_slot(timestamp: Timestamp) -> Slot {
    ((timestamp / SLOT_DURATION / CYCLE_LENGTH) * CYCLE_LENGTH) as u64
}

/// The record of an authority at genesis: valid from epoch zero for ever,
/// with its last reveal at the genesis slot.
pub open spec fn spec_genesis_record(
    authority: (ValidatorId, Balance, H256),
    slot: Slot,
) -> ValidatorRecord {
    ValidatorRecord {
        valid_from: 0,
        valid_to: u64::MAX,
        balance: authority.1,
        validator_id: authority.0,
        randao_commitment: authority.2,
        randao_last_reveal_slot: slot,
    }
}

impl GenesisConfig {
    /// The slot that the chain starts at.
    pub fn genesis_slot(&self) -> (slot: Slot)
        ensures
            slot == spec_genesis_slot(self.timestamp),
    {
        let ret = self.timestamp / SLOT_DURATION;
        (ret / CYCLE_LENGTH) * CYCLE_LENGTH
    }

    /// The number of authorities, as the 32-bit number that storage holds.
    pub fn authority_count(&self) -> (count: u32)
        ensures
            count == self.authorities@.len() % 0x1_0000_0000,
    {
        let wide: u64 = self.authorities.len() as u64;
        (wide % 0x1_0000_0000u64) as u32
    }

    /// The records of the authorities, in their order.
    pub fn validator_records(&self) -> (records: Vec<Option<ValidatorRecord>>)
        ensures
            records@.len() == self.authorities@.len(),
            forall|i: int|
                0 <= i < records@.len() ==> #[trigger] records@[i] == Some(
                    spec_genesis_record(self.authorities@[i], spec_genesis_slot(self.timestamp)),
                ),
    {
        let slot = self.genesis_slot();
        let mut records: Vec<Option<ValidatorRecord>> = Vec::new();
        let mut i: usize = 0;
        while i < self.authorities.len()
            invariant
                i <= self.authorities@.len(),
                slot == spec_genesis_slot(self.timestamp),
                records@.len() == i,
                forall|j: int|
                    0 <= j < i ==> #[trigger] records@[j] == Some(
                        spec_genesis_record(self.authorities@[j], slot),
                    ),
            decreases self.authorities@.len() - i,
        {
            let authority = &self.authorities[i];
            records.push(
                Some(
                    ValidatorRecord {
                        valid_from: 0,
                        valid_to: Epoch::MAX,
                        balance: authority.1,
                        validator_id: authority.0,
                        randao_commitment: authority.2,
                        randao_last_reveal_slot: slot,
                    },
                ),
            );
            i += 1;
        }
        records
    }

    /// The Casper engine at genesis: that of the epoch of the genesis slot.
    pub fn casper_process(&self) -> (process: CasperProcess)
        ensures
            process == CasperProcess::spec_new(
                spec_slot_to_epoch(spec_genesis_slot(self.timestamp)),
            ),
    {
        CasperProcess::new(slot_to_epoch(self.genesis_slot()))
    }
}

} // verus!
