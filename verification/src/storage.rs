//! The values that the runtime keeps in storage, and the updates it makes
//! to them.

use crate::checked::{Balance, BlockHash};
use crate::primitives::{Epoch, Slot, ValidatorId, H256};
use std::collections::HashMap;
use vstd::prelude::*;

verus! {

broadcast use vstd::std_specs::hash::group_hash_axioms;

/// Number of a block.
pub type BlockNumber = u64;

/// Number of slots in a cycle of the runtime.
pub const CYCLE_LENGTH: Slot = 4;

/// Divides the base reward.
pub const BASE_REWARD_QUOTIENT: Balance = 32;

/// Divides the penalty for inactivity.
pub const INACTIVITY_PENALTY_QUOTIENT: Balance = 16777216;

/// Divides the reward of the includer.
pub const INCLUDER_REWARD_QUOTIENT: Balance = 8;

/// Slots that an attestation waits before inclusion.
pub const MIN_ATTESTATION_INCLUSION_DELAY: Slot = 0;

/// Seconds in a slot.
pub const SLOT_DURATION: u64 = 12;

/// Position of the slot extrinsic in a block.
pub const SLOT_INHERENT_EXTRINSIC_INDEX: u32 = 0;

/// Position of the randao extrinsic in a block.
pub const RANDAO_INHERENT_EXTRINSIC_INDEX: u32 = 1;

/// Position of the first attestation extrinsic in a block.
pub const ATTESTATION_EXTRINSIC_START_INDEX: u32 = 2;

/// The epoch of the runtime that contains `slot`.
pub open spec fn spec_slot_to_epoch(slot: Slot) -> Epoch {
    slot / CYCLE_LENGTH
}

/// The epoch of the runtime that contains `slot`.
pub fn slot_to_epoch(slot: Slot) -> (epoch: Epoch)
    ensures
        epoch == spec_slot_to_epoch(slot),
{
    slot / CYCLE_LENGTH
}

/// A validator as the runtime stores it.
#[derive(Clone, Copy, Debug)]
pub struct ValidatorRecord {
    /// First epoch in which the validator is active.
    pub valid_from: Epoch,
    /// Last epoch in which the validator is active.
    pub valid_to: Epoch,
    /// The validator's balance.
    pub balance: Balance,
    /// The validator's key.
    pub validator_id: ValidatorId,
    /// The validator's commitment to its randao reveals.
    pub randao_commitment: H256,
    /// Slot of the validator's last reveal.
    pub randao_last_reveal_slot: Slot,
}

/// The stored list of extrinsics of the block.
#[derive(Clone, Copy, Debug)]
pub struct UncheckedExtrinsics;

impl UncheckedExtrinsics {
    /// The storage key under which the list stands: `sys:extrinsics`.
    pub fn prefix() -> (key: Vec<u8>)
        ensures
            key@ == seq![
                115u8,
                121u8,
                115u8,
                58u8,
                101u8,
                120u8,
                116u8,
                114u8,
                105u8,
                110u8,
                115u8,
                105u8,
                99u8,
                115u8,
            ],
    {
        vec![115u8, 121u8, 115u8, 58u8, 101u8, 120u8, 116u8, 114u8, 105u8, 110u8, 115u8, 105u8, 99u8, 115u8]
    }
}

/// The stored list of attestations that wait to be counted.
#[derive(Clone, Copy, Debug)]
pub struct PendingAttestations;

impl PendingAttestations {
    /// The storage key under which the list stands:
    /// `sys:pendingattestations`.
    pub fn prefix() -> (key: Vec<u8>)
        ensures
            key@ == seq![
                115u8,
                121u8,
                115u8,
                58u8,
                112u8,
                101u8,
                110u8,
                100u8,
                105u8,
                110u8,
                103u8,
                97u8,
                116u8,
                116u8,
                101u8,
                115u8,
                116u8,
                97u8,
                116u8,
                105u8,
                111u8,
                110u8,
                115u8,
            ],
    {
        vec![
            115u8,
            121u8,
            115u8,
            58u8,
            112u8,
            101u8,
            110u8,
            100u8,
            105u8,
            110u8,
            103u8,
            97u8,
            116u8,
            116u8,
            101u8,
            115u8,
            116u8,
            97u8,
            116u8,
            105u8,
            111u8,
            110u8,
            115u8,
        ]
    }
}

/// The stored list of validators.
#[derive(Clone, Copy, Debug)]
pub struct Validators;

impl Validators {
    /// The storage key under which the list stands: `sys:validators`.
    pub fn prefix() -> (key: Vec<u8>)
        ensures
            key@ == seq![
                115u8,
                121u8,
                115u8,
                58u8,
                118u8,
                97u8,
                108u8,
                105u8,
                100u8,
                97u8,
                116u8,
                111u8,
                114u8,
                115u8,
            ],
    {
        vec![115u8, 121u8, 115u8, 58u8, 118u8, 97u8, 108u8, 105u8, 100u8, 97u8, 116u8, 111u8, 114u8, 115u8]
    }
}

/// The stored hashes after the parent's hash is noted for every slot from
/// `last_slot` up to, and not including, `slot`.
pub open spec fn spec_note_parent_hash(
    hashes: Map<Slot, BlockHash>,
    last_slot: Slot,
    slot: Slot,
    hash: BlockHash,
) -> Map<Slot, BlockHash> {
    Map::new(
        |s: Slot| hashes.contains_key(s) || last_slot <= s < slot,
        |s: Slot|
            if last_slot <= s < slot {
                hash
            } else {
                hashes[s]
            },
    )
}

/// Notes the hash of the parent block for every slot that has passed since
/// the last block: from `last_slot` up to, and not including, `slot`.
pub fn note_parent_hash(
    latest_block_hashes: &mut HashMap<Slot, BlockHash>,
    last_slot: Slot,
    slot: Slot,
    hash: BlockHash,
)
    ensures
        final(latest_block_hashes)@ == spec_note_parent_hash(
            old(latest_block_hashes)@,
            last_slot,
            slot,
            hash,
        ),
{
    let mut s: Slot = last_slot;
    if last_slot >= slot {
        assert(latest_block_hashes@ =~= spec_note_parent_hash(
            latest_block_hashes@,
            last_slot,
            slot,
            hash,
        ));
        return ;
    }
    while s < slot
        invariant
            last_slot <= s <= slot,
            latest_block_hashes@ == spec_note_parent_hash(
                old(latest_block_hashes)@,
                last_slot,
                s,
                hash,
            ),
        decreases slot - s,
    {
        latest_block_hashes.insert(s, hash);
        assert(latest_block_hashes@ =~= spec_note_parent_hash(
            old(latest_block_hashes)@,
            last_slot,
            (s + 1) as u64,
            hash,
        ));
        s += 1;
    }
}

/// The position of the first record at or after `from` that holds the key
/// `id`.
pub open spec fn spec_find_record(
    validators: Seq<Option<ValidatorRecord>>,
    id: ValidatorId,
    from: int,
) -> Option<int>
    decreases validators.len() - from,
{
    if from < 0 || from >= validators.len() {
        None
    } else if validators[from] matches Some(record) && record.validator_id@ == id@ {
        Some(from)
    } else {
        spec_find_record(validators, id, from + 1)
    }
}

/// The position of the first record that holds the key `validator_id`.
pub fn find_record(validators: &Vec<Option<ValidatorRecord>>, validator_id: &ValidatorId) -> (r:
    Option<usize>)
    ensures
        match spec_find_record(validators@, *validator_id, 0) {
            Some(i) => r == Some(i as usize) && 0 <= i < validators@.len() && i <= usize::MAX
                && validators@[i] is Some,
            None => r is None,
        },
{
    let mut i: usize = 0;
    while i < validators.len()
        invariant
            i <= validators@.len(),
            spec_find_record(validators@, *validator_id, i as int) == spec_find_record(
                validators@,
                *validator_id,
                0,
            ),
        decreases validators@.len() - i,
    {
        match &validators[i] {
            Some(record) => {
                if record.validator_id == *validator_id {
                    return Some(i);
                }
            },
            None => {},
        }
        i += 1;
    }
    None
}

/// The records after `change` is applied to the first record that holds
/// the key `id`, if there is one.
pub open spec fn spec_update_record(
    validators: Seq<Option<ValidatorRecord>>,
    id: ValidatorId,
    change: spec_fn(ValidatorRecord) -> ValidatorRecord,
) -> Seq<Option<ValidatorRecord>> {
    match spec_find_record(validators, id, 0) {
        Some(i) => validators.update(i, Some(change(validators[i]->0))),
        None => validators,
    }
}

/// The balance of the first record that holds the key `id`, if there is
/// one.
pub open spec fn spec_balance_of(validators: Seq<Option<ValidatorRecord>>, id: ValidatorId) -> Option<
    Balance,
> {
    match spec_find_record(validators, id, 0) {
        Some(i) => Some(validators[i]->0.balance),
        None => None,
    }
}

/// Adds `balance` to the balance of the validator with the key
/// `validator_id`. Nothing changes where no validator has that key.
pub fn add_balance(
    validators: &mut Vec<Option<ValidatorRecord>>,
    validator_id: &ValidatorId,
    balance: Balance,
)
    requires
        spec_balance_of(old(validators)@, *validator_id) matches Some(held) ==> held + balance
            <= u64::MAX,
    ensures
        final(validators)@ == spec_update_record(
            old(validators)@,
            *validator_id,
            |record: ValidatorRecord|
                ValidatorRecord { balance: (record.balance + balance) as u64, ..record },
        ),
{
    match find_record(validators, validator_id) {
        Some(index) => {
            match validators[index] {
                Some(mut record) => {
                    record.balance += balance;
                    validators[index] = Some(record);
                },
                None => {},
            }
        },
        None => {},
    }
}

/// Takes `balance` from the balance of the validator with the key
/// `validator_id`. Nothing changes where no validator has that key.
pub fn sub_balance(
    validators: &mut Vec<Option<ValidatorRecord>>,
    validator_id: &ValidatorId,
    balance: Balance,
)
    requires
        spec_balance_of(old(validators)@, *validator_id) matches Some(held) ==> balance <= held,
    ensures
        final(validators)@ == spec_update_record(
            old(validators)@,
            *validator_id,
            |record: ValidatorRecord|
                ValidatorRecord { balance: (record.balance - balance) as u64, ..record },
        ),
{
    match find_record(validators, validator_id) {
        Some(index) => {
            match validators[index] {
                Some(mut record) => {
                    record.balance -= balance;
                    validators[index] = Some(record);
                },
                None => {},
            }
        },
        None => {},
    }
}

/// Takes `balance` from the balance of the validator with the key
/// `validator_id` and ends its time as a validator with the epoch of block
/// `number`. Nothing changes where no validator has that key.
pub fn penalize_validator(
    validators: &mut Vec<Option<ValidatorRecord>>,
    validator_id: &ValidatorId,
    balance: Balance,
    number: BlockNumber,
)
    requires
        spec_balance_of(old(validators)@, *validator_id) matches Some(held) ==> balance <= held,
    ensures
        final(validators)@ == spec_update_record(
            old(validators)@,
            *validator_id,
            |record: ValidatorRecord|
                ValidatorRecord {
                    balance: (record.balance - balance) as u64,
                    valid_to: spec_slot_to_epoch(number),
                    ..record
                },
        ),
{
    match find_record(validators, validator_id) {
        Some(index) => {
            match validators[index] {
                Some(mut record) => {
                    record.balance -= balance;
                    record.valid_to = slot_to_epoch(number);
                    validators[index] = Some(record);
                },
                None => {},
            }
        },
        None => {},
    }
}

} // verus!
