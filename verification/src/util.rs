//! Arithmetic on slots, epochs and committee counts.

use crate::consts::{SHARD_COUNT, SLOTS_PER_EPOCH, TARGET_COMMITTEE_SIZE};
use crate::primitives::{Epoch, Slot};
use vstd::prelude::*;

verus! {

/// The epoch that contains `slot`.
pub open spec fn spec_slot_to_epoch(slot: Slot) -> Epoch {
    slot / SLOTS_PER_EPOCH
}

/// The epoch that contains `slot`.
pub fn slot_to_epoch(slot: Slot) -> (epoch: Epoch)
    ensures
        epoch == spec_slot_to_epoch(slot),
{
    slot / SLOTS_PER_EPOCH
}

/// The first slot of `epoch`, as an unbounded integer.
pub open spec fn spec_epoch_start_slot(epoch: Epoch) -> int {
    epoch * SLOTS_PER_EPOCH
}

/// The first slot of `epoch`.
pub fn epoch_start_slot(epoch: Epoch) -> (slot: Slot)
    requires
        spec_epoch_start_slot(epoch) <= u64::MAX,
    ensures
        slot == spec_epoch_start_slot(epoch),
{
    epoch * SLOTS_PER_EPOCH
}

/// A slot lies before the start of `epoch` exactly when its own epoch does.
pub proof fn lemma_slot_before_epoch_start(slot: Slot, epoch: Epoch)
    ensures
        slot < spec_epoch_start_slot(epoch) <==> spec_slot_to_epoch(slot) < epoch,
{
}

/// Whether `value` is 1, 2, 4, 8, and so on.
pub open spec fn spec_is_power_of_two(value: nat) -> bool
    decreases value,
{
    value == 1 || (value > 1 && value % 2 == 0 && spec_is_power_of_two(value / 2))
}

/// Whether `value` is a power of two.
pub fn is_power_of_two(value: u64) -> (r: bool)
    ensures
        r == spec_is_power_of_two(value as nat),
{
    if value == 0 {
        return false;
    }
    let mut rest: u64 = value;
    while rest % 2 == 0
        invariant
            rest > 0,
            spec_is_power_of_two(rest as nat) == spec_is_power_of_two(value as nat),
        decreases rest,
    {
        rest = rest / 2;
    }
    rest == 1
}

/// Number of committees in an epoch with `active_validator_count` active
/// validators: one per slot at least, and at most one per shard.
pub open spec fn spec_epoch_committee_count(active_validator_count: nat) -> nat {
    let per_slot = active_validator_count / (SLOTS_PER_EPOCH as nat) / (
    TARGET_COMMITTEE_SIZE as nat);
    let capped = if per_slot > SHARD_COUNT as nat / SLOTS_PER_EPOCH as nat {
        SHARD_COUNT as nat / SLOTS_PER_EPOCH as nat
    } else {
        per_slot
    };
    let at_least_one = if capped < 1 {
        1
    } else {
        capped
    };
    at_least_one * SLOTS_PER_EPOCH as nat
}

/// An epoch has between one and sixteen committees per slot, and the same
/// number at every slot.
pub proof fn lemma_epoch_committee_count(active_validator_count: nat)
    ensures
        1 <= spec_epoch_committee_count(active_validator_count) / SLOTS_PER_EPOCH as nat <= 16,
        spec_epoch_committee_count(active_validator_count) == (spec_epoch_committee_count(
            active_validator_count,
        ) / SLOTS_PER_EPOCH as nat) * SLOTS_PER_EPOCH as nat,
{
    let per_slot = active_validator_count / (SLOTS_PER_EPOCH as nat) / (
    TARGET_COMMITTEE_SIZE as nat);
    let capped = if per_slot > 16 {
        16
    } else {
        per_slot
    };
    let at_least_one: nat = if capped < 1 {
        1
    } else {
        capped
    };
    assert(spec_epoch_committee_count(active_validator_count) == at_least_one * 64);
    assert((at_least_one * 64) / 64 == at_least_one) by (nonlinear_arith);
}

/// Number of committees in an epoch with `active_validator_count` active
/// validators.
pub fn epoch_committee_count(active_validator_count: usize) -> (count: usize)
    ensures
        count == spec_epoch_committee_count(active_validator_count as nat),
        SLOTS_PER_EPOCH <= count <= SHARD_COUNT,
        count % (SLOTS_PER_EPOCH as usize) == 0,
{
    let per_slot: usize = active_validator_count / 64 / TARGET_COMMITTEE_SIZE;
    let capped: usize = if per_slot > SHARD_COUNT / 64 {
        SHARD_COUNT / 64
    } else {
        per_slot
    };
    let at_least_one: usize = if capped < 1 {
        1
    } else {
        capped
    };
    assert((at_least_one * 64) % 64 == 0) by (nonlinear_arith)
        requires
            at_least_one >= 0,
    ;
    at_least_one * 64
}

} // verus!
