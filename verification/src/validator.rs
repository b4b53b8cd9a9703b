//! A validator's record and its lifecycle.

use crate::consts::{FAR_FUTURE_EPOCH, GENESIS_EPOCH};
use crate::hashing::{
    chunk_views, hash_bool, hash_container, hash_fixed_bytes, hash_u64, spec_hash_bool,
    spec_hash_container, spec_hash_fixed_bytes, spec_hash_u64,
};
use crate::primitives::{Epoch, ValidatorId, H256};
use vstd::prelude::*;

verus! {

/// One entry of the validator registry.
#[derive(Clone, Copy, Debug)]
pub struct Validator {
    /// Public key.
    pub pubkey: ValidatorId,
    /// Commitment to the key that may withdraw the balance.
    pub withdrawal_credentials: H256,
    /// First epoch in which the validator is active.
    pub activation_epoch: Epoch,
    /// First epoch in which the validator is no longer active.
    pub exit_epoch: Epoch,
    /// First epoch in which the balance may leave.
    pub withdrawable_epoch: Epoch,
    /// Whether the validator has asked to exit.
    pub initiated_exit: bool,
    /// Whether the validator was slashed.
    pub slashed: bool,
}

impl Validator {
    /// A validator that has deposited and has no lifecycle event scheduled.
    pub open spec fn spec_new(pubkey: ValidatorId, withdrawal_credentials: H256) -> Validator {
        Validator {
            pubkey,
            withdrawal_credentials,
            activation_epoch: FAR_FUTURE_EPOCH,
            exit_epoch: FAR_FUTURE_EPOCH,
            withdrawable_epoch: FAR_FUTURE_EPOCH,
            initiated_exit: false,
            slashed: false,
        }
    }

    /// A validator that has deposited and has no lifecycle event scheduled.
    pub fn new(pubkey: ValidatorId, withdrawal_credentials: H256) -> (v: Validator)
        ensures
            v == Validator::spec_new(pubkey, withdrawal_credentials),
    {
        Validator {
            pubkey,
            withdrawal_credentials,
            activation_epoch: FAR_FUTURE_EPOCH,
            exit_epoch: FAR_FUTURE_EPOCH,
            withdrawable_epoch: FAR_FUTURE_EPOCH,
            initiated_exit: false,
            slashed: false,
        }
    }

    /// Whether the validator is active in `epoch`.
    pub open spec fn spec_is_active(&self, epoch: Epoch) -> bool {
        self.activation_epoch <= epoch < self.exit_epoch
    }

    /// Whether the validator is active in `epoch`.
    pub fn is_active(&self, epoch: Epoch) -> (r: bool)
        ensures
            r == self.spec_is_active(epoch),
    {
        self.activation_epoch <= epoch && epoch < self.exit_epoch
    }

    /// The record after activation: at genesis it is active from the genesis
    /// epoch, later from `delayed_activation_exit_epoch`.
    pub open spec fn spec_activate(
        &self,
        delayed_activation_exit_epoch: Epoch,
        is_genesis: bool,
    ) -> Validator {
        Validator {
            activation_epoch: if is_genesis {
                GENESIS_EPOCH
            } else {
                delayed_activation_exit_epoch
            },
            ..*self
        }
    }

    /// Schedules the activation.
    pub fn activate(&mut self, delayed_activation_exit_epoch: Epoch, is_genesis: bool)
        ensures
            *final(self) == old(self).spec_activate(delayed_activation_exit_epoch, is_genesis),
    {
        if is_genesis {
            self.activation_epoch = GENESIS_EPOCH;
        } else {
            self.activation_epoch = delayed_activation_exit_epoch;
        }
    }

    /// The record after the validator has asked to exit.
    pub open spec fn spec_initiate_exit(&self) -> Validator {
        Validator { initiated_exit: true, ..*self }
    }

    /// Records that the validator has asked to exit.
    pub fn initiate_exit(&mut self)
        ensures
            *final(self) == old(self).spec_initiate_exit(),
    {
        self.initiated_exit = true;
    }

    /// The record after an exit: an exit that is already due no later than
    /// `delayed_activation_exit_epoch` stands, any other is moved to it.
    pub open spec fn spec_exit(&self, delayed_activation_exit_epoch: Epoch) -> Validator {
        if self.exit_epoch <= delayed_activation_exit_epoch {
            *self
        } else {
            Validator { exit_epoch: delayed_activation_exit_epoch, ..*self }
        }
    }

    /// Schedules the exit.
    pub fn exit(&mut self, delayed_activation_exit_epoch: Epoch)
        ensures
            *final(self) == old(self).spec_exit(delayed_activation_exit_epoch),
    {
        if self.exit_epoch > delayed_activation_exit_epoch {
            self.exit_epoch = delayed_activation_exit_epoch;
        }
    }

    /// The roots of the fields, in declaration order.
    pub open spec fn spec_hash_parts(&self) -> Seq<Seq<u8>> {
        seq![
            spec_hash_fixed_bytes(self.pubkey@),
            spec_hash_fixed_bytes(self.withdrawal_credentials@),
            spec_hash_u64(self.activation_epoch),
            spec_hash_u64(self.exit_epoch),
            spec_hash_u64(self.withdrawable_epoch),
            spec_hash_bool(self.initiated_exit),
            spec_hash_bool(self.slashed),
        ]
    }

    /// The root of the record.
    pub open spec fn spec_hash(&self) -> Seq<u8> {
        spec_hash_container(self.spec_hash_parts())
    }

    /// The root of the record.
    pub fn hash(&self) -> (root: H256)
        ensures
            root@ == self.spec_hash(),
    {
        let mut parts: Vec<H256> = Vec::new();
        parts.push(hash_fixed_bytes(self.pubkey.bytes.as_slice()));
        parts.push(hash_fixed_bytes(self.withdrawal_credentials.bytes.as_slice()));
        parts.push(hash_u64(self.activation_epoch));
        parts.push(hash_u64(self.exit_epoch));
        parts.push(hash_u64(self.withdrawable_epoch));
        parts.push(hash_bool(self.initiated_exit));
        parts.push(hash_bool(self.slashed));
        assert(chunk_views(parts@) =~= self.spec_hash_parts());
        hash_container(&parts)
    }
}

/// The roots of the records in `validators`.
pub open spec fn spec_validator_roots(validators: Seq<Validator>) -> Seq<Seq<u8>> {
    Seq::new(validators.len(), |i: int| validators[i].spec_hash())
}

/// The roots of the records in `validators`.
pub fn validator_roots(validators: &Vec<Validator>) -> (roots: Vec<H256>)
    ensures
        chunk_views(roots@) == spec_validator_roots(validators@),
{
    let mut roots: Vec<H256> = Vec::new();
    let mut i: usize = 0;
    while i < validators.len()
        invariant
            i <= validators.len(),
            roots@.len() == i,
            forall|j: int| 0 <= j < i ==> roots@[j]@ == validators@[j].spec_hash(),
        decreases validators.len() - i,
    {
        let root = validators[i].hash();
        roots.push(root);
        i += 1;
    }
    assert(chunk_views(roots@) =~= spec_validator_roots(validators@));
    roots
}

} // verus!
