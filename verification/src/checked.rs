//! Attestations as the runtime handles them: unsigned, signed, and checked
//! against the chain.

use crate::primitives::{lemma_h256_of_view, Epoch, Signature, Slot, ValidatorId, H256};
use vstd::prelude::*;

verus! {

/// Balance of a validator in the runtime.
pub type Balance = u64;

/// Hash of a block.
pub type BlockHash = H256;

/// What a committee attests to, before anyone has signed it.
#[derive(Clone, Debug, PartialEq, Eq)]
pub struct UnsignedAttestation {
    pub slot: Slot,
    pub slot_block_hash: BlockHash,
    pub source_epoch: Epoch,
    pub source_epoch_block_hash: BlockHash,
    pub target_epoch: Epoch,
    pub target_epoch_block_hash: BlockHash,
    pub validator_indexes: Vec<u32>,
}

/// An unsigned attestation as a mathematical value.
pub struct UnsignedAttestationView {
    pub slot: Slot,
    pub slot_block_hash: BlockHash,
    pub source_epoch: Epoch,
    pub source_epoch_block_hash: BlockHash,
    pub target_epoch: Epoch,
    pub target_epoch_block_hash: BlockHash,
    pub validator_indexes: Seq<u32>,
}

impl View for UnsignedAttestation {
    type V = UnsignedAttestationView;

    open spec fn view(&self) -> UnsignedAttestationView {
        UnsignedAttestationView {
            slot: self.slot,
            slot_block_hash: self.slot_block_hash,
            source_epoch: self.source_epoch,
            source_epoch_block_hash: self.source_epoch_block_hash,
            target_epoch: self.target_epoch,
            target_epoch_block_hash: self.target_epoch_block_hash,
            validator_indexes: self.validator_indexes@,
        }
    }
}

impl UnsignedAttestation {
    /// Whether two attestations hold the same values.
    pub fn same(&self, other: &UnsignedAttestation) -> (r: bool)
        ensures
            r == (self@ == other@),
    {
        proof {
            lemma_h256_of_view(self.slot_block_hash);
            lemma_h256_of_view(other.slot_block_hash);
            lemma_h256_of_view(self.source_epoch_block_hash);
            lemma_h256_of_view(other.source_epoch_block_hash);
            lemma_h256_of_view(self.target_epoch_block_hash);
            lemma_h256_of_view(other.target_epoch_block_hash);
        }
        if self.slot != other.slot || self.source_epoch != other.source_epoch || self.target_epoch
            != other.target_epoch {
            return false;
        }
        if self.slot_block_hash != other.slot_block_hash || self.source_epoch_block_hash
            != other.source_epoch_block_hash || self.target_epoch_block_hash
            != other.target_epoch_block_hash {
            return false;
        }
        if self.validator_indexes.len() != other.validator_indexes.len() {
            return false;
        }
        let mut i: usize = 0;
        while i < self.validator_indexes.len()
            invariant
                i <= self.validator_indexes@.len(),
                self.validator_indexes@.len() == other.validator_indexes@.len(),
                forall|j: int|
                    0 <= j < i ==> self.validator_indexes@[j] == other.validator_indexes@[j],
            decreases self.validator_indexes@.len() - i,
        {
            if self.validator_indexes[i] != other.validator_indexes[i] {
                return false;
            }
            i += 1;
        }
        assert(self.validator_indexes@ =~= other.validator_indexes@);
        true
    }
}

/// An attestation with the aggregate signature of its validators, not yet
/// checked.
#[derive(Clone, Debug, PartialEq, Eq)]
pub struct UncheckedAttestation {
    pub data: UnsignedAttestation,
    pub signature: Signature,
}

impl UncheckedAttestation {
    /// Whether `validator_index` is among the validators of the
    /// attestation, so that its signature cannot be added once more.
    pub fn has_validator(&self, validator_index: u32) -> (r: bool)
        ensures
            r == self.data@.validator_indexes.contains(validator_index),
    {
        let mut i: usize = 0;
        while i < self.data.validator_indexes.len()
            invariant
                i <= self.data.validator_indexes@.len(),
                forall|j: int| 0 <= j < i ==> self.data.validator_indexes@[j] != validator_index,
            decreases self.data.validator_indexes@.len() - i,
        {
            if self.data.validator_indexes[i] == validator_index {
                return true;
            }
            i += 1;
        }
        false
    }
}

/// An attestation whose signature has been checked and whose votes have
/// been compared with the chain.
#[derive(Clone, Debug, PartialEq, Eq)]
pub struct CheckedAttestation {
    pub data: UnsignedAttestation,
    pub is_slot_canon: bool,
    pub is_source_canon: bool,
    pub is_target_canon: bool,
    pub validator_ids: Vec<ValidatorId>,
    pub inclusion_distance: Slot,
}

/// A checked attestation as a mathematical value.
pub struct CheckedAttestationView {
    pub data: UnsignedAttestationView,
    pub is_slot_canon: bool,
    pub is_source_canon: bool,
    pub is_target_canon: bool,
    pub validator_ids: Seq<ValidatorId>,
    pub inclusion_distance: Slot,
}

impl View for CheckedAttestation {
    type V = CheckedAttestationView;

    open spec fn view(&self) -> CheckedAttestationView {
        CheckedAttestationView {
            data: self.data@,
            is_slot_canon: self.is_slot_canon,
            is_source_canon: self.is_source_canon,
            is_target_canon: self.is_target_canon,
            validator_ids: self.validator_ids@,
            inclusion_distance: self.inclusion_distance,
        }
    }
}

/// Whether `id` is among `ids`.
pub fn contains_id(ids: &Vec<ValidatorId>, id: &ValidatorId) -> (r: bool)
    ensures
        r == ids@.contains(*id),
{
    let mut i: usize = 0;
    while i < ids.len()
        invariant
            i <= ids@.len(),
            forall|j: int| 0 <= j < i ==> ids@[j] != *id,
        decreases ids@.len() - i,
    {
        proof {
            lemma_id_of_view(ids@[i as int], *id);
        }
        if ids[i] == *id {
            return true;
        }
        i += 1;
    }
    false
}

/// Two keys with the same bytes are one key.
pub proof fn lemma_id_of_view(a: ValidatorId, b: ValidatorId)
    ensures
        (a@ == b@) == (a == b),
{
    if a@ == b@ {
        assert(a.bytes =~= b.bytes);
    }
}

impl CheckedAttestation {
    /// The validators that signed.
    pub fn validator_ids(&self) -> (ids: Vec<ValidatorId>)
        ensures
            ids@ == self@.validator_ids,
    {
        vstd::slice::slice_to_vec(self.validator_ids.as_slice())
    }

    /// Whether the source of the vote is on the canonical chain.
    pub fn is_source_canon(&self) -> (r: bool)
        ensures
            r == self@.is_source_canon,
    {
        self.is_source_canon
    }

    /// Whether the target of the vote is on the canonical chain.
    pub fn is_target_canon(&self) -> (r: bool)
        ensures
            r == self@.is_target_canon,
    {
        self.is_target_canon
    }

    /// The epoch that the vote starts from.
    pub fn source_epoch(&self) -> (epoch: Epoch)
        ensures
            epoch == self@.data.source_epoch,
    {
        self.data.source_epoch
    }

    /// The epoch that the vote is for.
    pub fn target_epoch(&self) -> (epoch: Epoch)
        ensures
            epoch == self@.data.target_epoch,
    {
        self.data.target_epoch
    }

    /// The slot of the attestation.
    pub fn slot(&self) -> (slot: Slot)
        ensures
            slot == self@.data.slot,
    {
        self.data.slot
    }

    /// Whether the block of the slot is on the canonical chain.
    pub fn is_slot_canon(&self) -> (r: bool)
        ensures
            r == self@.is_slot_canon,
    {
        self.is_slot_canon
    }

    /// Number of slots between the attestation and its inclusion.
    pub fn inclusion_distance(&self) -> (distance: Slot)
        ensures
            distance == self@.inclusion_distance,
    {
        self.inclusion_distance
    }

    /// Whether two attestations hold the same values.
    pub fn same(&self, other: &CheckedAttestation) -> (r: bool)
        ensures
            r == (self@ == other@),
    {
        if !self.data.same(&other.data) {
            return false;
        }
        if self.is_slot_canon != other.is_slot_canon || self.is_source_canon
            != other.is_source_canon || self.is_target_canon != other.is_target_canon
            || self.inclusion_distance != other.inclusion_distance {
            return false;
        }
        if self.validator_ids.len() != other.validator_ids.len() {
            return false;
        }
        let mut i: usize = 0;
        while i < self.validator_ids.len()
            invariant
                i <= self.validator_ids@.len(),
                self.validator_ids@.len() == other.validator_ids@.len(),
                forall|j: int| 0 <= j < i ==> self.validator_ids@[j] == other.validator_ids@[j],
            decreases self.validator_ids@.len() - i,
        {
            proof {
                lemma_id_of_view(self.validator_ids@[i as int], other.validator_ids@[i as int]);
            }
            if self.validator_ids[i] != other.validator_ids[i] {
                return false;
            }
            i += 1;
        }
        assert(self.validator_ids@ =~= other.validator_ids@);
        true
    }
}

/// The kinds of value that the runtime runs Casper on: checked
/// attestations, and balances of type `Balance`.
#[derive(Clone, Copy, Debug, PartialEq, Eq, Structural)]
pub struct AttestationContext;

} // verus!
