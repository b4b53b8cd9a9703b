//! Attestations as the state keeps them, and the crosslinks they vote for.

use crate::hashing::{
    chunk_views, hash_bool, hash_bytes, hash_container, hash_fixed_bytes, hash_u64,
    spec_hash_bool, spec_hash_bytes, spec_hash_container, spec_hash_fixed_bytes, spec_hash_u64,
};
use crate::primitives::{spec_packed_bytes, zero_bytes, BitField, Epoch, Shard, Slot, H256};
use vstd::prelude::*;

verus! {

/// A committee's commitment to the data of its shard at an epoch.
#[derive(Clone, Copy, Debug)]
pub struct Crosslink {
    /// Epoch of the commitment.
    pub epoch: Epoch,
    /// Root of the shard data.
    pub crosslink_data_root: H256,
}

impl Crosslink {
    /// The roots of the fields, in declaration order.
    pub open spec fn spec_hash_parts(&self) -> Seq<Seq<u8>> {
        seq![spec_hash_u64(self.epoch), spec_hash_fixed_bytes(self.crosslink_data_root@)]
    }

    /// The root of the crosslink.
    pub open spec fn spec_hash(&self) -> Seq<u8> {
        spec_hash_container(self.spec_hash_parts())
    }

    /// The root of the crosslink.
    pub fn hash(&self) -> (root: H256)
        ensures
            root@ == self.spec_hash(),
    {
        let mut parts: Vec<H256> = Vec::new();
        parts.push(hash_u64(self.epoch));
        parts.push(hash_fixed_bytes(self.crosslink_data_root.bytes.as_slice()));
        assert(chunk_views(parts@) =~= self.spec_hash_parts());
        hash_container(&parts)
    }
}

impl Default for Crosslink {
    /// The crosslink of epoch zero with the zero root.
    fn default() -> (c: Crosslink)
        ensures
            c.epoch == 0,
            c.crosslink_data_root@ == zero_bytes(32),
    {
        Crosslink { epoch: 0, crosslink_data_root: H256::zero() }
    }
}

/// What an attestation votes for.
#[derive(Clone, Copy, Debug)]
pub struct AttestationData {
    /// Slot of the attestation.
    pub slot: Slot,
    /// Shard of the attesting committee.
    pub shard: Shard,
    /// Root of the beacon block that the attester sees as head.
    pub beacon_block_root: H256,
    /// Justified epoch that the vote starts from.
    pub source_epoch: Epoch,
    /// Root of the block at the source epoch.
    pub source_root: H256,
    /// Root of the block at the start of the target epoch.
    pub target_root: H256,
    /// Root of the shard data.
    pub crosslink_data_root: H256,
    /// The crosslink that the vote builds on.
    pub previous_crosslink: Crosslink,
}

impl AttestationData {
    /// The roots of the fields, in declaration order.
    pub open spec fn spec_hash_parts(&self) -> Seq<Seq<u8>> {
        seq![
            spec_hash_u64(self.slot),
            spec_hash_u64(self.shard),
            spec_hash_fixed_bytes(self.beacon_block_root@),
            spec_hash_u64(self.source_epoch),
            spec_hash_fixed_bytes(self.source_root@),
            spec_hash_fixed_bytes(self.target_root@),
            spec_hash_fixed_bytes(self.crosslink_data_root@),
            self.previous_crosslink.spec_hash(),
        ]
    }

    /// The root of the data.
    pub open spec fn spec_hash(&self) -> Seq<u8> {
        spec_hash_container(self.spec_hash_parts())
    }

    /// The root of the data.
    pub fn hash(&self) -> (root: H256)
        ensures
            root@ == self.spec_hash(),
    {
        let mut parts: Vec<H256> = Vec::new();
        parts.push(hash_u64(self.slot));
        parts.push(hash_u64(self.shard));
        parts.push(hash_fixed_bytes(self.beacon_block_root.bytes.as_slice()));
        parts.push(hash_u64(self.source_epoch));
        parts.push(hash_fixed_bytes(self.source_root.bytes.as_slice()));
        parts.push(hash_fixed_bytes(self.target_root.bytes.as_slice()));
        parts.push(hash_fixed_bytes(self.crosslink_data_root.bytes.as_slice()));
        parts.push(self.previous_crosslink.hash());
        assert(chunk_views(parts@) =~= self.spec_hash_parts());
        hash_container(&parts)
    }
}

/// The message that the members of a committee sign: the data and the
/// custody bit they vote with.
#[derive(Clone, Copy, Debug)]
pub struct AttestationDataAndCustodyBit {
    /// What the attestation votes for.
    pub data: AttestationData,
    /// The custody bit of the signers.
    pub custody_bit: bool,
}

impl AttestationDataAndCustodyBit {
    /// The roots of the fields, in declaration order.
    pub open spec fn spec_hash_parts(&self) -> Seq<Seq<u8>> {
        seq![self.data.spec_hash(), spec_hash_bool(self.custody_bit)]
    }

    /// The root of the message.
    pub open spec fn spec_hash(&self) -> Seq<u8> {
        spec_hash_container(self.spec_hash_parts())
    }

    /// The root of the message.
    pub fn hash(&self) -> (root: H256)
        ensures
            root@ == self.spec_hash(),
    {
        let mut parts: Vec<H256> = Vec::new();
        parts.push(self.data.hash());
        parts.push(hash_bool(self.custody_bit));
        assert(chunk_views(parts@) =~= self.spec_hash_parts());
        hash_container(&parts)
    }
}

/// An attestation that a block has included and an epoch has yet to count.
#[derive(Debug)]
pub struct PendingAttestation {
    /// Which members of the committee signed.
    pub aggregation_bitfield: BitField,
    /// What they voted for.
    pub data: AttestationData,
    /// Their custody bits.
    pub custody_bitfield: BitField,
    /// Slot of the block that included the attestation.
    pub inclusion_slot: Slot,
}

/// A pending attestation as a mathematical value.
pub struct PendingAttestationView {
    pub aggregation_bitfield: Seq<bool>,
    pub data: AttestationData,
    pub custody_bitfield: Seq<bool>,
    pub inclusion_slot: Slot,
}

impl View for PendingAttestation {
    type V = PendingAttestationView;

    open spec fn view(&self) -> PendingAttestationView {
        PendingAttestationView {
            aggregation_bitfield: self.aggregation_bitfield@,
            data: self.data,
            custody_bitfield: self.custody_bitfield@,
            inclusion_slot: self.inclusion_slot,
        }
    }
}

impl PendingAttestationView {
    /// The roots of the fields, in declaration order. A bit field counts
    /// as the list of the bytes it is packed into.
    pub open spec fn spec_hash_parts(&self) -> Seq<Seq<u8>> {
        seq![
            spec_hash_bytes(spec_packed_bytes(self.aggregation_bitfield)),
            self.data.spec_hash(),
            spec_hash_bytes(spec_packed_bytes(self.custody_bitfield)),
            spec_hash_u64(self.inclusion_slot),
        ]
    }

    /// The root of the attestation.
    pub open spec fn spec_hash(&self) -> Seq<u8> {
        spec_hash_container(self.spec_hash_parts())
    }
}

impl PendingAttestation {
    /// The root of the attestation.
    pub fn hash(&self) -> (root: H256)
        ensures
            root@ == self@.spec_hash(),
    {
        let aggregation = self.aggregation_bitfield.to_bytes();
        let custody = self.custody_bitfield.to_bytes();
        let mut parts: Vec<H256> = Vec::new();
        parts.push(hash_bytes(aggregation.as_slice()));
        parts.push(self.data.hash());
        parts.push(hash_bytes(custody.as_slice()));
        parts.push(hash_u64(self.inclusion_slot));
        assert(chunk_views(parts@) =~= self@.spec_hash_parts());
        hash_container(&parts)
    }

    /// A copy of the attestation.
    pub fn copy(&self) -> (copy: PendingAttestation)
        ensures
            copy@ == self@,
    {
        PendingAttestation {
            aggregation_bitfield: self.aggregation_bitfield.copy(),
            data: self.data,
            custody_bitfield: self.custody_bitfield.copy(),
            inclusion_slot: self.inclusion_slot,
        }
    }
}

/// The attestations in `attestations` as mathematical values.
pub open spec fn attestation_views(attestations: Seq<PendingAttestation>) -> Seq<
    PendingAttestationView,
> {
    Seq::new(attestations.len(), |i: int| attestations[i]@)
}

/// The roots of the attestations in `attestations`.
pub open spec fn spec_attestation_roots(attestations: Seq<PendingAttestationView>) -> Seq<
    Seq<u8>,
> {
    Seq::new(attestations.len(), |i: int| attestations[i].spec_hash())
}

/// The roots of the attestations in `attestations`.
pub fn attestation_roots(attestations: &Vec<PendingAttestation>) -> (roots: Vec<H256>)
    ensures
        chunk_views(roots@) == spec_attestation_roots(attestation_views(attestations@)),
{
    let mut roots: Vec<H256> = Vec::new();
    let mut i: usize = 0;
    while i < attestations.len()
        invariant
            i <= attestations.len(),
            roots@.len() == i,
            forall|j: int| 0 <= j < i ==> roots@[j]@ == attestations@[j]@.spec_hash(),
        decreases attestations.len() - i,
    {
        let root = attestations[i].hash();
        roots.push(root);
        i += 1;
    }
    assert(chunk_views(roots@) =~= spec_attestation_roots(attestation_views(attestations@)));
    roots
}

/// A copy of `attestations`.
pub fn copy_attestations(attestations: &Vec<PendingAttestation>) -> (copy: Vec<
    PendingAttestation,
>)
    ensures
        attestation_views(copy@) == attestation_views(attestations@),
{
    let mut copy: Vec<PendingAttestation> = Vec::new();
    let mut i: usize = 0;
    while i < attestations.len()
        invariant
            i <= attestations.len(),
            copy@.len() == i,
            forall|j: int| 0 <= j < i ==> copy@[j]@ == attestations@[j]@,
        decreases attestations.len() - i,
    {
        copy.push(attestations[i].copy());
        i += 1;
    }
    assert(attestation_views(copy@) =~= attestation_views(attestations@));
    copy
}

/// The roots of the crosslinks in `crosslinks`.
pub open spec fn spec_crosslink_roots(crosslinks: Seq<Crosslink>) -> Seq<Seq<u8>> {
    Seq::new(crosslinks.len(), |i: int| crosslinks[i].spec_hash())
}

/// The roots of the crosslinks in `crosslinks`.
pub fn crosslink_roots(crosslinks: &Vec<Crosslink>) -> (roots: Vec<H256>)
    ensures
        chunk_views(roots@) == spec_crosslink_roots(crosslinks@),
{
    let mut roots: Vec<H256> = Vec::new();
    let mut i: usize = 0;
    while i < crosslinks.len()
        invariant
            i <= crosslinks.len(),
            roots@.len() == i,
            forall|j: int| 0 <= j < i ==> roots@[j]@ == crosslinks@[j].spec_hash(),
        decreases crosslinks.len() - i,
    {
        let root = crosslinks[i].hash();
        roots.push(root);
        i += 1;
    }
    assert(chunk_views(roots@) =~= spec_crosslink_roots(crosslinks@));
    roots
}

} // verus!
