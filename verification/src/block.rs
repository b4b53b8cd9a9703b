//! Block headers.

use crate::consts::GENESIS_SLOT;
use crate::eth1::Eth1Data;
use crate::hashing::{
    chunk_views, hash_container, hash_fixed_bytes, hash_list, hash_u64, spec_hash_container,
    spec_hash_fixed_bytes, spec_hash_list, spec_hash_u64,
};
use crate::primitives::{
    lemma_h256_of_view, lemma_signature_of_view, spec_h256, spec_signature, zero_bytes, Signature,
    Slot, H256,
};
use vstd::prelude::*;

verus! {

/// The header of a beacon block.
#[derive(Clone, Copy, Debug)]
pub struct BeaconBlockHeader {
    /// Slot of the block.
    pub slot: Slot,
    /// Truncated root of the header before it.
    pub previous_block_root: H256,
    /// Root of the state after the block; zero until the next slot fills it.
    pub state_root: H256,
    /// Root of the block's body.
    pub block_body_root: H256,
    /// The proposer's signature.
    pub signature: Signature,
}

/// The root of a block body that carries no operation, the zero randao
/// reveal and the zero vote.
pub open spec fn spec_empty_body_root() -> Seq<u8> {
    let no_items = spec_hash_list(Seq::<Seq<u8>>::empty());
    spec_hash_container(
        seq![
            spec_hash_fixed_bytes(zero_bytes(96)),
            Eth1Data::spec_zero_hash(),
            no_items,
            no_items,
            no_items,
            no_items,
            no_items,
            no_items,
        ],
    )
}

/// The root of a block body that carries no operation.
pub fn empty_body_root() -> (root: H256)
    ensures
        root@ == spec_empty_body_root(),
{
    let nothing: Vec<H256> = Vec::new();
    assert(chunk_views(nothing@) =~= Seq::<Seq<u8>>::empty());
    let no_items = hash_list(&nothing);
    let mut parts: Vec<H256> = Vec::new();
    parts.push(hash_fixed_bytes(Signature::zero().bytes.as_slice()));
    parts.push(Eth1Data::zero().hash());
    parts.push(no_items);
    parts.push(no_items);
    parts.push(no_items);
    parts.push(no_items);
    parts.push(no_items);
    parts.push(no_items);
    assert(chunk_views(parts@) =~= seq![
        spec_hash_fixed_bytes(zero_bytes(96)),
        Eth1Data::spec_zero_hash(),
        no_items@,
        no_items@,
        no_items@,
        no_items@,
        no_items@,
        no_items@,
    ]);
    hash_container(&parts)
}

impl BeaconBlockHeader {
    /// The header of the empty block at the genesis slot: no block before
    /// it, no state root yet, the root of the empty body, no signature.
    pub open spec fn spec_genesis() -> BeaconBlockHeader {
        BeaconBlockHeader {
            slot: GENESIS_SLOT,
            previous_block_root: spec_h256(zero_bytes(32)),
            state_root: spec_h256(zero_bytes(32)),
            block_body_root: spec_h256(spec_empty_body_root()),
            signature: spec_signature(zero_bytes(96)),
        }
    }

    /// The header of the empty block at the genesis slot.
    pub fn genesis() -> (header: BeaconBlockHeader)
        ensures
            header == BeaconBlockHeader::spec_genesis(),
            header.state_root@ == zero_bytes(32),
            header.block_body_root@ == spec_empty_body_root(),
    {
        let zero = H256::zero();
        let body_root = empty_body_root();
        let signature = Signature::zero();
        proof {
            lemma_h256_of_view(zero);
            lemma_h256_of_view(body_root);
            lemma_signature_of_view(signature);
        }
        BeaconBlockHeader {
            slot: GENESIS_SLOT,
            previous_block_root: zero,
            state_root: zero,
            block_body_root: body_root,
            signature,
        }
    }

    /// The roots of the fields but the signature, in declaration order.
    pub open spec fn spec_truncated_hash_parts(&self) -> Seq<Seq<u8>> {
        seq![
            spec_hash_u64(self.slot),
            spec_hash_fixed_bytes(self.previous_block_root@),
            spec_hash_fixed_bytes(self.state_root@),
            spec_hash_fixed_bytes(self.block_body_root@),
        ]
    }

    /// The root of the header without its signature.
    pub open spec fn spec_truncated_hash(&self) -> Seq<u8> {
        spec_hash_container(self.spec_truncated_hash_parts())
    }

    /// The roots of the fields, in declaration order.
    pub open spec fn spec_hash_parts(&self) -> Seq<Seq<u8>> {
        self.spec_truncated_hash_parts().push(spec_hash_fixed_bytes(self.signature@))
    }

    /// The root of the header.
    pub open spec fn spec_hash(&self) -> Seq<u8> {
        spec_hash_container(self.spec_hash_parts())
    }

    /// The root of the header without its signature.
    pub fn truncated_hash(&self) -> (root: H256)
        ensures
            root@ == self.spec_truncated_hash(),
    {
        let mut parts: Vec<H256> = Vec::new();
        parts.push(hash_u64(self.slot));
        parts.push(hash_fixed_bytes(self.previous_block_root.bytes.as_slice()));
        parts.push(hash_fixed_bytes(self.state_root.bytes.as_slice()));
        parts.push(hash_fixed_bytes(self.block_body_root.bytes.as_slice()));
        assert(chunk_views(parts@) =~= self.spec_truncated_hash_parts());
        hash_container(&parts)
    }

    /// The root of the header.
    pub fn hash(&self) -> (root: H256)
        ensures
            root@ == self.spec_hash(),
    {
        let mut parts: Vec<H256> = Vec::new();
        parts.push(hash_u64(self.slot));
        parts.push(hash_fixed_bytes(self.previous_block_root.bytes.as_slice()));
        parts.push(hash_fixed_bytes(self.state_root.bytes.as_slice()));
        parts.push(hash_fixed_bytes(self.block_body_root.bytes.as_slice()));
        parts.push(hash_fixed_bytes(self.signature.bytes.as_slice()));
        assert(chunk_views(parts@) =~= self.spec_hash_parts());
        hash_container(&parts)
    }
}

} // verus!
