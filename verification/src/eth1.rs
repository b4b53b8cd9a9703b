//! What the beacon chain takes from the deposit contract: its root, the
//! votes on it, and the deposits proved against it.

use crate::consts::DEPOSIT_CONTRACT_TREE_DEPTH;
use crate::hashing::{
    chunk_views, hash_container, hash_fixed_bytes, hash_u64, keccak256, keccak256_digest,
    spec_hash_container, spec_hash_fixed_bytes, spec_hash_u64,
};
use crate::primitives::{zero_bytes, Gwei, Signature, Timestamp, ValidatorId, H256};
use vstd::bytes::{spec_u64_to_le_bytes, u64_to_le_bytes};
use vstd::prelude::*;

verus! {

/// The deposit contract as one block of the host chain shows it.
#[derive(Clone, Copy, Debug)]
pub struct Eth1Data {
    /// Root of the deposit tree.
    pub deposit_root: H256,
    /// Hash of the host chain's block.
    pub block_hash: H256,
}

impl Eth1Data {
    /// Whether both hashes are zero.
    pub open spec fn spec_is_zero(&self) -> bool {
        self.deposit_root@ == zero_bytes(32) && self.block_hash@ == zero_bytes(32)
    }

    /// The root of the data whose hashes are zero.
    pub open spec fn spec_zero_hash() -> Seq<u8> {
        spec_hash_container(
            seq![spec_hash_fixed_bytes(zero_bytes(32)), spec_hash_fixed_bytes(zero_bytes(32))],
        )
    }

    /// The data whose hashes are zero.
    pub fn zero() -> (data: Eth1Data)
        ensures
            data.spec_is_zero(),
            data.spec_hash() == Eth1Data::spec_zero_hash(),
    {
        Eth1Data { deposit_root: H256::zero(), block_hash: H256::zero() }
    }

    /// The roots of the fields, in declaration order.
    pub open spec fn spec_hash_parts(&self) -> Seq<Seq<u8>> {
        seq![
            spec_hash_fixed_bytes(self.deposit_root@),
            spec_hash_fixed_bytes(self.block_hash@),
        ]
    }

    /// The root of the data.
    pub open spec fn spec_hash(&self) -> Seq<u8> {
        spec_hash_container(self.spec_hash_parts())
    }

    /// The root of the data.
    pub fn hash(&self) -> (root: H256)
        ensures
            root@ == self.spec_hash(),
    {
        let mut parts: Vec<H256> = Vec::new();
        parts.push(hash_fixed_bytes(self.deposit_root.bytes.as_slice()));
        parts.push(hash_fixed_bytes(self.block_hash.bytes.as_slice()));
        assert(chunk_views(parts@) =~= self.spec_hash_parts());
        hash_container(&parts)
    }
}

/// A candidate for the next deposit root and the votes it has.
#[derive(Clone, Copy, Debug)]
pub struct Eth1DataVote {
    /// The candidate.
    pub eth1_data: Eth1Data,
    /// Number of blocks that voted for it.
    pub vote_count: u64,
}

impl Eth1DataVote {
    /// The roots of the fields, in declaration order.
    pub open spec fn spec_hash_parts(&self) -> Seq<Seq<u8>> {
        seq![self.eth1_data.spec_hash(), spec_hash_u64(self.vote_count)]
    }

    /// The root of the vote.
    pub open spec fn spec_hash(&self) -> Seq<u8> {
        spec_hash_container(self.spec_hash_parts())
    }

    /// The root of the vote.
    pub fn hash(&self) -> (root: H256)
        ensures
            root@ == self.spec_hash(),
    {
        let mut parts: Vec<H256> = Vec::new();
        parts.push(self.eth1_data.hash());
        parts.push(hash_u64(self.vote_count));
        assert(chunk_views(parts@) =~= self.spec_hash_parts());
        hash_container(&parts)
    }
}

/// The roots of the votes in `votes`.
pub open spec fn spec_vote_roots(votes: Seq<Eth1DataVote>) -> Seq<Seq<u8>> {
    Seq::new(votes.len(), |i: int| votes[i].spec_hash())
}

/// The roots of the votes in `votes`.
pub fn vote_roots(votes: &Vec<Eth1DataVote>) -> (roots: Vec<H256>)
    ensures
        chunk_views(roots@) == spec_vote_roots(votes@),
{
    let mut roots: Vec<H256> = Vec::new();
    let mut i: usize = 0;
    while i < votes.len()
        invariant
            i <= votes.len(),
            roots@.len() == i,
            forall|j: int| 0 <= j < i ==> roots@[j]@ == votes@[j].spec_hash(),
        decreases votes.len() - i,
    {
        let root = votes[i].hash();
        roots.push(root);
        i += 1;
    }
    assert(chunk_views(roots@) =~= spec_vote_roots(votes@));
    roots
}

/// Who deposits, and the proof that the depositor holds the key.
#[derive(Clone, Copy, Debug)]
pub struct DepositInput {
    /// Public key of the validator.
    pub pubkey: ValidatorId,
    /// Commitment to the key that may withdraw the balance.
    pub withdrawal_credentials: H256,
    /// Signature over this input by the validator's key.
    pub proof_of_possession: Signature,
}

/// A deposit as the contract recorded it.
#[derive(Clone, Copy, Debug)]
pub struct DepositData {
    /// Amount in gwei.
    pub amount: Gwei,
    /// Time of the deposit.
    pub timestamp: Timestamp,
    /// Who deposits.
    pub deposit_input: DepositInput,
}

impl DepositData {
    /// The serialized deposit: amount and timestamp in little-endian order,
    /// then the key, the credentials and the proof of possession.
    pub open spec fn spec_encode(&self) -> Seq<u8> {
        spec_u64_to_le_bytes(self.amount) + spec_u64_to_le_bytes(self.timestamp)
            + self.deposit_input.pubkey@ + self.deposit_input.withdrawal_credentials@
            + self.deposit_input.proof_of_possession@
    }

    /// The serialized deposit.
    pub fn encode(&self) -> (bytes: Vec<u8>)
        ensures
            bytes@ == self.spec_encode(),
    {
        let mut bytes: Vec<u8> = u64_to_le_bytes(self.amount);
        let timestamp = u64_to_le_bytes(self.timestamp);
        bytes.extend_from_slice(timestamp.as_slice());
        bytes.extend_from_slice(self.deposit_input.pubkey.bytes.as_slice());
        bytes.extend_from_slice(self.deposit_input.withdrawal_credentials.bytes.as_slice());
        bytes.extend_from_slice(self.deposit_input.proof_of_possession.bytes.as_slice());
        assert(bytes@ =~= self.spec_encode());
        bytes
    }
}

/// The root that a Merkle path leads to. Going up from `value`, step `i`
/// hashes the running value with `proof[i]`: as the right child where the
/// low bit of `index` is set, as the left child where it is not; `index` is
/// halved after each step.
pub open spec fn spec_merkle_branch_root(
    value: Seq<u8>,
    proof: Seq<H256>,
    index: nat,
    from: nat,
) -> Seq<u8>
    decreases proof.len() - from,
{
    if from >= proof.len() {
        value
    } else {
        let next = if index % 2 == 1 {
            keccak256_digest(proof[from as int]@ + value)
        } else {
            keccak256_digest(value + proof[from as int]@)
        };
        spec_merkle_branch_root(next, proof, index / 2, from + 1)
    }
}

/// The root that the Merkle path `proof` leads to from `leaf` at `index`.
pub fn merkle_branch_root(leaf: &H256, proof: &Vec<H256>, index: u64) -> (root: H256)
    ensures
        root@ == spec_merkle_branch_root(leaf@, proof@, index as nat, 0),
{
    let mut value: H256 = *leaf;
    let mut rest: u64 = index;
    let mut i: usize = 0;
    while i < proof.len()
        invariant
            i <= proof.len(),
            spec_merkle_branch_root(value@, proof@, rest as nat, i as nat)
                == spec_merkle_branch_root(leaf@, proof@, index as nat, 0),
        decreases proof.len() - i,
    {
        let mut data: Vec<u8> = Vec::new();
        if rest % 2 == 1 {
            data.extend_from_slice(proof[i].bytes.as_slice());
            data.extend_from_slice(value.bytes.as_slice());
            assert(data@ =~= proof@[i as int]@ + value@);
        } else {
            data.extend_from_slice(value.bytes.as_slice());
            data.extend_from_slice(proof[i].bytes.as_slice());
            assert(data@ =~= value@ + proof@[i as int]@);
        }
        value = keccak256(data.as_slice());
        rest = rest / 2;
        i += 1;
    }
    value
}

/// A deposit with the path that proves it against the deposit root.
#[derive(Debug)]
pub struct Deposit {
    /// Merkle path from the deposit to the root, leaf end first.
    pub proof: Vec<H256>,
    /// Position of the deposit in the tree.
    pub index: u64,
    /// The deposit.
    pub deposit_data: DepositData,
}

impl Deposit {
    /// The leaf of the deposit tree that holds this deposit.
    pub open spec fn spec_leaf(&self) -> Seq<u8> {
        keccak256_digest(self.deposit_data.spec_encode())
    }

    /// Whether the path has the depth of the deposit tree and leads from
    /// this deposit to `deposit_root`.
    pub open spec fn spec_is_merkle_valid(&self, deposit_root: H256) -> bool {
        &&& self.proof@.len() == DEPOSIT_CONTRACT_TREE_DEPTH
        &&& spec_merkle_branch_root(self.spec_leaf(), self.proof@, self.index as nat, 0)
            == deposit_root@
    }

    /// Whether the path proves this deposit against `deposit_root`.
    pub fn is_merkle_valid(&self, deposit_root: &H256) -> (valid: bool)
        ensures
            valid == self.spec_is_merkle_valid(*deposit_root),
    {
        if self.proof.len() != DEPOSIT_CONTRACT_TREE_DEPTH {
            return false;
        }
        let encoded = self.deposit_data.encode();
        let leaf = keccak256(encoded.as_slice());
        let root = merkle_branch_root(&leaf, &self.proof, self.index);
        root == *deposit_root
    }
}

/// A deposit together with the verdict on its proof of possession.
///
/// The verdict is that of the signature check of `proof_of_possession`
/// over the deposit input, under the deposit domain of the state that the
/// deposit is applied to.
#[derive(Debug)]
pub struct CheckedDeposit {
    /// The deposit.
    pub deposit: Deposit,
    /// Whether the proof of possession holds.
    pub is_proof_valid: bool,
}

} // verus!
