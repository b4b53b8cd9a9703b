//! Keccak-256 and the Merkle hashing of simple-serialize values.
//!
//! The digest and the tree root are computed by outside code. Both are
//! functions of their input alone, so each has a name here, and everything
//! else in this module is stated over those two names.

use crate::primitives::{zero_bytes, H256};
use hash_db::Hasher;
use keccak_hasher::KeccakHasher;
use vstd::bytes::{spec_u32_to_le_bytes, spec_u64_to_le_bytes, u64_to_le_bytes};
use vstd::prelude::*;

verus! {

/// The Keccak-256 digest of `data`.
pub uninterp spec fn keccak256_digest(data: Seq<u8>) -> Seq<u8>;

/// The root of the binary hash tree over `chunks`, after they are padded
/// with zero chunks to a power of two.
pub uninterp spec fn merkle_root(chunks: Seq<Seq<u8>>) -> Seq<u8>;

/// The byte strings that a sequence of hashes holds.
pub open spec fn chunk_views(chunks: Seq<H256>) -> Seq<Seq<u8>> {
    Seq::new(chunks.len(), |i: int| chunks[i]@)
}

/// `bytes` cut into 32-byte chunks, the last one filled up with zeros.
pub open spec fn spec_chunkify(bytes: Seq<u8>) -> Seq<Seq<u8>> {
    Seq::new(
        ((bytes.len() + 31) / 32) as nat,
        |i: int|
            Seq::new(
                32,
                |j: int|
                    if 32 * i + j < bytes.len() {
                        bytes[32 * i + j]
                    } else {
                        0u8
                    },
            ),
    )
}

/// The length that is mixed into the root of a list: its low 32 bits.
pub open spec fn spec_length_word(len: nat) -> u32 {
    (len % 0x1_0000_0000) as u32
}

/// A list's root: the digest of the tree root followed by the length as
/// four little-endian bytes and 28 zero bytes.
pub open spec fn spec_mix_in_length(root: Seq<u8>, length: u32) -> Seq<u8> {
    keccak256_digest(root + spec_u32_to_le_bytes(length) + zero_bytes(28))
}

/// The little-endian encodings of `values`, one after the other.
pub open spec fn spec_encode_u64s(values: Seq<u64>) -> Seq<u8>
    decreases values.len(),
{
    if values.len() == 0 {
        Seq::empty()
    } else {
        spec_encode_u64s(values.drop_last()) + spec_u64_to_le_bytes(values.last())
    }
}

/// Root of a single integer.
pub open spec fn spec_hash_u64(value: u64) -> Seq<u8> {
    merkle_root(spec_chunkify(spec_u64_to_le_bytes(value)))
}

/// Root of a single boolean, encoded as the byte 1 or 0.
pub open spec fn spec_hash_bool(value: bool) -> Seq<u8> {
    merkle_root(
        spec_chunkify(
            seq![if value {
                1u8
            } else {
                0u8
            }],
        ),
    )
}

/// Root of a byte string of fixed length.
pub open spec fn spec_hash_fixed_bytes(bytes: Seq<u8>) -> Seq<u8> {
    merkle_root(spec_chunkify(bytes))
}

/// Root of a byte string of variable length.
pub open spec fn spec_hash_bytes(bytes: Seq<u8>) -> Seq<u8> {
    spec_mix_in_length(merkle_root(spec_chunkify(bytes)), spec_length_word(bytes.len()))
}

/// Root of a fixed-length vector of integers.
pub open spec fn spec_hash_u64_vector(values: Seq<u64>) -> Seq<u8> {
    merkle_root(spec_chunkify(spec_encode_u64s(values)))
}

/// Root of a variable-length list of integers.
pub open spec fn spec_hash_u64_list(values: Seq<u64>) -> Seq<u8> {
    spec_mix_in_length(spec_hash_u64_vector(values), spec_length_word(values.len()))
}

/// Root of a container, or of a fixed-length vector of containers, from the
/// roots of its parts.
pub open spec fn spec_hash_container(parts: Seq<Seq<u8>>) -> Seq<u8> {
    merkle_root(parts)
}

/// Root of a variable-length list of containers from the roots of its items.
pub open spec fn spec_hash_list(items: Seq<Seq<u8>>) -> Seq<u8> {
    spec_mix_in_length(merkle_root(items), spec_length_word(items.len()))
}

/// The roots of the hashes in `items`, each taken as a 32-byte string.
pub open spec fn spec_hash_each(items: Seq<H256>) -> Seq<Seq<u8>> {
    Seq::new(items.len(), |i: int| spec_hash_fixed_bytes(items[i]@))
}

/// Calls `KeccakHasher::hash` of the crate keccak-hasher. The contract says
/// only that the digest is a function of the input bytes.
#[verifier::external_body]
pub(crate) fn keccak256(data: &[u8]) -> (digest: H256)
    ensures
        digest@ == keccak256_digest(data@),
{
    H256 { bytes: KeccakHasher::hash(data) }
}

/// Calls `ssz::hash::merkleize` with the Keccak hasher. The contract says
/// only that the root is a function of the chunks.
#[verifier::external_body]
pub(crate) fn merkleize(chunks: &Vec<H256>) -> (root: H256)
    ensures
        root@ == merkle_root(chunk_views(chunks@)),
{
    let packed: Vec<[u8; 32]> = chunks.iter().map(|c| c.bytes).collect();
    H256 { bytes: ssz::hash::merkleize::<KeccakHasher>(packed) }
}

/// Calls `ssz::hash::mix_in_length` with the Keccak hasher, which hashes
/// the 64 bytes made of the root, the length in little-endian order, and
/// zeros.
#[verifier::external_body]
pub(crate) fn mix_in_length(root: &H256, length: u32) -> (mixed: H256)
    ensures
        mixed@ == spec_mix_in_length(root@, length),
{
    H256 { bytes: ssz::hash::mix_in_length::<KeccakHasher>(root.bytes, length) }
}

/// Calls `ssz::hash::chunkify`, which copies the bytes into as many 32-byte
/// chunks as they need and leaves the rest of the last chunk zero.
#[verifier::external_body]
pub(crate) fn chunkify(bytes: &[u8]) -> (chunks: Vec<H256>)
    ensures
        chunk_views(chunks@) == spec_chunkify(bytes@),
{
    ssz::hash::chunkify(bytes).into_iter().map(|c| H256 { bytes: c }).collect()
}

/// The digest of three byte strings, one after the other.
pub fn hash3(a: &[u8], b: &[u8], c: &[u8]) -> (digest: H256)
    ensures
        digest@ == keccak256_digest(a@ + b@ + c@),
{
    let mut data: Vec<u8> = Vec::new();
    data.extend_from_slice(a);
    data.extend_from_slice(b);
    data.extend_from_slice(c);
    assert(data@ =~= a@ + b@ + c@);
    keccak256(data.as_slice())
}

/// The digest of a byte string.
pub fn hash(data: &[u8]) -> (digest: H256)
    ensures
        digest@ == keccak256_digest(data@),
{
    keccak256(data)
}

/// The 32 bytes that stand for an integer: its little-endian encoding
/// followed by zeros.
pub open spec fn spec_to_bytes(value: u64) -> Seq<u8> {
    spec_u64_to_le_bytes(value) + zero_bytes(24)
}

/// The 32 bytes that stand for an integer.
pub fn to_bytes(value: u64) -> (h: H256)
    ensures
        h@ == spec_to_bytes(value),
{
    let le = u64_to_le_bytes(value);
    let mut out = [0u8; 32];
    let mut i: usize = 0;
    while i < 8
        invariant
            i <= 8,
            le@.len() == 8,
            forall|j: int| 0 <= j < i ==> out@[j] == le@[j],
            forall|j: int| i <= j < 32 ==> out@[j] == 0u8,
        decreases 8 - i,
    {
        out[i] = le[i];
        i += 1;
    }
    let h = H256 { bytes: out };
    assert(h@ =~= spec_to_bytes(value));
    h
}

/// Root of a single integer.
pub fn hash_u64(value: u64) -> (root: H256)
    ensures
        root@ == spec_hash_u64(value),
{
    let le = u64_to_le_bytes(value);
    let chunks = chunkify(le.as_slice());
    merkleize(&chunks)
}

/// Root of a single boolean.
pub fn hash_bool(value: bool) -> (root: H256)
    ensures
        root@ == spec_hash_bool(value),
{
    let mut encoded: Vec<u8> = Vec::new();
    encoded.push(
        if value {
            1u8
        } else {
            0u8
        },
    );
    assert(encoded@ =~= seq![if value {
        1u8
    } else {
        0u8
    }]);
    let chunks = chunkify(encoded.as_slice());
    merkleize(&chunks)
}

/// Root of a byte string of fixed length.
pub fn hash_fixed_bytes(bytes: &[u8]) -> (root: H256)
    ensures
        root@ == spec_hash_fixed_bytes(bytes@),
{
    let chunks = chunkify(bytes);
    merkleize(&chunks)
}

/// The low 32 bits of a length.
pub fn length_word(len: usize) -> (word: u32)
    ensures
        word == spec_length_word(len as nat),
{
    let wide: u64 = len as u64;
    (wide % 0x1_0000_0000u64) as u32
}

/// Root of a byte string of variable length.
pub fn hash_bytes(bytes: &[u8]) -> (root: H256)
    ensures
        root@ == spec_hash_bytes(bytes@),
{
    let chunks = chunkify(bytes);
    let root = merkleize(&chunks);
    mix_in_length(&root, length_word(bytes.len()))
}

/// The little-endian encodings of `values`, one after the other.
pub fn encode_u64s(values: &[u64]) -> (bytes: Vec<u8>)
    ensures
        bytes@ == spec_encode_u64s(values@),
{
    let mut bytes: Vec<u8> = Vec::new();
    let mut i: usize = 0;
    while i < values.len()
        invariant
            i <= values.len(),
            bytes@ == spec_encode_u64s(values@.take(i as int)),
        decreases values.len() - i,
    {
        let le = u64_to_le_bytes(values[i]);
        bytes.extend_from_slice(le.as_slice());
        proof {
            let next = values@.take(i + 1);
            assert(next.drop_last() =~= values@.take(i as int));
            assert(next.last() == values@[i as int]);
            assert(bytes@ =~= spec_encode_u64s(next.drop_last()) + spec_u64_to_le_bytes(
                next.last(),
            ));
        }
        i += 1;
    }
    assert(values@.take(i as int) =~= values@);
    bytes
}

/// Root of a fixed-length vector of integers.
pub fn hash_u64_vector(values: &[u64]) -> (root: H256)
    ensures
        root@ == spec_hash_u64_vector(values@),
{
    let bytes = encode_u64s(values);
    let chunks = chunkify(bytes.as_slice());
    merkleize(&chunks)
}

/// Root of a variable-length list of integers.
pub fn hash_u64_list(values: &[u64]) -> (root: H256)
    ensures
        root@ == spec_hash_u64_list(values@),
{
    let root = hash_u64_vector(values);
    mix_in_length(&root, length_word(values.len()))
}

/// Root of a container, or of a fixed-length vector of containers, from the
/// roots of its parts.
pub fn hash_container(parts: &Vec<H256>) -> (root: H256)
    ensures
        root@ == spec_hash_container(chunk_views(parts@)),
{
    merkleize(parts)
}

/// Root of a variable-length list of containers from the roots of its items.
pub fn hash_list(items: &Vec<H256>) -> (root: H256)
    ensures
        root@ == spec_hash_list(chunk_views(items@)),
{
    let root = merkleize(items);
    mix_in_length(&root, length_word(items.len()))
}

/// The root of each hash in `items`, taken as a 32-byte string.
pub fn hash_each(items: &[H256]) -> (roots: Vec<H256>)
    ensures
        chunk_views(roots@) == spec_hash_each(items@),
{
    let mut roots: Vec<H256> = Vec::new();
    let mut i: usize = 0;
    while i < items.len()
        invariant
            i <= items.len(),
            roots@.len() == i,
            forall|j: int| 0 <= j < i ==> roots@[j]@ == spec_hash_fixed_bytes(items@[j]@),
        decreases items.len() - i,
    {
        let root = hash_fixed_bytes(items[i].bytes.as_slice());
        roots.push(root);
        i += 1;
    }
    assert(chunk_views(roots@) =~= spec_hash_each(items@));
    roots
}

} // verus!
