//! The swap-or-not shuffle and the split of its result into committees.
//!
//! Each round pairs every position with a partner, the same way from either
//! side, and lets one bit of a digest decide whether the pair trades places.
//! A round therefore undoes itself, and the rounds together permute the
//! positions.

use crate::consts::SHUFFLE_ROUND_COUNT;
use crate::hashing::{keccak256, keccak256_digest};
use crate::primitives::{ValidatorIndex, H256};
use crate::util::{epoch_committee_count, spec_epoch_committee_count};
use vstd::bytes::{
    spec_u32_to_le_bytes, spec_u64_from_le_bytes, u32_to_le_bytes, u64_from_le_bytes,
};
use vstd::prelude::*;
use vstd::slice::slice_subrange;

verus! {

/// The position round `round` mirrors the others around.
pub open spec fn spec_pivot(seed: Seq<u8>, round: u64, list_size: nat) -> nat {
    (spec_u64_from_le_bytes(keccak256_digest(seed + seq![round as u8]).subrange(0, 8)) as nat)
        % list_size
}

/// The partner of `index`: its mirror image around `pivot`, modulo
/// `list_size`.
pub open spec fn spec_flip(pivot: nat, index: nat, list_size: nat) -> nat {
    if index <= pivot {
        (pivot - index) as nat
    } else {
        (pivot + list_size - index) as nat
    }
}

/// The number of the 256-position block that holds `position`, as the four
/// bytes that enter the digest.
pub open spec fn spec_block_word(position: nat) -> u32 {
    ((position / 256) % 0x1_0000_0000) as u32
}

/// Whether bit `bit` of `byte` is set.
pub open spec fn spec_bit_is_set(byte: u8, bit: u8) -> bool {
    (byte >> bit) & 1u8 == 1u8
}

/// Whether the pair whose larger member is `position` trades places in
/// round `round`.
pub open spec fn spec_swaps(seed: Seq<u8>, round: u64, position: nat) -> bool {
    let source = keccak256_digest(
        seed + seq![round as u8] + spec_u32_to_le_bytes(spec_block_word(position)),
    );
    spec_bit_is_set(source[((position % 256) / 8) as int], (position % 8) as u8)
}

/// Where `index` stands after round `round`.
pub open spec fn spec_round(seed: Seq<u8>, round: u64, list_size: nat, index: nat) -> nat {
    let flip = spec_flip(spec_pivot(seed, round, list_size), index, list_size);
    let position = if index >= flip {
        index
    } else {
        flip
    };
    if spec_swaps(seed, round, position) {
        flip
    } else {
        index
    }
}

/// Where `index` stands after the first `rounds` rounds.
pub open spec fn spec_permuted_index_after(
    seed: Seq<u8>,
    list_size: nat,
    index: nat,
    rounds: nat,
) -> nat
    decreases rounds,
{
    if rounds == 0 {
        index
    } else {
        spec_round(
            seed,
            (rounds - 1) as u64,
            list_size,
            spec_permuted_index_after(seed, list_size, index, (rounds - 1) as nat),
        )
    }
}

/// Where `index` stands after all the rounds.
pub open spec fn spec_permuted_index(seed: Seq<u8>, list_size: nat, index: nat) -> nat {
    spec_permuted_index_after(seed, list_size, index, SHUFFLE_ROUND_COUNT as nat)
}

/// The position that the first `rounds` rounds send to `index`.
pub open spec fn spec_source_index_after(
    seed: Seq<u8>,
    list_size: nat,
    index: nat,
    rounds: nat,
) -> nat
    decreases rounds,
{
    if rounds == 0 {
        index
    } else {
        spec_source_index_after(
            seed,
            list_size,
            spec_round(seed, (rounds - 1) as u64, list_size, index),
            (rounds - 1) as nat,
        )
    }
}

/// The position that the shuffle sends to `index`.
pub open spec fn spec_source_index(seed: Seq<u8>, list_size: nat, index: nat) -> nat {
    spec_source_index_after(seed, list_size, index, SHUFFLE_ROUND_COUNT as nat)
}

/// `indices` shuffled: position `i` of the result holds the item that stood
/// at position `spec_permuted_index(seed, n, i)`.
pub open spec fn spec_shuffle(seed: Seq<u8>, indices: Seq<ValidatorIndex>) -> Seq<
    ValidatorIndex,
> {
    Seq::new(
        indices.len(),
        |i: int| indices[spec_permuted_index(seed, indices.len(), i as nat) as int],
    )
}

/// Where piece `i` of `split_count` pieces of a list of `len` items starts.
pub open spec fn spec_split_offset(len: nat, split_count: nat, i: nat) -> nat {
    (len * i) / split_count
}

/// `values` cut into `split_count` consecutive pieces whose lengths differ
/// by one at most.
pub open spec fn spec_split(values: Seq<ValidatorIndex>, split_count: nat) -> Seq<
    Seq<ValidatorIndex>,
> {
    Seq::new(
        split_count,
        |i: int|
            values.subrange(
                spec_split_offset(values.len(), split_count, i as nat) as int,
                spec_split_offset(values.len(), split_count, (i + 1) as nat) as int,
            ),
    )
}

/// The committees of an epoch: the active validators shuffled and cut into
/// as many committees as their number calls for.
pub open spec fn spec_shuffling(seed: Seq<u8>, active: Seq<ValidatorIndex>) -> Seq<
    Seq<ValidatorIndex>,
> {
    spec_split(spec_shuffle(seed, active), spec_epoch_committee_count(active.len()))
}

/// The pieces of a split follow one another inside the list.
pub proof fn lemma_split_offsets(len: nat, split_count: nat, i: nat)
    requires
        0 < split_count,
        i < split_count,
    ensures
        spec_split_offset(len, split_count, i) <= spec_split_offset(len, split_count, i + 1)
            <= len,
{
    assert(len * i <= len * (i + 1) <= len * split_count) by (nonlinear_arith)
        requires
            i + 1 <= split_count,
    ;
    vstd::arithmetic::div_mod::lemma_div_is_ordered(
        (len * i) as int,
        (len * (i + 1)) as int,
        split_count as int,
    );
    vstd::arithmetic::div_mod::lemma_div_is_ordered(
        (len * (i + 1)) as int,
        (len * split_count) as int,
        split_count as int,
    );
    vstd::arithmetic::div_mod::lemma_div_multiples_vanish(len as int, split_count as int);
    assert(len * split_count == split_count * len) by (nonlinear_arith);
}

/// A round keeps every position inside the list and undoes itself.
pub proof fn lemma_round_is_involution(seed: Seq<u8>, round: u64, list_size: nat, index: nat)
    requires
        index < list_size,
    ensures
        spec_round(seed, round, list_size, index) < list_size,
        spec_round(seed, round, list_size, spec_round(seed, round, list_size, index)) == index,
{
    let pivot = spec_pivot(seed, round, list_size);
    assert(pivot < list_size) by {
        vstd::arithmetic::div_mod::lemma_mod_bound(
            spec_u64_from_le_bytes(
                keccak256_digest(seed + seq![round as u8]).subrange(0, 8),
            ) as int,
            list_size as int,
        );
    }
    let flip = spec_flip(pivot, index, list_size);
    assert(flip < list_size);
    assert(spec_flip(pivot, flip, list_size) == index);
}

/// The rounds keep every position inside the list.
pub proof fn lemma_permuted_index_in_range(
    seed: Seq<u8>,
    list_size: nat,
    index: nat,
    rounds: nat,
)
    requires
        index < list_size,
    ensures
        spec_permuted_index_after(seed, list_size, index, rounds) < list_size,
        spec_source_index_after(seed, list_size, index, rounds) < list_size,
    decreases rounds,
{
    if rounds > 0 {
        lemma_permuted_index_in_range(seed, list_size, index, (rounds - 1) as nat);
        lemma_round_is_involution(
            seed,
            (rounds - 1) as u64,
            list_size,
            spec_permuted_index_after(seed, list_size, index, (rounds - 1) as nat),
        );
        lemma_round_is_involution(seed, (rounds - 1) as u64, list_size, index);
        lemma_permuted_index_in_range(
            seed,
            list_size,
            spec_round(seed, (rounds - 1) as u64, list_size, index),
            (rounds - 1) as nat,
        );
    }
}

/// Going back through the rounds undoes going forward, and the other way
/// round.
pub proof fn lemma_source_index_inverts(seed: Seq<u8>, list_size: nat, index: nat, rounds: nat)
    requires
        index < list_size,
    ensures
        spec_source_index_after(
            seed,
            list_size,
            spec_permuted_index_after(seed, list_size, index, rounds),
            rounds,
        ) == index,
        spec_permuted_index_after(
            seed,
            list_size,
            spec_source_index_after(seed, list_size, index, rounds),
            rounds,
        ) == index,
    decreases rounds,
{
    if rounds > 0 {
        let before = (rounds - 1) as nat;
        let round = (rounds - 1) as u64;
        let forward = spec_permuted_index_after(seed, list_size, index, before);
        lemma_permuted_index_in_range(seed, list_size, index, before);
        lemma_round_is_involution(seed, round, list_size, forward);
        lemma_source_index_inverts(seed, list_size, index, before);
        let stepped = spec_round(seed, round, list_size, index);
        lemma_round_is_involution(seed, round, list_size, index);
        lemma_source_index_inverts(seed, list_size, stepped, before);
    }
}

/// The shuffle is a bijection of the positions `0..list_size`: it keeps
/// every position inside the list, sends no two positions to one, and
/// reaches every position.
pub proof fn lemma_shuffle_is_bijection(seed: Seq<u8>, list_size: nat)
    ensures
        forall|i: nat| i < list_size ==> #[trigger] spec_permuted_index(seed, list_size, i)
            < list_size,
        forall|i: nat, j: nat|
            i < list_size && j < list_size && #[trigger] spec_permuted_index(seed, list_size, i)
                == #[trigger] spec_permuted_index(seed, list_size, j) ==> i == j,
        forall|k: nat|
            k < list_size ==> #[trigger] spec_source_index(seed, list_size, k) < list_size
                && spec_permuted_index(seed, list_size, spec_source_index(seed, list_size, k))
                == k,
{
    let rounds = SHUFFLE_ROUND_COUNT as nat;
    assert forall|i: nat| i < list_size implies #[trigger] spec_permuted_index(
        seed,
        list_size,
        i,
    ) < list_size by {
        lemma_permuted_index_in_range(seed, list_size, i, rounds);
    }
    assert forall|i: nat, j: nat|
        i < list_size && j < list_size && #[trigger] spec_permuted_index(seed, list_size, i)
            == #[trigger] spec_permuted_index(seed, list_size, j) implies i == j by {
        lemma_source_index_inverts(seed, list_size, i, rounds);
        lemma_source_index_inverts(seed, list_size, j, rounds);
    }
    assert forall|k: nat| k < list_size implies #[trigger] spec_source_index(seed, list_size, k)
        < list_size && spec_permuted_index(seed, list_size, spec_source_index(seed, list_size, k))
        == k by {
        lemma_permuted_index_in_range(seed, list_size, k, rounds);
        lemma_source_index_inverts(seed, list_size, k, rounds);
    }
}

/// Shuffling the list `0, 1, .., n - 1` gives a list of the same length in
/// which every one of those numbers occurs, and none of them twice.
pub proof fn lemma_shuffle_permutes_range(seed: Seq<u8>, n: nat)
    requires
        n <= u64::MAX,
    ensures
        ({
            let identity = Seq::new(n, |i: int| i as u64);
            let shuffled = spec_shuffle(seed, identity);
            &&& shuffled.len() == n
            &&& forall|i: int| 0 <= i < n ==> 0 <= #[trigger] shuffled[i] < n
            &&& forall|i: int, j: int|
                0 <= i < n && 0 <= j < n && #[trigger] shuffled[i] == #[trigger] shuffled[j] ==> i
                    == j
            &&& forall|k: u64| k < n ==> #[trigger] shuffled.contains(k)
        }),
{
    let identity = Seq::new(n, |i: int| i as u64);
    let shuffled = spec_shuffle(seed, identity);
    lemma_shuffle_is_bijection(seed, n);
    assert forall|i: int| 0 <= i < n implies shuffled[i] == spec_permuted_index(
        seed,
        n,
        i as nat,
    ) by {
        assert(spec_permuted_index(seed, n, i as nat) < n);
    }
    assert forall|i: int| 0 <= i < n implies 0 <= #[trigger] shuffled[i] < n by {
        assert(spec_permuted_index(seed, n, i as nat) < n);
    }
    assert forall|i: int, j: int|
        0 <= i < n && 0 <= j < n && #[trigger] shuffled[i] == #[trigger] shuffled[j] implies i
        == j by {
        assert(spec_permuted_index(seed, n, i as nat) == spec_permuted_index(seed, n, j as nat));
    }
    assert forall|k: u64| k < n implies #[trigger] shuffled.contains(k) by {
        let i = spec_source_index(seed, n, k as nat) as int;
        assert(spec_source_index(seed, n, k as nat) < n);
        assert(shuffled[i] == k);
    }
}

/// Where `index` stands after round `round`.
fn permute_round(seed: &H256, round: u64, list_size: u64, index: u64) -> (moved: u64)
    requires
        index < list_size,
        round < 256,
    ensures
        moved == spec_round(seed@, round, list_size as nat, index as nat),
        moved < list_size,
{
    let mut pivot_input: Vec<u8> = seed.to_vec();
    pivot_input.push(round as u8);
    assert(pivot_input@ =~= seed@ + seq![round as u8]);
    let pivot_digest = keccak256(pivot_input.as_slice());
    let pivot: u64 = u64_from_le_bytes(slice_subrange(pivot_digest.bytes.as_slice(), 0, 8))
        % list_size;
    let flip: u64 = if index <= pivot {
        pivot - index
    } else {
        list_size - (index - pivot)
    };
    let position: u64 = if index >= flip {
        index
    } else {
        flip
    };
    let block: u32 = ((position / 256) % 0x1_0000_0000u64) as u32;
    let block_bytes = u32_to_le_bytes(block);
    let mut source_input: Vec<u8> = seed.to_vec();
    source_input.push(round as u8);
    source_input.extend_from_slice(block_bytes.as_slice());
    assert(source_input@ =~= seed@ + seq![round as u8] + spec_u32_to_le_bytes(
        spec_block_word(position as nat),
    ));
    let source = keccak256(source_input.as_slice());
    let byte: u8 = source.bytes[((position % 256) / 8) as usize];
    let bit: u8 = (position % 8) as u8;
    if (byte >> bit) & 1u8 == 1u8 {
        flip
    } else {
        index
    }
}

/// Where `index` stands after the shuffle of a list of `list_size` items.
pub fn permuted_index(index: u64, list_size: u64, seed: &H256) -> (moved: u64)
    requires
        index < list_size,
    ensures
        moved == spec_permuted_index(seed@, list_size as nat, index as nat),
        moved < list_size,
{
    let mut current: u64 = index;
    let mut round: u64 = 0;
    while round < SHUFFLE_ROUND_COUNT
        invariant
            round <= SHUFFLE_ROUND_COUNT,
            current < list_size,
            current == spec_permuted_index_after(
                seed@,
                list_size as nat,
                index as nat,
                round as nat,
            ),
        decreases SHUFFLE_ROUND_COUNT - round,
    {
        current = permute_round(seed, round, list_size, current);
        round += 1;
    }
    current
}

/// `indices` shuffled by `seed`.
pub fn shuffle(seed: &H256, indices: &[ValidatorIndex]) -> (shuffled: Vec<ValidatorIndex>)
    ensures
        shuffled@ == spec_shuffle(seed@, indices@),
{
    let n: usize = indices.len();
    let mut shuffled: Vec<ValidatorIndex> = Vec::new();
    let mut i: usize = 0;
    while i < n
        invariant
            i <= n,
            n == indices@.len(),
            shuffled@.len() == i,
            forall|j: int|
                0 <= j < i ==> shuffled@[j] == indices@[spec_permuted_index(
                    seed@,
                    n as nat,
                    j as nat,
                ) as int],
        decreases n - i,
    {
        let from = permuted_index(i as u64, n as u64, seed);
        shuffled.push(indices[from as usize]);
        i += 1;
    }
    assert(shuffled@ =~= spec_shuffle(seed@, indices@));
    shuffled
}

/// Where piece `i` of `split_count` pieces of a list of `len` items starts.
fn split_offset(len: usize, split_count: usize, i: usize) -> (offset: usize)
    requires
        0 < split_count,
        i <= split_count,
    ensures
        offset == spec_split_offset(len as nat, split_count as nat, i as nat),
        offset <= len,
{
    assert(len * i <= 0xffff_ffff_ffff_ffff * 0xffff_ffff_ffff_ffff) by (nonlinear_arith)
        requires
            0 <= len <= 0xffff_ffff_ffff_ffff,
            0 <= i <= 0xffff_ffff_ffff_ffff,
    ;
    let product: u128 = (len as u128) * (i as u128);
    let offset: u128 = product / (split_count as u128);
    proof {
        if i > 0 {
            lemma_split_offsets(len as nat, split_count as nat, (i - 1) as nat);
        }
    }
    offset as usize
}

/// `values` cut into `split_count` consecutive pieces.
pub fn split(values: &[ValidatorIndex], split_count: usize) -> (pieces: Vec<Vec<ValidatorIndex>>)
    requires
        0 < split_count,
    ensures
        pieces@.len() == split_count,
        forall|i: int| 0 <= i < split_count ==> #[trigger] pieces@[i]@ == spec_split(
            values@,
            split_count as nat,
        )[i],
{
    let mut pieces: Vec<Vec<ValidatorIndex>> = Vec::new();
    let mut i: usize = 0;
    while i < split_count
        invariant
            i <= split_count,
            0 < split_count,
            pieces@.len() == i,
            forall|j: int| 0 <= j < i ==> #[trigger] pieces@[j]@ == spec_split(
                values@,
                split_count as nat,
            )[j],
        decreases split_count - i,
    {
        let start = split_offset(values.len(), split_count, i);
        let end = split_offset(values.len(), split_count, i + 1);
        proof {
            lemma_split_offsets(values@.len(), split_count as nat, i as nat);
        }
        let piece = vstd::slice::slice_to_vec(slice_subrange(values, start, end));
        pieces.push(piece);
        i += 1;
    }
    pieces
}

/// The committees of an epoch: the active validators shuffled and cut into
/// as many committees as their number calls for.
pub fn shuffling(seed: &H256, active: Vec<ValidatorIndex>) -> (committees: Vec<
    Vec<ValidatorIndex>,
>)
    ensures
        committees@.len() == spec_epoch_committee_count(active@.len()),
        forall|i: int| 0 <= i < committees@.len() ==> #[trigger] committees@[i]@ == spec_shuffling(
            seed@,
            active@,
        )[i],
{
    let shuffled = shuffle(seed, active.as_slice());
    split(shuffled.as_slice(), epoch_committee_count(active.len()))
}

} // verus!
