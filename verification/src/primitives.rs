//! Fixed-width byte strings and the vote bit field.

use crate::hashing::{hash_fixed_bytes, spec_hash_fixed_bytes};
use vstd::prelude::*;

verus! {

/// Slot number.
pub type Slot = u64;

/// Epoch number.
pub type Epoch = u64;

/// Shard number.
pub type Shard = u64;

/// Position of a validator in the registry.
pub type ValidatorIndex = u64;

/// Amount in gwei.
pub type Gwei = u64;

/// Seconds since the Unix epoch.
pub type Timestamp = u64;

/// A sequence of `n` zero bytes.
pub open spec fn zero_bytes(n: nat) -> Seq<u8> {
    Seq::new(n, |i: int| 0u8)
}

/// A 32-byte hash.
#[derive(Clone, Copy, Debug)]
pub struct H256 {
    pub bytes: [u8; 32],
}

impl View for H256 {
    type V = Seq<u8>;

    open spec fn view(&self) -> Seq<u8> {
        self.bytes@
    }
}

/// The hash that holds `bytes`, for a string of 32 bytes.
pub open spec fn spec_h256(bytes: Seq<u8>) -> H256 {
    choose|h: H256| h@ == bytes
}

/// A hash is the hash that holds its bytes, and two hashes with the same
/// bytes are one.
pub proof fn lemma_h256_of_view(h: H256)
    ensures
        spec_h256(h@) == h,
        spec_h256(h@)@ == h@,
{
    let found = spec_h256(h@);
    assert(found@ == h@);
    assert(found.bytes =~= h.bytes);
}

impl H256 {
    /// The hash whose bytes are all zero.
    pub fn zero() -> (h: H256)
        ensures
            h@ == zero_bytes(32),
    {
        let h = H256 { bytes: [0u8; 32] };
        assert(h@ =~= zero_bytes(32));
        h
    }

    /// Whether every byte is zero.
    pub fn is_zero(&self) -> (r: bool)
        ensures
            r == (self@ == zero_bytes(32)),
    {
        let mut i: usize = 0;
        while i < 32
            invariant
                i <= 32,
                forall|j: int| 0 <= j < i ==> self@[j] == 0u8,
            decreases 32 - i,
        {
            if self.bytes[i] != 0 {
                assert(zero_bytes(32)[i as int] == 0u8);
                return false;
            }
            i += 1;
        }
        assert(self@ =~= zero_bytes(32));
        true
    }

    /// The bytes as a vector.
    pub fn to_vec(&self) -> (v: Vec<u8>)
        ensures
            v@ == self@,
    {
        vstd::slice::slice_to_vec(self.bytes.as_slice())
    }

    /// Byte-wise exclusive or.
    pub fn xor(&self, other: &H256) -> (h: H256)
        ensures
            h@.len() == 32,
            forall|i: int| 0 <= i < 32 ==> h@[i] == self@[i] ^ other@[i],
    {
        let mut out = [0u8; 32];
        let mut i: usize = 0;
        while i < 32
            invariant
                i <= 32,
                forall|j: int| 0 <= j < i ==> out@[j] == self@[j] ^ other@[j],
            decreases 32 - i,
        {
            out[i] = self.bytes[i] ^ other.bytes[i];
            i += 1;
        }
        H256 { bytes: out }
    }
}

impl Default for H256 {
    fn default() -> (h: H256)
        ensures
            h@ == zero_bytes(32),
    {
        H256::zero()
    }
}

impl PartialEq for H256 {
    fn eq(&self, other: &H256) -> (r: bool) {
        let mut i: usize = 0;
        while i < 32
            invariant
                i <= 32,
                forall|j: int| 0 <= j < i ==> self@[j] == other@[j],
            decreases 32 - i,
        {
            if self.bytes[i] != other.bytes[i] {
                return false;
            }
            i += 1;
        }
        assert(self@ =~= other@);
        true
    }
}

impl Eq for H256 {

}

impl vstd::std_specs::cmp::PartialEqSpecImpl for H256 {
    open spec fn obeys_eq_spec() -> bool {
        true
    }

    open spec fn eq_spec(&self, other: &H256) -> bool {
        self@ == other@
    }
}

/// A 48-byte validator public key.
#[derive(Clone, Copy, Debug)]
pub struct H384 {
    pub bytes: [u8; 48],
}

/// A validator is identified by its public key.
pub type ValidatorId = H384;

impl View for H384 {
    type V = Seq<u8>;

    open spec fn view(&self) -> Seq<u8> {
        self.bytes@
    }
}

impl H384 {
    /// The key whose bytes are all zero.
    pub fn zero() -> (h: H384)
        ensures
            h@ == zero_bytes(48),
    {
        let h = H384 { bytes: [0u8; 48] };
        assert(h@ =~= zero_bytes(48));
        h
    }

    /// The bytes as a vector.
    pub fn to_vec(&self) -> (v: Vec<u8>)
        ensures
            v@ == self@,
    {
        vstd::slice::slice_to_vec(self.bytes.as_slice())
    }

    /// The key at the front of `input` and the number of bytes it takes,
    /// or `None` where `input` is shorter than a key.
    pub open spec fn spec_decode_as(input: Seq<u8>) -> Option<(Seq<u8>, nat)> {
        if input.len() < 48 {
            None
        } else {
            Some((input.subrange(0, 48), 48))
        }
    }

    /// Whether the serialized key carries its length in front: it does
    /// not.
    pub fn prefixed() -> (r: bool)
        ensures
            !r,
    {
        false
    }

    /// Appends the serialized key to `dest`: its 48 bytes, with no length
    /// in front.
    pub fn encode_to(&self, dest: &mut Vec<u8>)
        ensures
            final(dest)@ == old(dest)@ + self@,
    {
        dest.extend_from_slice(self.bytes.as_slice());
        assert(dest@ =~= old(dest)@ + self@);
    }

    /// The root of the key: that of its 48 bytes.
    pub fn hash(&self) -> (root: H256)
        ensures
            root@ == spec_hash_fixed_bytes(self@),
    {
        hash_fixed_bytes(self.bytes.as_slice())
    }

    /// Reads a key from the front of `input`: the first 48 bytes and the
    /// number of bytes taken, or `None` when `input` is shorter than that.
    pub fn decode_as(input: &[u8]) -> (r: Option<(H384, usize)>)
        ensures
            match H384::spec_decode_as(input@) {
                Some((bytes, taken)) => r matches Some((h, n)) && n == taken && h@ == bytes,
                None => r is None,
            },
    {
        if input.len() < 48 {
            return None;
        }
        let mut out = [0u8; 48];
        let mut i: usize = 0;
        while i < 48
            invariant
                i <= 48,
                input@.len() >= 48,
                forall|j: int| 0 <= j < i ==> out@[j] == input@[j],
            decreases 48 - i,
        {
            out[i] = input[i];
            i += 1;
        }
        let h = H384 { bytes: out };
        assert(h@ =~= input@.subrange(0, 48));
        Some((h, 48))
    }
}

/// Reading a serialized key gives the key back, whatever follows it.
pub proof fn lemma_h384_round_trip(id: H384, rest: Seq<u8>)
    ensures
        H384::spec_decode_as(id@ + rest) == Some((id@, 48nat)),
{
    assert((id@ + rest).subrange(0, 48) =~= id@);
}

impl Default for H384 {
    fn default() -> (h: H384)
        ensures
            h@ == zero_bytes(48),
    {
        H384::zero()
    }
}

impl PartialEq for H384 {
    fn eq(&self, other: &H384) -> (r: bool) {
        let mut i: usize = 0;
        while i < 48
            invariant
                i <= 48,
                forall|j: int| 0 <= j < i ==> self@[j] == other@[j],
            decreases 48 - i,
        {
            if self.bytes[i] != other.bytes[i] {
                return false;
            }
            i += 1;
        }
        assert(self@ =~= other@);
        true
    }
}

impl Eq for H384 {

}

impl vstd::std_specs::cmp::PartialEqSpecImpl for H384 {
    open spec fn obeys_eq_spec() -> bool {
        true
    }

    open spec fn eq_spec(&self, other: &H384) -> bool {
        self@ == other@
    }
}

/// A 96-byte aggregate signature.
#[derive(Clone, Copy, Debug)]
pub struct Signature {
    pub bytes: [u8; 96],
}

impl View for Signature {
    type V = Seq<u8>;

    open spec fn view(&self) -> Seq<u8> {
        self.bytes@
    }
}

/// The signature that holds `bytes`, for a string of 96 bytes.
pub open spec fn spec_signature(bytes: Seq<u8>) -> Signature {
    choose|s: Signature| s@ == bytes
}

/// A signature is the signature that holds its bytes.
pub proof fn lemma_signature_of_view(s: Signature)
    ensures
        spec_signature(s@) == s,
{
    let found = spec_signature(s@);
    assert(found@ == s@);
    assert(found.bytes =~= s.bytes);
}

impl Signature {
    /// The signature whose bytes are all zero.
    pub fn zero() -> (s: Signature)
        ensures
            s@ == zero_bytes(96),
    {
        let s = Signature { bytes: [0u8; 96] };
        assert(s@ =~= zero_bytes(96));
        s
    }

    /// The bytes as a vector.
    pub fn to_vec(&self) -> (v: Vec<u8>)
        ensures
            v@ == self@,
    {
        vstd::slice::slice_to_vec(self.bytes.as_slice())
    }
}

impl PartialEq for Signature {
    fn eq(&self, other: &Signature) -> (r: bool) {
        let mut i: usize = 0;
        while i < 96
            invariant
                i <= 96,
                forall|j: int| 0 <= j < i ==> self@[j] == other@[j],
            decreases 96 - i,
        {
            if self.bytes[i] != other.bytes[i] {
                return false;
            }
            i += 1;
        }
        assert(self@ =~= other@);
        true
    }
}

impl Eq for Signature {

}

impl vstd::std_specs::cmp::PartialEqSpecImpl for Signature {
    open spec fn obeys_eq_spec() -> bool {
        true
    }

    open spec fn eq_spec(&self, other: &Signature) -> bool {
        self@ == other@
    }
}

impl Default for Signature {
    fn default() -> (s: Signature)
        ensures
            s@ == zero_bytes(96),
    {
        Signature::zero()
    }
}

/// One bit per committee member, in committee order.
#[derive(Debug)]
pub struct BitField {
    pub bits: Vec<bool>,
}

impl View for BitField {
    type V = Seq<bool>;

    open spec fn view(&self) -> Seq<bool> {
        self.bits@
    }
}

impl BitField {
    /// A field of `bits`.
    pub fn new(bits: Vec<bool>) -> (b: BitField)
        ensures
            b@ == bits@,
    {
        BitField { bits }
    }

    /// Number of bits in the field.
    pub fn count(&self) -> (n: usize)
        ensures
            n == self@.len(),
    {
        self.bits.len()
    }

    /// Whether position `index` exists and is set.
    pub open spec fn spec_has_voted(&self, index: int) -> bool {
        0 <= index < self@.len() && self@[index]
    }

    /// Whether position `index` exists and is set.
    pub fn has_voted(&self, index: usize) -> (r: bool)
        ensures
            r == self.spec_has_voted(index as int),
    {
        index < self.bits.len() && self.bits[index]
    }

    /// Whether no bit is set.
    pub fn is_clear(&self) -> (r: bool)
        ensures
            r == (forall|i: int| 0 <= i < self@.len() ==> !self@[i]),
    {
        let mut i: usize = 0;
        while i < self.bits.len()
            invariant
                i <= self.bits.len(),
                forall|j: int| 0 <= j < i ==> !self@[j],
            decreases self.bits.len() - i,
        {
            if self.bits[i] {
                assert(self@[i as int]);
                return false;
            }
            i += 1;
        }
        true
    }

    /// A copy of the field.
    pub fn copy(&self) -> (b: BitField)
        ensures
            b@ == self@,
    {
        BitField { bits: vstd::slice::slice_to_vec(self.bits.as_slice()) }
    }
}

/// The value that bit `index` of a field adds to its byte: `weight` when
/// the bit exists and is set, and nothing otherwise.
pub open spec fn spec_bit_weight(bits: Seq<bool>, index: int, weight: u8) -> u8 {
    if 0 <= index < bits.len() && bits[index] {
        weight
    } else {
        0u8
    }
}

/// Byte `j` of a packed field: bit `8 * j + k` of the field is bit `k` of
/// the byte, counted from the least significant.
pub open spec fn spec_packed_byte(bits: Seq<bool>, j: int) -> u8 {
    (spec_bit_weight(bits, 8 * j, 1) + spec_bit_weight(bits, 8 * j + 1, 2) + spec_bit_weight(
        bits,
        8 * j + 2,
        4,
    ) + spec_bit_weight(bits, 8 * j + 3, 8) + spec_bit_weight(bits, 8 * j + 4, 16)
        + spec_bit_weight(bits, 8 * j + 5, 32) + spec_bit_weight(bits, 8 * j + 6, 64)
        + spec_bit_weight(bits, 8 * j + 7, 128)) as u8
}

/// A field packed into bytes, eight bits to the byte.
pub open spec fn spec_packed_bytes(bits: Seq<bool>) -> Seq<u8> {
    Seq::new(((bits.len() + 7) / 8) as nat, |j: int| spec_packed_byte(bits, j))
}

impl BitField {
    /// The value that bit `base + offset` adds to its byte.
    fn bit_weight(&self, base: usize, offset: usize, weight: u8) -> (w: u8)
        requires
            base <= self@.len(),
        ensures
            w == spec_bit_weight(self@, base + offset, weight),
    {
        if offset < self.bits.len() - base && self.bits[base + offset] {
            weight
        } else {
            0u8
        }
    }

    /// The field packed into bytes, eight bits to the byte.
    pub fn to_bytes(&self) -> (bytes: Vec<u8>)
        ensures
            bytes@ == spec_packed_bytes(self@),
    {
        let len = self.bits.len();
        let count: usize = len / 8 + if len % 8 != 0 {
            1
        } else {
            0
        };
        let mut bytes: Vec<u8> = Vec::new();
        let mut j: usize = 0;
        while j < count
            invariant
                j <= count,
                len == self@.len(),
                count == (len + 7) / 8,
                bytes@.len() == j,
                forall|k: int| 0 <= k < j ==> bytes@[k] == spec_packed_byte(self@, k),
            decreases count - j,
        {
            let base: usize = 8 * j;
            let byte: u8 = self.bit_weight(base, 0, 1) + self.bit_weight(base, 1, 2)
                + self.bit_weight(base, 2, 4) + self.bit_weight(base, 3, 8) + self.bit_weight(
                base,
                4,
                16,
            ) + self.bit_weight(base, 5, 32) + self.bit_weight(base, 6, 64) + self.bit_weight(
                base,
                7,
                128,
            );
            bytes.push(byte);
            j += 1;
        }
        assert(bytes@ =~= spec_packed_bytes(self@));
        bytes
    }
}

} // verus!
