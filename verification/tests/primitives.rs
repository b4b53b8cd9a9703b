use beacon::hashing::{hash, hash_fixed_bytes};
use beacon::primitives::{BitField, Signature, H256, H384};

#[test]
fn zero_values_are_zero() {
    assert_eq!(H256::zero().bytes, [0u8; 32]);
    assert_eq!(H384::zero().bytes, [0u8; 48]);
    assert_eq!(Signature::zero().bytes, [0u8; 96]);
    assert!(H256::zero().is_zero());
    assert!(H256::default().is_zero());
    let mut one = H256::zero();
    one.bytes[31] = 1;
    assert!(!one.is_zero());
}

#[test]
fn hashes_compare_by_their_bytes() {
    let a = H256 { bytes: [3u8; 32] };
    let mut b = H256 { bytes: [3u8; 32] };
    assert!(a == b);
    b.bytes[17] = 4;
    assert!(a != b);
    let s = Signature { bytes: [3u8; 96] };
    let mut t = Signature { bytes: [3u8; 96] };
    assert!(s == t);
    t.bytes[95] = 4;
    assert!(s != t);
    let k = H384 { bytes: [3u8; 48] };
    let mut l = H384 { bytes: [3u8; 48] };
    assert!(k == l);
    l.bytes[47] = 0;
    assert!(k != l);
}

#[test]
fn xor_is_byte_wise() {
    let a = H256 { bytes: [0b1100u8; 32] };
    let b = H256 { bytes: [0b1010u8; 32] };
    assert_eq!(a.xor(&b).bytes, [0b0110u8; 32]);
    assert!(a.xor(&a).is_zero());
}

#[test]
fn to_vec_gives_the_bytes() {
    assert_eq!(H256 { bytes: [1u8; 32] }.to_vec(), vec![1u8; 32]);
    assert_eq!(H384 { bytes: [2u8; 48] }.to_vec(), vec![2u8; 48]);
    assert_eq!(Signature { bytes: [3u8; 96] }.to_vec(), vec![3u8; 96]);
}

#[test]
fn a_key_is_read_from_the_front() {
    let mut input = Vec::new();
    for n in 0..60u8 {
        input.push(n);
    }
    let (key, taken) = H384::decode_as(&input).unwrap();
    assert_eq!(taken, 48);
    assert_eq!(key.bytes.to_vec(), input[..48].to_vec());
    assert!(H384::decode_as(&input[..47]).is_none());
    assert!(H384::decode_as(&[]).is_none());
    assert!(H384::decode_as(&input[..48]).is_some());
    assert!(!H384::prefixed());
}

#[test]
fn a_key_survives_the_round_trip() {
    let mut key = H384::zero();
    for (n, byte) in key.bytes.iter_mut().enumerate() {
        *byte = n as u8 + 1;
    }
    let mut encoded = vec![0xffu8];
    key.encode_to(&mut encoded);
    assert_eq!(encoded.len(), 49);
    assert_eq!(encoded[0], 0xff);
    let (decoded, taken) = H384::decode_as(&encoded[1..]).unwrap();
    assert_eq!(taken, 48);
    assert!(decoded == key);
}

#[test]
fn bit_field_counts_and_answers() {
    let field = BitField::new(vec![true, false, true]);
    assert_eq!(field.count(), 3);
    assert!(field.has_voted(0));
    assert!(!field.has_voted(1));
    assert!(field.has_voted(2));
    assert!(!field.has_voted(3));
    assert!(!field.is_clear());
    assert!(BitField::new(vec![false; 9]).is_clear());
    assert!(BitField::new(Vec::new()).is_clear());
    assert_eq!(field.copy().bits, vec![true, false, true]);
}

#[test]
fn bit_field_packs_low_bit_first() {
    assert_eq!(BitField::new(Vec::new()).to_bytes(), Vec::<u8>::new());
    assert_eq!(BitField::new(vec![true]).to_bytes(), vec![1]);
    assert_eq!(BitField::new(vec![false, true, true]).to_bytes(), vec![6]);
    assert_eq!(BitField::new(vec![true; 8]).to_bytes(), vec![255]);
    let mut nine = vec![false; 9];
    nine[7] = true;
    nine[8] = true;
    assert_eq!(BitField::new(nine).to_bytes(), vec![128, 1]);
}

#[test]
fn root_of_a_key_is_the_digest_of_its_two_chunks() {
    let key = H384 { bytes: [6u8; 48] };
    assert!(key.hash() == hash_fixed_bytes(&[6u8; 48]));
    let mut data = vec![6u8; 48];
    data.extend_from_slice(&[0u8; 16]);
    assert!(key.hash() == hash(&data));
}
