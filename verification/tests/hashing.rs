use beacon::hashing::{
    encode_u64s, hash, hash3, hash_bool, hash_bytes, hash_container, hash_each,
    hash_fixed_bytes, hash_list, hash_u64, hash_u64_list, hash_u64_vector, length_word, to_bytes,
};
use beacon::primitives::H256;

fn hex(h: &H256) -> String {
    h.bytes.iter().map(|b| format!("{:02x}", b)).collect()
}

fn chunk(fill: u8) -> H256 {
    H256 { bytes: [fill; 32] }
}

fn pair(a: &H256, b: &H256) -> H256 {
    let mut data = a.bytes.to_vec();
    data.extend_from_slice(&b.bytes);
    hash(&data)
}

#[test]
fn keccak_of_nothing() {
    assert_eq!(
        hex(&hash(&[])),
        "c5d2460186f7233c927e7db2dcc703c0e500b653ca82273b7bfad8045d85a470"
    );
}

#[test]
fn keccak_of_abc() {
    assert_eq!(
        hex(&hash(b"abc")),
        "4e03657aea45a94fc7d47ba826c8d667c0d1e6e33a64a036ec44f58fa12d6c45"
    );
}

#[test]
fn hash3_is_the_digest_of_the_three_strings_joined() {
    assert!(hash3(b"a", b"b", b"c") == hash(b"abc"));
    assert!(hash3(b"", b"abc", b"") == hash(b"abc"));
    assert!(hash3(b"ab", b"c", b"") != hash(b"acb"));
}

#[test]
fn to_bytes_is_little_endian_with_zeros() {
    let h = to_bytes(0x0102030405060708);
    let mut expected = [0u8; 32];
    expected[..8].copy_from_slice(&[8, 7, 6, 5, 4, 3, 2, 1]);
    assert_eq!(h.bytes, expected);
    assert!(to_bytes(0).is_zero());
}

#[test]
fn root_of_an_integer_is_its_chunk() {
    // A single chunk is its own root.
    let root = hash_u64(0x1122);
    let mut expected = [0u8; 32];
    expected[0] = 0x22;
    expected[1] = 0x11;
    assert_eq!(root.bytes, expected);
}

#[test]
fn root_of_a_boolean_is_its_chunk() {
    let mut expected = [0u8; 32];
    assert_eq!(hash_bool(false).bytes, expected);
    expected[0] = 1;
    assert_eq!(hash_bool(true).bytes, expected);
}

#[test]
fn root_of_two_chunks_is_the_digest_of_the_pair() {
    let a = chunk(1);
    let b = chunk(2);
    assert!(hash_container(&vec![a, b]) == pair(&a, &b));
    assert!(hash_container(&vec![a, b]) != pair(&b, &a));
}

#[test]
fn root_pads_to_a_power_of_two_with_zero_chunks() {
    let a = chunk(1);
    let b = chunk(2);
    let c = chunk(3);
    let expected = pair(&pair(&a, &b), &pair(&c, &H256::zero()));
    assert!(hash_container(&vec![a, b, c]) == expected);
    assert!(hash_container(&vec![a, b, c, H256::zero()]) == expected);
}

#[test]
fn root_of_no_chunk_is_the_zero_chunk() {
    assert!(hash_container(&Vec::new()).is_zero());
}

#[test]
fn fixed_bytes_are_cut_into_chunks() {
    // 48 bytes take two chunks, the second filled up with zeros.
    let bytes = [7u8; 48];
    let first = chunk(7);
    let mut second = [0u8; 32];
    second[..16].copy_from_slice(&[7u8; 16]);
    assert!(hash_fixed_bytes(&bytes) == pair(&first, &H256 { bytes: second }));
    // 32 bytes are their own root.
    assert_eq!(hash_fixed_bytes(&[9u8; 32]).bytes, [9u8; 32]);
}

#[test]
fn a_list_mixes_its_length_in() {
    // The root of the bytes, then the length in little-endian order, then
    // zeros up to 64 bytes.
    let bytes = [5u8; 3];
    let mut tree_root = [0u8; 32];
    tree_root[..3].copy_from_slice(&bytes);
    let mut data = tree_root.to_vec();
    data.extend_from_slice(&[3, 0, 0, 0]);
    data.extend_from_slice(&[0u8; 28]);
    assert!(hash_bytes(&bytes) == hash(&data));
    assert!(hash_bytes(&bytes) != H256 { bytes: tree_root });
}

#[test]
fn a_list_of_integers_is_packed() {
    let values = [1u64, 2, 3, 4, 5];
    assert_eq!(
        encode_u64s(&values),
        vec![
            1, 0, 0, 0, 0, 0, 0, 0, 2, 0, 0, 0, 0, 0, 0, 0, 3, 0, 0, 0, 0, 0, 0, 0, 4, 0, 0, 0, 0,
            0, 0, 0, 5, 0, 0, 0, 0, 0, 0, 0
        ]
    );
    // Four integers to the chunk: five take two chunks.
    let mut first = [0u8; 32];
    first[0] = 1;
    first[8] = 2;
    first[16] = 3;
    first[24] = 4;
    let mut second = [0u8; 32];
    second[0] = 5;
    let tree_root = pair(&H256 { bytes: first }, &H256 { bytes: second });
    assert!(hash_u64_vector(&values) == tree_root);
    let mut data = tree_root.bytes.to_vec();
    data.extend_from_slice(&[5, 0, 0, 0]);
    data.extend_from_slice(&[0u8; 28]);
    assert!(hash_u64_list(&values) == hash(&data));
}

#[test]
fn a_list_of_containers_mixes_its_length_in() {
    let a = chunk(1);
    let b = chunk(2);
    let mut data = pair(&a, &b).bytes.to_vec();
    data.extend_from_slice(&[2, 0, 0, 0]);
    data.extend_from_slice(&[0u8; 28]);
    assert!(hash_list(&vec![a, b]) == hash(&data));
}

#[test]
fn hash_each_leaves_a_hash_as_its_own_root() {
    let roots = hash_each(&[chunk(1), chunk(2)]);
    assert_eq!(roots.len(), 2);
    assert!(roots[0] == chunk(1));
    assert!(roots[1] == chunk(2));
}

#[test]
fn length_word_is_the_low_32_bits() {
    assert_eq!(length_word(0), 0);
    assert_eq!(length_word(77), 77);
    assert_eq!(length_word(0x1_0000_0005), 5);
}
