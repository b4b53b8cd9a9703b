use beacon::casper::CasperProcess;
use beacon::checked::{AttestationContext, UncheckedAttestation, UnsignedAttestation};
use beacon::genesis_config::GenesisConfig;
use beacon::primitives::{Signature, H256, H384};
use beacon::storage::{
    add_balance, find_record, note_parent_hash, penalize_validator, slot_to_epoch, sub_balance,
    PendingAttestations, UncheckedExtrinsics, ValidatorRecord, Validators, CYCLE_LENGTH,
    SLOT_DURATION,
};
use std::collections::HashMap;

fn key(n: u8) -> H384 {
    H384 { bytes: [n; 48] }
}

fn record(n: u8, balance: u64) -> Option<ValidatorRecord> {
    Some(ValidatorRecord {
        valid_from: 0,
        valid_to: u64::MAX,
        balance,
        validator_id: key(n),
        randao_commitment: H256::zero(),
        randao_last_reveal_slot: 0,
    })
}

fn balances(validators: &[Option<ValidatorRecord>]) -> Vec<Option<u64>> {
    validators.iter().map(|v| v.map(|r| r.balance)).collect()
}

#[test]
fn storage_keys() {
    assert_eq!(Validators::prefix(), b"sys:validators".to_vec());
    assert_eq!(PendingAttestations::prefix(), b"sys:pendingattestations".to_vec());
    assert_eq!(UncheckedExtrinsics::prefix(), b"sys:extrinsics".to_vec());
}

#[test]
fn parent_hash_is_noted_for_the_slots_passed() {
    let mut hashes = HashMap::new();
    hashes.insert(3, H256 { bytes: [1; 32] });
    hashes.insert(5, H256 { bytes: [1; 32] });
    let parent = H256 { bytes: [2; 32] };
    note_parent_hash(&mut hashes, 5, 8, parent);
    assert_eq!(hashes.len(), 4);
    assert_eq!(hashes[&3].bytes, [1u8; 32]);
    assert_eq!(hashes[&5].bytes, [2u8; 32]);
    assert_eq!(hashes[&6].bytes, [2u8; 32]);
    assert_eq!(hashes[&7].bytes, [2u8; 32]);
    assert!(!hashes.contains_key(&8));
    // No slot has passed.
    note_parent_hash(&mut hashes, 9, 9, parent);
    note_parent_hash(&mut hashes, 12, 9, parent);
    assert_eq!(hashes.len(), 4);
}

#[test]
fn balance_is_added_to_the_first_record_of_a_validator() {
    let mut validators = vec![None, record(1, 10), record(2, 20), record(1, 30)];
    add_balance(&mut validators, &key(1), 5);
    assert_eq!(balances(&validators), vec![None, Some(15), Some(20), Some(30)]);
    add_balance(&mut validators, &key(2), 1);
    assert_eq!(balances(&validators), vec![None, Some(15), Some(21), Some(30)]);
    add_balance(&mut validators, &key(9), 1);
    assert_eq!(balances(&validators), vec![None, Some(15), Some(21), Some(30)]);
    assert_eq!(find_record(&validators, &key(1)), Some(1));
    assert_eq!(find_record(&validators, &key(2)), Some(2));
    assert_eq!(find_record(&validators, &key(9)), None);
}

#[test]
fn balance_is_taken_from_a_validator() {
    let mut validators = vec![record(1, 10), None, record(2, 20)];
    sub_balance(&mut validators, &key(2), 20);
    assert_eq!(balances(&validators), vec![Some(10), None, Some(0)]);
    sub_balance(&mut validators, &key(1), 3);
    assert_eq!(balances(&validators), vec![Some(7), None, Some(0)]);
    sub_balance(&mut validators, &key(9), 3);
    assert_eq!(balances(&validators), vec![Some(7), None, Some(0)]);
    assert_eq!(validators[0].unwrap().valid_to, u64::MAX);
}

#[test]
fn penalty_ends_the_time_of_a_validator() {
    let mut validators = vec![record(1, 10), record(2, 20)];
    penalize_validator(&mut validators, &key(2), 8, 42);
    assert_eq!(balances(&validators), vec![Some(10), Some(12)]);
    assert_eq!(validators[1].unwrap().valid_to, 10);
    assert_eq!(validators[1].unwrap().valid_from, 0);
    assert_eq!(validators[0].unwrap().valid_to, u64::MAX);
    penalize_validator(&mut validators, &key(7), 8, 42);
    assert_eq!(balances(&validators), vec![Some(10), Some(12)]);
}

#[test]
fn runtime_epochs_are_cycles() {
    assert_eq!(CYCLE_LENGTH, 4);
    assert_eq!(SLOT_DURATION, 12);
    assert_eq!(slot_to_epoch(0), 0);
    assert_eq!(slot_to_epoch(3), 0);
    assert_eq!(slot_to_epoch(4), 1);
    assert_eq!(slot_to_epoch(42), 10);
}

#[test]
fn genesis_config_gives_slot_records_and_engine() {
    let config = GenesisConfig {
        authorities: vec![
            (key(1), 100, H256 { bytes: [1; 32] }),
            (key(2), 200, H256 { bytes: [2; 32] }),
        ],
        code: vec![1, 2, 3],
        timestamp: 1000,
    };
    // 1000 / 12 = 83, moved back to the start of its cycle: 80.
    assert_eq!(config.genesis_slot(), 80);
    assert_eq!(config.authority_count(), 2);
    let records = config.validator_records();
    assert_eq!(records.len(), 2);
    let second = records[1].unwrap();
    assert_eq!(second.valid_from, 0);
    assert_eq!(second.valid_to, u64::MAX);
    assert_eq!(second.balance, 200);
    assert!(second.validator_id == key(2));
    assert_eq!(second.randao_commitment.bytes, [2u8; 32]);
    assert_eq!(second.randao_last_reveal_slot, 80);
    assert!(records[0].unwrap().validator_id == key(1));
    assert_eq!(config.casper_process(), CasperProcess::new(20));

    let empty = GenesisConfig { authorities: Vec::new(), code: Vec::new(), timestamp: 0 };
    assert_eq!(empty.genesis_slot(), 0);
    assert_eq!(empty.authority_count(), 0);
    assert!(empty.validator_records().is_empty());
}

fn unsigned(indexes: Vec<u32>) -> UnsignedAttestation {
    UnsignedAttestation {
        slot: 1,
        slot_block_hash: H256::zero(),
        source_epoch: 2,
        source_epoch_block_hash: H256::zero(),
        target_epoch: 3,
        target_epoch_block_hash: H256::zero(),
        validator_indexes: indexes,
    }
}

#[test]
fn unsigned_attestations_compare_by_value() {
    assert!(unsigned(vec![1, 2]).same(&unsigned(vec![1, 2])));
    assert!(!unsigned(vec![1, 2]).same(&unsigned(vec![2, 1])));
    assert!(!unsigned(vec![1, 2]).same(&unsigned(vec![1])));
    let mut other = unsigned(vec![1, 2]);
    other.target_epoch_block_hash = H256 { bytes: [1; 32] };
    assert!(!unsigned(vec![1, 2]).same(&other));
    let mut other = unsigned(vec![1, 2]);
    other.slot = 9;
    assert!(!unsigned(vec![1, 2]).same(&other));
}

#[test]
fn unchecked_attestation_knows_its_validators() {
    let attestation =
        UncheckedAttestation { data: unsigned(vec![4, 7]), signature: Signature::zero() };
    assert!(attestation.has_validator(4));
    assert!(attestation.has_validator(7));
    assert!(!attestation.has_validator(5));
    assert_eq!(AttestationContext, AttestationContext);
}
