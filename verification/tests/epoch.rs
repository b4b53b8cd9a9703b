use beacon::attestation::{AttestationData, Crosslink, PendingAttestation};
use beacon::casper::CasperProcess;
use beacon::consts::{GENESIS_EPOCH, MAX_DEPOSIT_AMOUNT};
use beacon::eth1::Eth1Data;
use beacon::hashing::hash_u64_list;
use beacon::primitives::{BitField, H256, H384};
use beacon::state::BeaconState;
use beacon::validator::Validator;

fn state_with(count: u64) -> BeaconState {
    let mut state = BeaconState::genesis(
        Vec::new(),
        0,
        Eth1Data { deposit_root: H256::zero(), block_hash: H256::zero() },
    )
    .unwrap();
    for n in 0..count {
        let mut bytes = [0u8; 48];
        bytes[0] = n as u8;
        let mut validator = Validator::new(H384 { bytes }, H256::zero());
        validator.activation_epoch = GENESIS_EPOCH;
        state.validator_registry.push(validator);
        state.validator_balances.push(MAX_DEPOSIT_AMOUNT);
    }
    state
}

fn pending(slot: u64) -> PendingAttestation {
    PendingAttestation {
        aggregation_bitfield: BitField::new(vec![true, false]),
        data: AttestationData {
            slot,
            shard: 0,
            beacon_block_root: H256::zero(),
            source_epoch: 0,
            source_root: H256::zero(),
            target_root: H256::zero(),
            crosslink_data_root: H256::zero(),
            previous_crosslink: Crosslink { epoch: 0, crosslink_data_root: H256::zero() },
        },
        custody_bitfield: BitField::new(vec![false, false]),
        inclusion_slot: slot + 4,
    }
}

#[test]
fn finality_fields_follow_the_engine() {
    let mut state = state_with(1);
    state.slot = 64 * 5;
    state.justification_bitfield = 0b11;
    state.justified_epoch = 4;
    state.previous_justified_epoch = 3;
    state.finalized_epoch = 2;
    let engine = state.finality();
    assert_eq!(
        engine,
        CasperProcess {
            justification_bitfield: 0b11,
            epoch: 5,
            justified_epoch: 4,
            finalized_epoch: 2,
            previous_justified_epoch: 3,
        }
    );
    state.update_finality(false, true);
    assert_eq!(state.justification_bitfield, 0b111);
    assert_eq!(state.justified_epoch, 5);
    assert_eq!(state.previous_justified_epoch, 4);
    assert_eq!(state.finalized_epoch, 4);
    assert_eq!(state.slot, 64 * 5);
    let next = engine.advance(false, true);
    assert_eq!(state.finality().justified_epoch, next.justified_epoch);
    assert_eq!(state.finality().finalized_epoch, next.finalized_epoch);
}

#[test]
fn validators_below_the_ejection_balance_are_made_to_exit() {
    let mut state = state_with(5);
    state.validator_balances[1] = 15_999_999_999;
    state.validator_balances[2] = 16_000_000_000;
    state.validator_balances[3] = 0;
    state.validator_registry[3].activation_epoch = GENESIS_EPOCH + 1;
    state.validator_balances[4] = 1;
    state.process_ejections();
    let asked: Vec<bool> = state.validator_registry.iter().map(|v| v.initiated_exit).collect();
    // Validator 3 is not active yet.
    assert_eq!(asked, vec![false, true, false, false, true]);
    assert_eq!(state.validator_balances, vec![MAX_DEPOSIT_AMOUNT, 15_999_999_999, 16_000_000_000, 0, 1]);
}

#[test]
fn active_index_root_is_committed_ahead() {
    let mut state = state_with(4);
    state.validator_registry[2].exit_epoch = GENESIS_EPOCH + 5;
    state.validator_registry[3].activation_epoch = GENESIS_EPOCH + 5;
    let before = state.latest_active_index_roots[0];
    state.update_active_index_root();
    let place = ((GENESIS_EPOCH + 5) % 8192) as usize;
    assert!(state.latest_active_index_roots[place] == hash_u64_list(&[0, 1, 3]));
    assert!(state.latest_active_index_roots[place] != before);
    assert!(state.latest_active_index_roots[place + 1] == before);
    assert!(state.latest_active_index_roots[place - 1] == before);
    assert!(state.active_index_root(GENESIS_EPOCH + 4).unwrap() == before);
}

#[test]
fn shuffling_and_attestations_rotate() {
    let mut state = state_with(1);
    state.current_shuffling_epoch = 9;
    state.current_shuffling_start_shard = 8;
    state.current_shuffling_seed = H256 { bytes: [7; 32] };
    state.rotate_shuffling();
    assert_eq!(state.previous_shuffling_epoch, 9);
    assert_eq!(state.previous_shuffling_start_shard, 8);
    assert_eq!(state.previous_shuffling_seed.bytes, [7u8; 32]);
    assert_eq!(state.current_shuffling_epoch, 9);

    state.previous_epoch_attestations.push(pending(1));
    state.current_epoch_attestations.push(pending(2));
    state.current_epoch_attestations.push(pending(3));
    let root = state.hash();
    state.rotate_attestations();
    assert!(state.current_epoch_attestations.is_empty());
    let slots: Vec<u64> = state.previous_epoch_attestations.iter().map(|a| a.data.slot).collect();
    assert_eq!(slots, vec![2, 3]);
    assert_eq!(state.previous_epoch_attestations[0].inclusion_slot, 6);
    assert!(state.hash() != root);
    let copy = state.previous_epoch_attestations[1].copy();
    assert_eq!(copy.aggregation_bitfield.bits, vec![true, false]);
    assert!(copy.hash() == state.previous_epoch_attestations[1].hash());
    state.rotate_attestations();
    assert!(state.previous_epoch_attestations.is_empty());
}

#[test]
fn historical_root_is_the_root_of_the_recent_roots() {
    let mut state = state_with(1);
    state.latest_block_roots[5] = H256 { bytes: [1; 32] };
    state.latest_state_roots[6] = H256 { bytes: [2; 32] };
    let batch = state.historical_batch();
    assert_eq!(batch.block_roots.len(), 8192);
    assert_eq!(batch.state_roots.len(), 8192);
    assert_eq!(batch.block_roots[5].bytes, [1u8; 32]);
    assert_eq!(batch.state_roots[6].bytes, [2u8; 32]);
    let root = batch.hash();
    state.accumulate_historical_root();
    assert_eq!(state.historical_roots.len(), 1);
    assert!(state.historical_roots[0] == root);
    state.latest_block_roots[5] = H256::zero();
    assert!(state.historical_batch().hash() != root);
    state.accumulate_historical_root();
    assert_eq!(state.historical_roots.len(), 2);
    assert!(state.historical_roots[0] == root);
    assert!(state.historical_roots[1] != root);
}
