use beacon::attestation::AttestationData;
use beacon::attestation::Crosslink;
use beacon::consts::{
    DOMAIN_ATTESTATION, DOMAIN_DEPOSIT, FAR_FUTURE_EPOCH, GENESIS_EPOCH, GENESIS_SLOT,
    MAX_DEPOSIT_AMOUNT,
};
use beacon::error::Error;
use beacon::eth1::Eth1Data;
use beacon::hashing::{hash3, to_bytes};
use beacon::primitives::{BitField, Signature, H256, H384};
use beacon::shuffle::shuffle;
use beacon::slashing::SlashableAttestation;
use beacon::state::{bls_domain, BeaconState, Fork};
use beacon::validator::Validator;

fn key(n: u64) -> H384 {
    let mut bytes = [0u8; 48];
    bytes[..8].copy_from_slice(&n.to_le_bytes());
    H384 { bytes }
}

fn empty_state() -> BeaconState {
    BeaconState::genesis(
        Vec::new(),
        1234,
        Eth1Data { deposit_root: H256::zero(), block_hash: H256::zero() },
    )
    .unwrap()
}

// A state at the genesis slot with `count` validators, each active since
// genesis with a full deposit.
fn state_with(count: u64) -> BeaconState {
    let mut state = empty_state();
    for n in 0..count {
        let mut validator = Validator::new(key(n), H256 { bytes: [n as u8; 32] });
        validator.activation_epoch = GENESIS_EPOCH;
        state.validator_registry.push(validator);
        state.validator_balances.push(MAX_DEPOSIT_AMOUNT);
    }
    state
}

fn attestation_data(slot: u64, shard: u64) -> AttestationData {
    AttestationData {
        slot,
        shard,
        beacon_block_root: H256::zero(),
        source_epoch: GENESIS_EPOCH,
        source_root: H256::zero(),
        target_root: H256::zero(),
        crosslink_data_root: H256::zero(),
        previous_crosslink: Crosslink { epoch: 0, crosslink_data_root: H256::zero() },
    }
}

#[test]
fn empty_genesis_state() {
    let state = empty_state();
    assert_eq!(state.slot, GENESIS_SLOT);
    assert_eq!(state.genesis_time, 1234);
    assert_eq!(state.fork, Fork::default());
    assert_eq!(state.fork.epoch, GENESIS_EPOCH);
    assert!(state.validator_registry.is_empty());
    assert!(state.validator_balances.is_empty());
    assert_eq!(state.latest_randao_mixes.len(), 8192);
    assert_eq!(state.latest_crosslinks.len(), 1024);
    assert_eq!(state.latest_block_roots.len(), 8192);
    assert_eq!(state.latest_state_roots.len(), 8192);
    assert_eq!(state.latest_active_index_roots.len(), 8192);
    assert_eq!(state.latest_slashed_balances.len(), 8192);
    assert!(state.latest_crosslinks.iter().all(|c| c.epoch == 0 && c.crosslink_data_root.is_zero()));
    assert!(state.latest_slashed_balances.iter().all(|b| *b == 0));
    assert_eq!(state.deposit_index, 0);
    assert_eq!(state.justified_epoch, GENESIS_EPOCH);
    assert_eq!(state.finalized_epoch, GENESIS_EPOCH);
    assert_eq!(state.justification_bitfield, 0);
    assert_eq!(state.latest_block_header.slot, GENESIS_SLOT);
    assert!(state.latest_block_header.state_root.is_zero());
    // The seed of the genesis epoch, from the zero mix and the root of the
    // empty list of active validators.
    let expected =
        hash3(&[0u8; 32], &state.latest_active_index_roots[0].bytes, &to_bytes(GENESIS_EPOCH).bytes);
    assert!(state.current_shuffling_seed == expected);
    assert!(state.latest_active_index_roots.iter().all(|r| *r == state.latest_active_index_roots[0]));
}

#[test]
fn epochs_follow_the_slot() {
    let mut state = empty_state();
    assert_eq!(state.current_epoch(), GENESIS_EPOCH);
    assert_eq!(state.previous_epoch(), GENESIS_EPOCH - 1);
    assert_eq!(state.delayed_activation_exit_epoch(), GENESIS_EPOCH + 5);
    state.slot = 63;
    assert_eq!(state.current_epoch(), 0);
    assert_eq!(state.previous_epoch(), 0);
    assert_eq!(state.delayed_activation_exit_epoch(), 5);
    state.slot = 64;
    assert_eq!(state.current_epoch(), 1);
    assert_eq!(state.previous_epoch(), 0);
}

#[test]
fn randao_mix_is_kept_for_a_ring_of_epochs() {
    let mut state = empty_state();
    state.slot = 64 * 10000;
    state.latest_randao_mixes[(10000 % 8192) as usize] = H256 { bytes: [1; 32] };
    state.latest_randao_mixes[(1809 % 8192) as usize] = H256 { bytes: [2; 32] };
    assert!(state.randao_mix(10000).unwrap() == H256 { bytes: [1; 32] });
    assert!(state.randao_mix(1809).unwrap() == H256 { bytes: [2; 32] });
    assert_eq!(state.randao_mix(1808).err(), Some(Error::EpochOutOfRange));
    assert_eq!(state.randao_mix(10001).err(), Some(Error::EpochOutOfRange));
    assert_eq!(state.randao_mix(0).err(), Some(Error::EpochOutOfRange));
    state.slot = 64 * 5;
    assert!(state.randao_mix(1).is_ok());
    assert!(state.randao_mix(5).is_ok());
    assert_eq!(state.randao_mix(0).err(), Some(Error::EpochOutOfRange));
    assert_eq!(state.randao_mix(6).err(), Some(Error::EpochOutOfRange));
}

#[test]
fn roots_are_kept_for_a_ring_of_slots() {
    let mut state = empty_state();
    state.slot = 20000;
    state.latest_block_roots[(19999 % 8192) as usize] = H256 { bytes: [1; 32] };
    state.latest_state_roots[(11808 % 8192) as usize] = H256 { bytes: [2; 32] };
    assert!(state.block_root(19999).unwrap() == H256 { bytes: [1; 32] });
    assert!(state.state_root(11808).unwrap() == H256 { bytes: [2; 32] });
    assert!(state.block_root(11808).is_ok());
    assert_eq!(state.block_root(20000).err(), Some(Error::SlotOutOfRange));
    assert_eq!(state.block_root(11807).err(), Some(Error::SlotOutOfRange));
    assert_eq!(state.state_root(20000).err(), Some(Error::SlotOutOfRange));
    assert_eq!(state.state_root(11807).err(), Some(Error::SlotOutOfRange));
    assert_eq!(state.state_root(u64::MAX).err(), Some(Error::SlotOutOfRange));
}

#[test]
fn active_index_root_reaches_ahead_by_the_delay() {
    let mut state = empty_state();
    state.slot = 64 * 10000;
    state.latest_active_index_roots[(10004 % 8192) as usize] = H256 { bytes: [1; 32] };
    assert!(state.active_index_root(10004).unwrap() == H256 { bytes: [1; 32] });
    assert_eq!(state.active_index_root(10005).err(), Some(Error::EpochOutOfRange));
    // 10000 - (8192 - 4) = 1812 is the last epoch that has left the ring.
    assert!(state.active_index_root(1813).is_ok());
    assert_eq!(state.active_index_root(1812).err(), Some(Error::EpochOutOfRange));
}

#[test]
fn seed_is_the_digest_of_mix_root_and_epoch() {
    let mut state = empty_state();
    state.slot = 64 * 100;
    state.latest_randao_mixes[99] = H256 { bytes: [1; 32] };
    state.latest_active_index_roots[100] = H256 { bytes: [2; 32] };
    let expected = hash3(&[1u8; 32], &[2u8; 32], &to_bytes(100).bytes);
    assert!(state.seed(100).unwrap() == expected);
    assert_eq!(state.seed(105).err(), Some(Error::EpochOutOfRange));
    // The mix of epoch zero is never in the ring.
    assert_eq!(state.seed(1).err(), Some(Error::EpochOutOfRange));
    assert!(state.seed(101).is_ok());
}

#[test]
fn bls_domain_joins_version_and_kind() {
    let fork = Fork { previous_version: 1, current_version: 2, epoch: 10 };
    assert_eq!(bls_domain(&fork, 9, DOMAIN_DEPOSIT), (1 << 32) + 3);
    assert_eq!(bls_domain(&fork, 10, DOMAIN_DEPOSIT), (2 << 32) + 3);
    assert_eq!(bls_domain(&fork, 11, DOMAIN_ATTESTATION), (2 << 32) + 2);
    assert_eq!(fork.version(9), 1);
    assert_eq!(fork.version(10), 2);
    let wide = Fork { previous_version: 0, current_version: (1 << 32) + 7, epoch: 0 };
    assert_eq!(bls_domain(&wide, 0, 5), (7 << 32) + 5);
}

#[test]
fn validator_by_id_finds_the_first() {
    let mut state = state_with(3);
    state.validator_registry[2].pubkey = key(1);
    state.validator_registry[2].exit_epoch = 77;
    assert_eq!(state.validator_position(&key(1)), Some(1));
    assert_eq!(state.validator_by_id(&key(1)).unwrap().exit_epoch, FAR_FUTURE_EPOCH);
    assert_eq!(state.validator_position(&key(0)), Some(0));
    assert!(state.validator_by_id(&key(9)).is_none());
    assert_eq!(state.validator_position(&key(9)), None);
    assert!(empty_state().validator_by_id(&key(0)).is_none());
}

#[test]
fn effective_balance_is_capped_by_the_largest_deposit() {
    let mut state = state_with(3);
    state.validator_balances[0] = 31_999_999_999;
    state.validator_balances[1] = 32_000_000_000;
    state.validator_balances[2] = 50_000_000_000;
    assert_eq!(state.effective_balance(0), 31_999_999_999);
    assert_eq!(state.effective_balance(1), 32_000_000_000);
    assert_eq!(state.effective_balance(2), 32_000_000_000);
}

#[test]
fn lifecycle_of_a_validator() {
    let mut state = state_with(2);
    state.validator_registry[1].activation_epoch = FAR_FUTURE_EPOCH;
    state.activate_validator(1, false);
    assert_eq!(state.validator_registry[1].activation_epoch, GENESIS_EPOCH + 5);
    state.activate_validator(1, true);
    assert_eq!(state.validator_registry[1].activation_epoch, GENESIS_EPOCH);

    assert!(!state.validator_registry[0].initiated_exit);
    state.initiate_validator_exit(0);
    assert!(state.validator_registry[0].initiated_exit);
    assert!(!state.validator_registry[1].initiated_exit);

    state.exit_validator(0);
    assert_eq!(state.validator_registry[0].exit_epoch, GENESIS_EPOCH + 5);
    // An exit that is due earlier stands.
    state.validator_registry[1].exit_epoch = GENESIS_EPOCH + 2;
    state.exit_validator(1);
    assert_eq!(state.validator_registry[1].exit_epoch, GENESIS_EPOCH + 2);
    state.validator_registry[1].exit_epoch = GENESIS_EPOCH + 5;
    state.exit_validator(1);
    assert_eq!(state.validator_registry[1].exit_epoch, GENESIS_EPOCH + 5);

    state.prepare_validator_for_withdrawal(0);
    assert_eq!(state.validator_registry[0].withdrawable_epoch, GENESIS_EPOCH + 256);
    assert_eq!(state.validator_registry[1].withdrawable_epoch, FAR_FUTURE_EPOCH);
    assert_eq!(state.validator_registry.len(), state.validator_balances.len());
}

#[test]
fn active_validators_are_listed_in_order() {
    let mut state = state_with(5);
    state.validator_registry[1].exit_epoch = GENESIS_EPOCH;
    state.validator_registry[3].activation_epoch = GENESIS_EPOCH + 1;
    assert_eq!(state.active_validator_indices(GENESIS_EPOCH), vec![0, 2, 4]);
    assert_eq!(state.active_validator_indices(GENESIS_EPOCH + 1), vec![0, 2, 3, 4]);
    assert_eq!(state.active_validator_indices(GENESIS_EPOCH - 1), Vec::<u64>::new());
    state.validator_registry[1].activation_epoch = 5;
    assert_eq!(state.active_validator_indices(GENESIS_EPOCH - 1), vec![1]);
    assert_eq!(state.active_validator_indices(5), vec![1]);
    assert_eq!(state.active_validator_indices(4), Vec::<u64>::new());
    assert_eq!(state.active_validator_indices(0), Vec::<u64>::new());
    assert!(state.validator_registry[0].is_active(GENESIS_EPOCH));
    assert!(!state.validator_registry[1].is_active(GENESIS_EPOCH));
}

#[test]
fn committee_counts() {
    let state = state_with(70);
    assert_eq!(state.current_epoch_committee_count(), 64);
    assert_eq!(state.previous_epoch_committee_count(), 64);
    assert_eq!(state.next_epoch_committee_count(), 64);
}

#[test]
fn total_balance_sums_effective_balances() {
    let mut state = state_with(4);
    state.validator_balances[0] = 5;
    state.validator_balances[1] = 40_000_000_000;
    state.validator_registry[3].exit_epoch = GENESIS_EPOCH;
    assert_eq!(state.total_balance(&[0, 1]), 32_000_000_005);
    assert_eq!(state.total_balance(&[0, 0, 0]), 15);
    assert_eq!(state.total_balance(&[]), 0);
    assert_eq!(state.current_total_balance(), 64_000_000_005);
    // Validator 3 was active in the previous epoch alone, the others were
    // not active yet.
    state.validator_registry[3].activation_epoch = 0;
    assert_eq!(state.previous_total_balance(), 32_000_000_000);
}

#[test]
fn committees_of_a_slot() {
    let state = state_with(130);
    let slot = GENESIS_SLOT + 5;
    let committees = state.crosslink_committees_at_slot(slot, false).unwrap();
    // 64 committees in the epoch: one at each slot, for the shard of the
    // slot's place in the epoch.
    assert_eq!(committees.len(), 1);
    assert_eq!(committees[0].1, 5);
    let active: Vec<u64> = (0..130).collect();
    let shuffled = shuffle(&state.current_shuffling_seed, &active);
    // Committee 5 of 64 over 130 validators: from 130 * 5 / 64 = 10 up to
    // 130 * 6 / 64 = 12.
    assert_eq!(committees[0].0, shuffled[10..12].to_vec());
}

#[test]
fn committees_are_named_for_three_epochs() {
    let mut state = state_with(64);
    assert!(state.crosslink_committees_at_slot(GENESIS_SLOT - 64, false).is_ok());
    assert!(state.crosslink_committees_at_slot(GENESIS_SLOT - 1, false).is_ok());
    assert_eq!(
        state.crosslink_committees_at_slot(GENESIS_SLOT - 65, false).err(),
        Some(Error::EpochOutOfRange)
    );
    assert!(state.crosslink_committees_at_slot(GENESIS_SLOT + 127, false).is_ok());
    assert_eq!(
        state.crosslink_committees_at_slot(GENESIS_SLOT + 128, false).err(),
        Some(Error::EpochOutOfRange)
    );
    // With a change of the registry the next epoch has a shuffling of its
    // own, which starts after the shards of the current one.
    state.current_shuffling_start_shard = 1000;
    let next = state.crosslink_committees_at_slot(GENESIS_SLOT + 64 + 3, true).unwrap();
    assert_eq!(next[0].1, (1000 + 64 + 3) % 1024);
    let active: Vec<u64> = (0..64).collect();
    let seed = state.seed(GENESIS_EPOCH + 1).unwrap();
    assert_eq!(next[0].0, shuffle(&seed, &active)[3..4].to_vec());
    // Without one it keeps the current shuffling.
    let kept = state.crosslink_committees_at_slot(GENESIS_SLOT + 64 + 3, false).unwrap();
    assert_eq!(kept[0].1, (1000 + 3) % 1024);
    assert_eq!(kept[0].0, shuffle(&state.current_shuffling_seed, &active)[3..4].to_vec());
}

#[test]
fn next_epoch_reshuffles_after_a_power_of_two_epochs() {
    let mut state = state_with(64);
    state.slot = GENESIS_SLOT + 64 * 4;
    state.current_shuffling_start_shard = 7;
    let active: Vec<u64> = (0..64).collect();
    let next_seed = state.seed(GENESIS_EPOCH + 5).unwrap();
    let slot = GENESIS_SLOT + 64 * 5;
    // Four epochs since the registry changed.
    let committees = state.crosslink_committees_at_slot(slot, false).unwrap();
    assert_eq!(committees[0].1, 7);
    assert_eq!(committees[0].0, shuffle(&next_seed, &active)[0..1].to_vec());
    // Three epochs since the registry changed.
    state.validator_registry_update_epoch = GENESIS_EPOCH + 1;
    let committees = state.crosslink_committees_at_slot(slot, false).unwrap();
    assert_eq!(committees[0].0, shuffle(&state.current_shuffling_seed, &active)[0..1].to_vec());
    // One epoch since the registry changed.
    state.validator_registry_update_epoch = GENESIS_EPOCH + 3;
    let committees = state.crosslink_committees_at_slot(slot, false).unwrap();
    assert_eq!(committees[0].0, shuffle(&state.current_shuffling_seed, &active)[0..1].to_vec());
}

#[test]
fn proposer_is_stable() {
    let state = state_with(64);
    let first = state.beacon_proposer_index(state.slot, false).unwrap();
    let second = state.beacon_proposer_index(state.slot, false).unwrap();
    assert_eq!(first, second);
    let committees = state.crosslink_committees_at_slot(state.slot, false).unwrap();
    assert_eq!(first, committees[0].0[(state.slot % committees[0].0.len() as u64) as usize]);
    assert!(first < 64);
}

#[test]
fn proposer_needs_a_committee() {
    let state = empty_state();
    assert_eq!(
        state.beacon_proposer_index(state.slot, false).err(),
        Some(Error::ProposerCommitteeEmpty)
    );
    assert_eq!(
        state.beacon_proposer_index(state.slot + 128, false).err(),
        Some(Error::EpochOutOfRange)
    );
    // Four validators fill the committees of four slots only.
    let few = state_with(4);
    assert_eq!(
        few.beacon_proposer_index(GENESIS_SLOT, false).err(),
        Some(Error::ProposerCommitteeEmpty)
    );
    assert!(few.beacon_proposer_index(GENESIS_SLOT + 15, false).is_ok());
}

#[test]
fn attestation_participants_follow_the_bits() {
    let state = state_with(200);
    let slot = GENESIS_SLOT + 2;
    let committees = state.crosslink_committees_at_slot(slot, false).unwrap();
    let committee = committees[0].0.clone();
    assert_eq!(committee.len(), 3);
    let data = attestation_data(slot, 2);
    assert_eq!(
        state.attestation_participants(&data, &BitField::new(vec![true, false, true])),
        Ok(vec![committee[0], committee[2]])
    );
    assert_eq!(
        state.attestation_participants(&data, &BitField::new(vec![false, false, false])),
        Ok(vec![])
    );
    assert_eq!(
        state.attestation_participants(&data, &BitField::new(vec![true, true])),
        Err(Error::AttestationBitFieldInvalid)
    );
    assert_eq!(
        state.attestation_participants(&attestation_data(slot, 3), &BitField::new(vec![true; 3])),
        Err(Error::AttestationShardInvalid)
    );
    assert_eq!(
        state.attestation_participants(
            &attestation_data(slot + 1000, 2),
            &BitField::new(vec![true; 3])
        ),
        Err(Error::EpochOutOfRange)
    );
}

#[test]
fn slashing_pays_the_proposer() {
    let mut state = state_with(64);
    let proposer = state.beacon_proposer_index(state.slot, false).unwrap();
    let offender = (proposer + 1) % 64;
    assert_eq!(state.slash_validator(offender), Ok(()));
    let reward = 32_000_000_000 / 512;
    assert_eq!(reward, 62_500_000);
    assert_eq!(state.validator_balances[offender as usize], 32_000_000_000 - reward);
    assert_eq!(state.validator_balances[proposer as usize], 32_000_000_000 + reward);
    assert!(state.validator_registry[offender as usize].slashed);
    assert!(!state.validator_registry[proposer as usize].slashed);
    assert_eq!(state.validator_registry[offender as usize].exit_epoch, GENESIS_EPOCH + 5);
    assert_eq!(
        state.validator_registry[offender as usize].withdrawable_epoch,
        GENESIS_EPOCH + 8192
    );
    assert_eq!(
        state.latest_slashed_balances[(GENESIS_EPOCH % 8192) as usize],
        32_000_000_000
    );
    assert_eq!(state.latest_slashed_balances.iter().sum::<u64>(), 32_000_000_000);
    assert_eq!(state.validator_balances.iter().sum::<u64>(), 64 * 32_000_000_000);
    assert_eq!(state.validator_registry.len(), state.validator_balances.len());
}

#[test]
fn slashing_the_proposer_itself() {
    let mut state = state_with(64);
    let proposer = state.beacon_proposer_index(state.slot, false).unwrap();
    assert_eq!(state.slash_validator(proposer), Ok(()));
    assert_eq!(state.validator_balances[proposer as usize], 32_000_000_000);
    assert!(state.validator_registry[proposer as usize].slashed);
}

#[test]
fn a_withdrawable_validator_is_not_slashed() {
    let mut state = state_with(64);
    state.validator_registry[3].withdrawable_epoch = GENESIS_EPOCH;
    assert_eq!(state.slash_validator(3), Err(Error::ValidatorNotWithdrawable));
    assert!(!state.validator_registry[3].slashed);
    assert_eq!(state.validator_registry[3].exit_epoch, FAR_FUTURE_EPOCH);
    assert_eq!(state.latest_slashed_balances.iter().sum::<u64>(), 0);
    state.validator_registry[3].withdrawable_epoch = GENESIS_EPOCH + 1;
    assert_eq!(state.slash_validator(3), Ok(()));
}

#[test]
fn slashing_without_a_proposer_keeps_the_exit() {
    let mut state = state_with(4);
    assert_eq!(state.slash_validator(1), Err(Error::ProposerCommitteeEmpty));
    assert_eq!(state.validator_registry[1].exit_epoch, GENESIS_EPOCH + 5);
    assert_eq!(
        state.latest_slashed_balances[(GENESIS_EPOCH % 8192) as usize],
        32_000_000_000
    );
    assert!(!state.validator_registry[1].slashed);
    assert_eq!(state.validator_balances[1], 32_000_000_000);
}

fn slashable_attestation(indices: Vec<u64>, custody: Vec<bool>) -> SlashableAttestation {
    SlashableAttestation {
        validator_indices: indices,
        data: attestation_data(GENESIS_SLOT, 0),
        custody_bitfield: BitField::new(custody),
        aggregate_signature: Signature { bytes: [5; 96] },
    }
}

#[test]
fn slashable_attestation_is_checked_before_its_signature() {
    let state = state_with(8);
    let good = slashable_attestation(vec![1, 3, 3, 5], vec![false; 4]);
    assert!(state.verify_slashable_attestation(&good, true));
    assert!(!state.verify_slashable_attestation(&good, false));
    let verification = state.slashable_attestation_verification(&good).unwrap();
    assert_eq!(
        verification.custody_bit_0_pubkeys.iter().map(|k| k.bytes[0]).collect::<Vec<u8>>(),
        vec![1, 3, 3, 5]
    );
    assert!(verification.custody_bit_1_pubkeys.is_empty());
    assert_eq!(verification.aggregate_signature.bytes, [5u8; 96]);
    assert_eq!(verification.domain, DOMAIN_ATTESTATION);
    assert!(verification.custody_bit_0_message != verification.custody_bit_1_message);

    // A custody bit is set.
    let custody = slashable_attestation(vec![1, 3], vec![false, true]);
    assert!(!state.verify_slashable_attestation(&custody, true));
    // Nobody signed.
    let nobody = slashable_attestation(vec![], vec![]);
    assert!(!state.verify_slashable_attestation(&nobody, true));
    // The signers are out of order.
    let unordered = slashable_attestation(vec![3, 1], vec![false, false]);
    assert!(!state.verify_slashable_attestation(&unordered, true));
    // The custody bits do not match the signers in number.
    let short = slashable_attestation(vec![1, 3], vec![false]);
    assert!(!state.verify_slashable_attestation(&short, true));
    // A signer is no validator.
    let stranger = slashable_attestation(vec![1, 8], vec![false, false]);
    assert!(!state.verify_slashable_attestation(&stranger, true));
    assert!(state.slashable_attestation_verification(&stranger).is_none());
    // Too many signers.
    let many = slashable_attestation(vec![1; 4097], vec![false; 4097]);
    assert!(!state.verify_slashable_attestation(&many, true));
    let most = slashable_attestation(vec![1; 4096], vec![false; 4096]);
    assert!(state.verify_slashable_attestation(&most, true));
}
