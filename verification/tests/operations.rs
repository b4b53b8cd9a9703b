use beacon::attestation::{AttestationData, Crosslink};
use beacon::block::BeaconBlockHeader;
use beacon::consts::{FAR_FUTURE_EPOCH, GENESIS_EPOCH, GENESIS_SLOT, MAX_DEPOSIT_AMOUNT};
use beacon::error::Error;
use beacon::eth1::Eth1Data;
use beacon::operations::{
    check_operation_counts, is_slashable_data, same_data, same_header, AttesterSlashing,
    OperationCounts, ProposerSlashing, VoluntaryExit,
};
use beacon::primitives::{BitField, Signature, H256, H384};
use beacon::slashing::SlashableAttestation;
use beacon::state::BeaconState;
use beacon::validator::Validator;

fn state_with(count: u64) -> BeaconState {
    let mut state = BeaconState::genesis(
        Vec::new(),
        0,
        Eth1Data { deposit_root: H256::zero(), block_hash: H256::zero() },
    )
    .unwrap();
    for n in 0..count {
        let mut bytes = [0u8; 48];
        bytes[0] = n as u8;
        let mut validator = Validator::new(H384 { bytes }, H256::zero());
        validator.activation_epoch = GENESIS_EPOCH;
        state.validator_registry.push(validator);
        state.validator_balances.push(MAX_DEPOSIT_AMOUNT);
    }
    state
}

fn data(slot: u64, source_epoch: u64, block: u8) -> AttestationData {
    AttestationData {
        slot,
        shard: 0,
        beacon_block_root: H256 { bytes: [block; 32] },
        source_epoch,
        source_root: H256::zero(),
        target_root: H256::zero(),
        crosslink_data_root: H256::zero(),
        previous_crosslink: Crosslink { epoch: 0, crosslink_data_root: H256::zero() },
    }
}

fn vote(indices: Vec<u64>, data: AttestationData) -> SlashableAttestation {
    SlashableAttestation {
        custody_bitfield: BitField::new(vec![false; indices.len()]),
        validator_indices: indices,
        data,
        aggregate_signature: Signature::zero(),
    }
}

fn header(slot: u64, body: u8) -> BeaconBlockHeader {
    BeaconBlockHeader {
        slot,
        previous_block_root: H256::zero(),
        state_root: H256::zero(),
        block_body_root: H256 { bytes: [body; 32] },
        signature: Signature { bytes: [body; 96] },
    }
}

#[test]
fn operation_counts_are_capped() {
    let counts = OperationCounts {
        proposer_slashings: 16,
        attester_slashings: 1,
        attestations: 128,
        deposits: 16,
        voluntary_exits: 16,
        transfers: 16,
    };
    assert_eq!(check_operation_counts(&counts), Ok(()));
    let mut over = counts;
    over.transfers = 17;
    assert_eq!(check_operation_counts(&over), Err(Error::TooManyTransfers));
    over.voluntary_exits = 17;
    assert_eq!(check_operation_counts(&over), Err(Error::TooManyVoluntaryExits));
    over.deposits = 17;
    assert_eq!(check_operation_counts(&over), Err(Error::TooManyDeposits));
    over.attestations = 129;
    assert_eq!(check_operation_counts(&over), Err(Error::TooManyAttestations));
    over.attester_slashings = 2;
    assert_eq!(check_operation_counts(&over), Err(Error::TooManyAttesterSlashings));
    over.proposer_slashings = 17;
    assert_eq!(check_operation_counts(&over), Err(Error::TooManyProposerSlashings));
}

#[test]
fn headers_and_votes_compare_by_value() {
    assert!(same_header(&header(5, 1), &header(5, 1)));
    assert!(!same_header(&header(5, 1), &header(5, 2)));
    assert!(!same_header(&header(5, 1), &header(6, 1)));
    let mut signed = header(5, 1);
    signed.signature.bytes[95] = 0;
    assert!(!same_header(&header(5, 1), &signed));
    assert!(same_data(&data(5, 1, 1), &data(5, 1, 1)));
    assert!(!same_data(&data(5, 1, 1), &data(5, 1, 2)));
    assert!(!same_data(&data(5, 1, 1), &data(5, 2, 1)));
    let mut linked = data(5, 1, 1);
    linked.previous_crosslink.epoch = 1;
    assert!(!same_data(&data(5, 1, 1), &linked));
}

#[test]
fn slashing_conditions_on_votes() {
    // The same target epoch.
    assert!(is_slashable_data(&data(64 * 5, 2, 1), &data(64 * 5 + 3, 3, 2)));
    // Source 2 to target 5 surrounds source 3 to target 4.
    assert!(is_slashable_data(&data(64 * 5, 2, 1), &data(64 * 4, 3, 1)));
    assert!(is_slashable_data(&data(64 * 4, 3, 1), &data(64 * 5, 2, 1)));
    // Votes that follow one another.
    assert!(!is_slashable_data(&data(64 * 5, 2, 1), &data(64 * 6, 5, 1)));
    // The same source, another target.
    assert!(!is_slashable_data(&data(64 * 5, 2, 1), &data(64 * 6, 2, 1)));
}

#[test]
fn attester_slashing_slashes_the_double_voter() {
    let mut state = state_with(64);
    let proposer = state.beacon_proposer_index(state.slot, false).unwrap();
    let offender = (proposer + 1) % 64;
    // Two votes for one target epoch and different blocks.
    let slashing = AttesterSlashing {
        slashable_attestation_1: vote(vec![offender], data(GENESIS_SLOT, GENESIS_EPOCH - 1, 1)),
        slashable_attestation_2: vote(vec![offender], data(GENESIS_SLOT, GENESIS_EPOCH - 1, 2)),
    };
    assert_eq!(state.process_attester_slashing(&slashing, true, true), Ok(()));
    let reward = MAX_DEPOSIT_AMOUNT / 512;
    assert_eq!(state.validator_balances[offender as usize], MAX_DEPOSIT_AMOUNT - reward);
    assert_eq!(state.validator_balances[proposer as usize], MAX_DEPOSIT_AMOUNT + reward);
    assert!(state.validator_registry[offender as usize].slashed);
    assert_eq!(state.validator_registry.iter().filter(|v| v.slashed).count(), 1);

    // The offender is slashed now: the same evidence convicts nobody.
    assert_eq!(
        state.process_attester_slashing(&slashing, true, true),
        Err(Error::AttesterSlashingEmptyIndices)
    );
}

#[test]
fn attester_slashing_slashes_the_common_signers_in_order() {
    let mut state = state_with(64);
    state.validator_registry[9].slashed = true;
    let slashing = AttesterSlashing {
        slashable_attestation_1: vote(vec![3, 5, 9, 20], data(64 * 5, 2, 1)),
        slashable_attestation_2: vote(vec![5, 9, 20, 30], data(64 * 4, 3, 1)),
    };
    assert_eq!(state.process_attester_slashing(&slashing, true, true), Ok(()));
    let slashed: Vec<usize> = state
        .validator_registry
        .iter()
        .enumerate()
        .filter(|(_, v)| v.slashed)
        .map(|(i, _)| i)
        .collect();
    assert_eq!(slashed, vec![5, 9, 20]);
    // Validator 9 was slashed before and is left alone.
    assert_eq!(state.validator_registry[9].exit_epoch, FAR_FUTURE_EPOCH);
    assert_eq!(state.validator_registry[5].exit_epoch, GENESIS_EPOCH + 5);
    assert_eq!(
        state.latest_slashed_balances[(GENESIS_EPOCH % 8192) as usize],
        2 * MAX_DEPOSIT_AMOUNT
    );
    assert_eq!(state.validator_balances.iter().sum::<u64>(), 64 * MAX_DEPOSIT_AMOUNT);
}

#[test]
fn attester_slashing_is_checked() {
    let mut state = state_with(64);
    let first = data(GENESIS_SLOT, 2, 1);
    let same = AttesterSlashing {
        slashable_attestation_1: vote(vec![1], first),
        slashable_attestation_2: vote(vec![1], first),
    };
    assert_eq!(
        state.process_attester_slashing(&same, true, true),
        Err(Error::AttesterSlashingSameAttestation)
    );
    let apart = AttesterSlashing {
        slashable_attestation_1: vote(vec![1], data(64 * 5, 2, 1)),
        slashable_attestation_2: vote(vec![1], data(64 * 6, 5, 1)),
    };
    assert_eq!(
        state.process_attester_slashing(&apart, true, true),
        Err(Error::AttesterSlashingNotSlashable)
    );
    let double = AttesterSlashing {
        slashable_attestation_1: vote(vec![1], data(GENESIS_SLOT, 2, 1)),
        slashable_attestation_2: vote(vec![1], data(GENESIS_SLOT, 2, 2)),
    };
    assert_eq!(
        state.process_attester_slashing(&double, false, true),
        Err(Error::AttesterSlashingInvalid)
    );
    assert_eq!(
        state.process_attester_slashing(&double, true, false),
        Err(Error::AttesterSlashingInvalid)
    );
    let unordered = AttesterSlashing {
        slashable_attestation_1: vote(vec![2, 1], data(GENESIS_SLOT, 2, 1)),
        slashable_attestation_2: vote(vec![1], data(GENESIS_SLOT, 2, 2)),
    };
    assert_eq!(
        state.process_attester_slashing(&unordered, true, true),
        Err(Error::AttesterSlashingInvalid)
    );
    let disjoint = AttesterSlashing {
        slashable_attestation_1: vote(vec![1, 2], data(GENESIS_SLOT, 2, 1)),
        slashable_attestation_2: vote(vec![3], data(GENESIS_SLOT, 2, 2)),
    };
    assert_eq!(
        state.process_attester_slashing(&disjoint, true, true),
        Err(Error::AttesterSlashingEmptyIndices)
    );
    assert_eq!(state.validator_registry.iter().filter(|v| v.slashed).count(), 0);
    assert_eq!(state.validator_balances.iter().sum::<u64>(), 64 * MAX_DEPOSIT_AMOUNT);
}

#[test]
fn proposer_slashing_slashes_the_proposer() {
    let mut state = state_with(64);
    let proposer = state.beacon_proposer_index(state.slot, false).unwrap();
    let offender = (proposer + 2) % 64;
    let slashing =
        ProposerSlashing { proposer_index: offender, header_1: header(7, 1), header_2: header(7, 2) };
    assert_eq!(state.process_proposer_slashing(&slashing, true), Ok(()));
    assert!(state.validator_registry[offender as usize].slashed);
    assert_eq!(
        state.validator_balances[offender as usize],
        MAX_DEPOSIT_AMOUNT - MAX_DEPOSIT_AMOUNT / 512
    );
    assert_eq!(
        state.validator_balances[proposer as usize],
        MAX_DEPOSIT_AMOUNT + MAX_DEPOSIT_AMOUNT / 512
    );
    assert_eq!(
        state.process_proposer_slashing(&slashing, true),
        Err(Error::ProposerSlashingAlreadySlashed)
    );
}

#[test]
fn proposer_slashing_is_checked() {
    let mut state = state_with(64);
    let slots =
        ProposerSlashing { proposer_index: 1, header_1: header(7, 1), header_2: header(8, 2) };
    assert_eq!(
        state.process_proposer_slashing(&slots, true),
        Err(Error::ProposerSlashingInvalidSlot)
    );
    let same =
        ProposerSlashing { proposer_index: 1, header_1: header(7, 1), header_2: header(7, 1) };
    assert_eq!(state.process_proposer_slashing(&same, true), Err(Error::ProposerSlashingSameHeader));
    let unsigned =
        ProposerSlashing { proposer_index: 1, header_1: header(7, 1), header_2: header(7, 2) };
    assert_eq!(
        state.process_proposer_slashing(&unsigned, false),
        Err(Error::ProposerSlashingInvalidSignature)
    );
    let stranger =
        ProposerSlashing { proposer_index: 64, header_1: header(7, 1), header_2: header(7, 2) };
    assert_eq!(
        state.process_proposer_slashing(&stranger, true),
        Err(Error::ProposerSlashingInvalidSignature)
    );
    assert_eq!(state.validator_registry.iter().filter(|v| v.slashed).count(), 0);
}

#[test]
fn voluntary_exit_is_checked_and_applied() {
    let mut state = state_with(4);
    state.slot = GENESIS_SLOT + 64 * 2048;
    let exit =
        VoluntaryExit { epoch: GENESIS_EPOCH + 2048, validator_index: 2, signature: Signature::zero() };

    let mut late = exit;
    late.epoch = GENESIS_EPOCH + 2049;
    assert_eq!(state.process_voluntary_exit(&late, true), Err(Error::VoluntaryExitNotYetValid));
    assert_eq!(
        state.process_voluntary_exit(&exit, false),
        Err(Error::VoluntaryExitInvalidSignature)
    );
    let mut stranger = exit;
    stranger.validator_index = 4;
    assert_eq!(
        state.process_voluntary_exit(&stranger, true),
        Err(Error::VoluntaryExitInvalidSignature)
    );
    state.validator_registry[1].exit_epoch = GENESIS_EPOCH + 3000;
    let mut exited = exit;
    exited.validator_index = 1;
    assert_eq!(state.process_voluntary_exit(&exited, true), Err(Error::VoluntaryExitAlreadyExited));
    state.validator_registry[3].activation_epoch = GENESIS_EPOCH + 1;
    let mut fresh = exit;
    fresh.validator_index = 3;
    assert_eq!(state.process_voluntary_exit(&fresh, true), Err(Error::VoluntaryExitNotLongEnough));
    assert!(!state.validator_registry[2].initiated_exit);

    assert_eq!(state.process_voluntary_exit(&exit, true), Ok(()));
    assert!(state.validator_registry[2].initiated_exit);
    assert_eq!(state.validator_registry[2].exit_epoch, FAR_FUTURE_EPOCH);
    assert_eq!(
        state.process_voluntary_exit(&exit, true),
        Err(Error::VoluntaryExitAlreadyInitiated)
    );
    assert_eq!(state.validator_registry.iter().filter(|v| v.initiated_exit).count(), 1);
}
