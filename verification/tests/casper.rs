use beacon::casper::{
    is_supermajority, slashable, CasperProcess, Store, StoredValidator,
};
use beacon::checked::{CheckedAttestation, UnsignedAttestation};
use beacon::primitives::{H256, H384};

fn id(n: u8) -> H384 {
    let mut bytes = [0u8; 48];
    bytes[0] = n;
    H384 { bytes }
}

fn attestation(validator: u8, source_epoch: u64, target_epoch: u64) -> CheckedAttestation {
    attestation_of(vec![validator], source_epoch, target_epoch, 0)
}

fn attestation_of(
    validators: Vec<u8>,
    source_epoch: u64,
    target_epoch: u64,
    block: u8,
) -> CheckedAttestation {
    let mut hash = [0u8; 32];
    hash[0] = block;
    CheckedAttestation {
        data: UnsignedAttestation {
            slot: 0,
            slot_block_hash: H256 { bytes: hash },
            source_epoch,
            source_epoch_block_hash: H256::zero(),
            target_epoch,
            target_epoch_block_hash: H256::zero(),
            validator_indexes: Vec::new(),
        },
        is_slot_canon: true,
        is_source_canon: true,
        is_target_canon: true,
        validator_ids: validators.into_iter().map(id).collect(),
        inclusion_distance: 0,
    }
}

fn store_with_four_validators() -> Store {
    let mut store = Store { epoch: 0, pending_attestations: Vec::new(), validators: Vec::new() };
    for n in 0..4u8 {
        store.validators.push(StoredValidator {
            validator_id: id(n),
            valid_from: 0,
            valid_to: u64::MAX,
            balance: 1,
        });
    }
    store
}

#[test]
fn four_epoch_with_four_validators() {
    let mut store = store_with_four_validators();

    let mut casper = CasperProcess::new(0);

    // Attesting on the zero round doesn't do anything, because it's already justified and finalized.
    casper.advance_epoch(&mut store);
    store.epoch += 1;

    // First round, four validators attest.
    store.pending_attestations.append(&mut vec![
        attestation(0, 0, 1),
        attestation(1, 0, 1),
        attestation(2, 0, 1),
        attestation(3, 0, 1),
    ]);
    casper.advance_epoch(&mut store);
    store.epoch += 1;
    assert_eq!(casper.epoch, 2);
    assert_eq!(casper.justified_epoch, 1);
    assert_eq!(casper.finalized_epoch, 0);

    // Second round, three validators attest.
    store.pending_attestations.append(&mut vec![
        attestation(0, 1, 2),
        attestation(1, 1, 2),
        attestation(2, 1, 2),
    ]);
    casper.advance_epoch(&mut store);
    store.epoch += 1;
    assert_eq!(casper.epoch, 3);
    assert_eq!(casper.justified_epoch, 2);
    assert_eq!(casper.finalized_epoch, 1);

    // Third round, three validators attest.
    store.pending_attestations.append(&mut vec![
        attestation(0, 2, 3),
        attestation(1, 2, 3),
        attestation(2, 2, 3),
    ]);
    casper.advance_epoch(&mut store);
    store.epoch += 1;
    assert_eq!(casper.epoch, 4);
    assert_eq!(casper.justified_epoch, 3);
    assert_eq!(casper.finalized_epoch, 2);

    // Fourth round, only two validators attest.
    store.pending_attestations.append(&mut vec![attestation(0, 3, 4), attestation(1, 3, 4)]);
    casper.advance_epoch(&mut store);
    store.epoch += 1;
    assert_eq!(casper.epoch, 5);
    assert_eq!(casper.justified_epoch, 3);
    assert_eq!(casper.finalized_epoch, 2);
}

#[test]
fn advance_keeps_bits_and_previous_justified() {
    let mut store = store_with_four_validators();
    let mut casper = CasperProcess::new(0);
    casper.advance_epoch(&mut store);
    store.epoch += 1;
    assert_eq!(casper.justification_bitfield, 0);
    store.pending_attestations.append(&mut vec![
        attestation(0, 0, 1),
        attestation(1, 0, 1),
        attestation(2, 0, 1),
    ]);
    casper.advance_epoch(&mut store);
    assert_eq!(casper.justification_bitfield, 1);
    assert_eq!(casper.previous_justified_epoch, 0);
    assert_eq!(casper.justified_epoch, 1);
}

#[test]
fn advance_with_given_verdicts() {
    let casper = CasperProcess {
        justification_bitfield: 0b11,
        epoch: 5,
        justified_epoch: 4,
        finalized_epoch: 2,
        previous_justified_epoch: 3,
    };
    // The current epoch is justified: bits become 0b111, and the justified
    // epoch 4, being the previous epoch, is finalized.
    let next = casper.advance(false, true);
    assert_eq!(next.justification_bitfield, 0b111);
    assert_eq!(next.epoch, 6);
    assert_eq!(next.justified_epoch, 5);
    assert_eq!(next.previous_justified_epoch, 4);
    assert_eq!(next.finalized_epoch, 4);

    // Nothing is justified: bits become 0b110, and the previous justified
    // epoch 3 is finalized by the rule on bits 1 and 2.
    let idle = casper.advance(false, false);
    assert_eq!(idle.justification_bitfield, 0b110);
    assert_eq!(idle.justified_epoch, 4);
    assert_eq!(idle.finalized_epoch, 3);

    // The previous epoch alone is justified.
    let previous = casper.advance(true, false);
    assert_eq!(previous.justification_bitfield, 0b110);
    assert_eq!(previous.justified_epoch, 4);
}

#[test]
fn finality_is_monotonic_on_values() {
    let mut casper = CasperProcess::new(0);
    let verdicts = [(false, true), (true, true), (false, false), (true, false), (false, true)];
    for (previous, current) in verdicts.iter() {
        let next = casper.advance(*previous, *current);
        assert!(next.finalized_epoch >= casper.finalized_epoch);
        assert!(next.justified_epoch >= casper.previous_justified_epoch);
        assert_eq!(next.epoch, casper.epoch + 1);
        casper = next;
    }
}

#[test]
fn previous_and_next_epoch() {
    let genesis = CasperProcess::new(0);
    assert_eq!(genesis.previous_epoch(), 0);
    assert_eq!(genesis.next_epoch(), 1);
    assert_eq!(genesis.epoch(), 0);
    let later = CasperProcess::new(7);
    assert_eq!(later.previous_epoch(), 6);
    assert_eq!(later.next_epoch(), 8);
    assert_eq!(CasperProcess::default(), CasperProcess::new(0));
}

#[test]
fn double_vote_is_slashable() {
    // The same target epoch, another block.
    let a = attestation_of(vec![7], 1, 2, 1);
    let b = attestation_of(vec![7], 1, 2, 2);
    assert_eq!(slashable(&a, &b).iter().map(|v| v.bytes[0]).collect::<Vec<u8>>(), vec![7]);
}

#[test]
fn surround_vote_is_slashable() {
    let a = attestation(7, 2, 5);
    let b = attestation(7, 3, 4);
    assert_eq!(slashable(&a, &b).iter().map(|v| v.bytes[0]).collect::<Vec<u8>>(), vec![7]);
    assert_eq!(slashable(&b, &a).iter().map(|v| v.bytes[0]).collect::<Vec<u8>>(), vec![7]);
}

#[test]
fn slashable_gives_the_common_signers_in_order() {
    let a = attestation_of(vec![5, 1, 9, 3], 1, 2, 1);
    let b = attestation_of(vec![3, 4, 5], 0, 2, 2);
    assert_eq!(slashable(&a, &b).iter().map(|v| v.bytes[0]).collect::<Vec<u8>>(), vec![5, 3]);
    let c = attestation_of(vec![2], 0, 2, 2);
    assert!(slashable(&a, &c).is_empty());
}

#[test]
fn equal_or_unrelated_votes_are_not_slashable() {
    let a = attestation(7, 2, 5);
    let same = attestation(7, 2, 5);
    assert!(slashable(&a, &same).is_empty());
    // Votes that follow one another.
    let later = attestation(7, 5, 6);
    assert!(slashable(&a, &later).is_empty());
    // The same source, another target: neither surrounds the other.
    let longer = attestation(7, 2, 6);
    assert!(slashable(&a, &longer).is_empty());
    // A vote whose source lies after its target is surrounded by none.
    let backwards = attestation(7, 4, 3);
    assert!(slashable(&a, &backwards).is_empty());
}

#[test]
fn validate_attestation_checks_the_source() {
    let casper = CasperProcess {
        justification_bitfield: 0,
        epoch: 5,
        justified_epoch: 4,
        finalized_epoch: 2,
        previous_justified_epoch: 3,
    };
    assert!(casper.validate_attestation(&attestation(0, 4, 5)));
    assert!(!casper.validate_attestation(&attestation(0, 3, 5)));
    assert!(casper.validate_attestation(&attestation(0, 3, 4)));
    assert!(!casper.validate_attestation(&attestation(0, 4, 4)));
    let mut off_chain = attestation(0, 4, 5);
    off_chain.is_source_canon = false;
    assert!(!casper.validate_attestation(&off_chain));
}

#[test]
fn prune_keeps_the_attestations_of_the_current_epoch_and_later() {
    let mut store = store_with_four_validators();
    store.pending_attestations = vec![
        attestation(0, 0, 1),
        attestation(1, 1, 2),
        attestation(2, 0, 1),
        attestation(3, 2, 3),
        attestation(0, 1, 2),
    ];
    let casper = CasperProcess::new(2);
    casper.prune_pending_attestations(&mut store);
    let left: Vec<(u8, u64)> = store
        .pending_attestations
        .iter()
        .map(|a| (a.validator_ids[0].bytes[0], a.data.target_epoch))
        .collect();
    assert_eq!(left, vec![(1, 2), (3, 3), (0, 2)]);
}

#[test]
fn balances_count_each_validator_once() {
    let mut store = store_with_four_validators();
    store.validators[3].valid_to = 0;
    store.validators[2].balance = 5;
    store.pending_attestations =
        vec![attestation(2, 0, 1), attestation(2, 0, 1), attestation(1, 0, 2)];
    assert_eq!(store.canon_target_attesting_balance(1), 5);
    assert_eq!(store.canon_target_attesting_balance(2), 1);
    assert_eq!(store.canon_target_attesting_balance(3), 0);
    assert_eq!(store.active_total_balance(0), 8);
    assert_eq!(store.active_total_balance(1), 7);
    assert!(store.is_justified(1));
    assert!(!store.is_justified(2));
    assert!(store.has_attested(1, &id(2)));
    assert!(!store.has_attested(1, &id(1)));
    let mut off_chain = attestation(0, 0, 3);
    off_chain.is_target_canon = false;
    store.pending_attestations.push(off_chain);
    assert_eq!(store.canon_target_attesting_balance(3), 0);
}

#[test]
fn supermajority_is_two_thirds() {
    assert!(is_supermajority(2, 3));
    assert!(!is_supermajority(1, 3));
    assert!(is_supermajority(0, 0));
    assert!(is_supermajority(4, 6));
    assert!(!is_supermajority(3, 6));
    assert!(is_supermajority(7, 6));
    assert!(!is_supermajority(0, u128::MAX));
    assert!(is_supermajority(u128::MAX, u128::MAX));
    assert!(is_supermajority(u128::MAX / 3 * 2, u128::MAX));
    assert!(!is_supermajority(u128::MAX / 3 * 2 - 1, u128::MAX));
}

#[test]
fn checked_attestation_answers_for_its_fields() {
    let mut checked = attestation_of(vec![4, 6], 2, 3, 0);
    checked.data.slot = 17;
    checked.inclusion_distance = 5;
    checked.is_slot_canon = false;
    assert_eq!(checked.validator_ids().iter().map(|v| v.bytes[0]).collect::<Vec<u8>>(), vec![4, 6]);
    assert!(checked.is_source_canon());
    assert!(checked.is_target_canon());
    assert!(!checked.is_slot_canon());
    assert_eq!(checked.source_epoch(), 2);
    assert_eq!(checked.target_epoch(), 3);
    assert_eq!(checked.slot(), 17);
    assert_eq!(checked.inclusion_distance(), 5);
    assert!(checked.same(&checked));
    let mut other = attestation_of(vec![4, 6], 2, 3, 0);
    other.data.slot = 17;
    other.inclusion_distance = 5;
    assert!(!checked.same(&other));
    other.is_slot_canon = false;
    assert!(checked.same(&other));
    other.validator_ids.pop();
    assert!(!checked.same(&other));
}

#[test]
fn majorities_that_double_vote_share_a_signer() {
    // Three of four validators sign each vote: they cannot be disjoint.
    let a = attestation_of(vec![0, 1, 2], 1, 2, 1);
    let b = attestation_of(vec![3, 2, 1], 1, 2, 2);
    let convicted: Vec<u8> = slashable(&a, &b).iter().map(|v| v.bytes[0]).collect();
    assert_eq!(convicted, vec![1, 2]);
    let c = attestation_of(vec![0, 3, 1], 1, 2, 3);
    assert!(!slashable(&c, &b).is_empty());
}
