//! Casper FFG: which epochs are justified, which are finalized, and which
//! pairs of votes are slashable.

use crate::checked::{contains_id, Balance, CheckedAttestation, CheckedAttestationView};
use crate::primitives::{Epoch, ValidatorId};
use vstd::prelude::*;

verus! {

/// Whether vote `a` surrounds vote `b`: it starts earlier and ends later.
pub open spec fn spec_surrounds(a: CheckedAttestationView, b: CheckedAttestationView) -> bool {
    a.data.source_epoch < b.data.source_epoch < b.data.target_epoch < a.data.target_epoch
}

/// Whether two votes satisfy a Casper slashing condition: they differ, and
/// they have the same target (a double vote) or one surrounds the other.
pub open spec fn spec_is_slashable_pair(
    a: CheckedAttestationView,
    b: CheckedAttestationView,
) -> bool {
    a != b && (a.data.target_epoch == b.data.target_epoch || spec_surrounds(a, b)
        || spec_surrounds(b, a))
}

/// Those of the first `count` of `ids` that are also among `others`, in
/// the order of `ids`.
pub open spec fn spec_common_ids(
    ids: Seq<ValidatorId>,
    others: Seq<ValidatorId>,
    count: nat,
) -> Seq<ValidatorId>
    decreases count,
{
    if count == 0 {
        Seq::empty()
    } else {
        let before = spec_common_ids(ids, others, (count - 1) as nat);
        if others.contains(ids[count - 1]) {
            before.push(ids[count - 1])
        } else {
            before
        }
    }
}

/// The validators that a pair of votes convicts: those that signed both,
/// where the pair is slashable, and none where it is not.
pub open spec fn spec_slashable(a: CheckedAttestationView, b: CheckedAttestationView) -> Seq<
    ValidatorId,
> {
    if spec_is_slashable_pair(a, b) {
        spec_common_ids(a.validator_ids, b.validator_ids, a.validator_ids.len())
    } else {
        Seq::empty()
    }
}

/// A validator is among the common ones exactly when it is among the first
/// `count` of `ids` and among `others`.
pub proof fn lemma_common_ids(
    ids: Seq<ValidatorId>,
    others: Seq<ValidatorId>,
    count: nat,
    id: ValidatorId,
)
    requires
        count <= ids.len(),
    ensures
        spec_common_ids(ids, others, count).contains(id) <==> (ids.take(count as int).contains(id)
            && others.contains(id)),
    decreases count,
{
    let common = spec_common_ids(ids, others, count);
    let prefix = ids.take(count as int);
    if count == 0 {
        assert(!common.contains(id));
        assert(!prefix.contains(id));
    } else {
        let before = spec_common_ids(ids, others, (count - 1) as nat);
        let shorter = ids.take(count - 1);
        lemma_common_ids(ids, others, (count - 1) as nat, id);
        let last = ids[count - 1];
        assert(prefix =~= shorter.push(last));
        if prefix.contains(id) {
            let i = choose|i: int| 0 <= i < prefix.len() && prefix[i] == id;
            if i < count - 1 {
                assert(shorter[i] == id);
            }
        }
        if shorter.contains(id) {
            let i = choose|i: int| 0 <= i < shorter.len() && shorter[i] == id;
            assert(prefix[i] == id);
        }
        assert(prefix[count - 1] == last);
        if others.contains(last) {
            assert(common == before.push(last));
            assert(common[common.len() - 1] == last);
            if before.contains(id) {
                let i = choose|i: int| 0 <= i < before.len() && before[i] == id;
                assert(common[i] == id);
            }
            if common.contains(id) {
                let i = choose|i: int| 0 <= i < common.len() && common[i] == id;
                if i < before.len() {
                    assert(before[i] == id);
                }
            }
        }
    }
}

/// The validators that a slashable pair convicts are exactly those that
/// signed both votes; a pair that is not slashable convicts none.
pub proof fn lemma_slashable_is_intersection(
    a: CheckedAttestationView,
    b: CheckedAttestationView,
    id: ValidatorId,
)
    ensures
        spec_is_slashable_pair(a, b) ==> (spec_slashable(a, b).contains(id) <==> (
        a.validator_ids.contains(id) && b.validator_ids.contains(id))),
        !spec_is_slashable_pair(a, b) ==> spec_slashable(a, b).len() == 0,
{
    lemma_common_ids(a.validator_ids, b.validator_ids, a.validator_ids.len(), id);
    assert(a.validator_ids.take(a.validator_ids.len() as int) =~= a.validator_ids);
}

/// Two slashable votes that together have more signers than there are
/// validators convict at least one validator: some validator must have
/// signed both. Each vote names each signer once, and names validators
/// only.
pub proof fn lemma_slashable_majorities_convict(
    a: CheckedAttestationView,
    b: CheckedAttestationView,
    validators: Set<ValidatorId>,
)
    requires
        spec_is_slashable_pair(a, b),
        validators.finite(),
        a.validator_ids.no_duplicates(),
        b.validator_ids.no_duplicates(),
        a.validator_ids.to_set().subset_of(validators),
        b.validator_ids.to_set().subset_of(validators),
        a.validator_ids.len() + b.validator_ids.len() > validators.len(),
    ensures
        spec_slashable(a, b).len() > 0,
{
    let signed_a = a.validator_ids.to_set();
    let signed_b = b.validator_ids.to_set();
    a.validator_ids.unique_seq_to_set();
    b.validator_ids.unique_seq_to_set();
    vstd::seq_lib::seq_to_set_is_finite(a.validator_ids);
    vstd::seq_lib::seq_to_set_is_finite(b.validator_ids);
    vstd::set_lib::lemma_set_intersect_union_lens(signed_a, signed_b);
    assert((signed_a + signed_b).subset_of(validators));
    vstd::set_lib::lemma_len_subset(signed_a + signed_b, validators);
    let both = signed_a.intersect(signed_b);
    assert(both.len() > 0);
    assert(both.finite());
    if both.is_empty() {
        assert(both =~= Set::<ValidatorId>::empty());
    }
    let id = both.choose();
    assert(both.contains(id));
    assert(a.validator_ids.contains(id));
    assert(b.validator_ids.contains(id));
    lemma_slashable_is_intersection(a, b, id);
    let convicted = spec_slashable(a, b);
    assert(convicted.contains(id));
}

/// The validators that the pair of votes `a` and `b` convicts of a
/// slashable offence.
pub fn slashable(a: &CheckedAttestation, b: &CheckedAttestation) -> (convicted: Vec<ValidatorId>)
    ensures
        convicted@ == spec_slashable(a@, b@),
{
    let slashable = if a.same(b) {
        false
    } else if a.target_epoch() == b.target_epoch() {
        true
    } else if a.source_epoch() < b.source_epoch() && b.source_epoch() < b.target_epoch()
        && b.target_epoch() < a.target_epoch() {
        true
    } else if b.source_epoch() < a.source_epoch() && a.source_epoch() < a.target_epoch()
        && a.target_epoch() < b.target_epoch() {
        true
    } else {
        false
    };

    let mut ret: Vec<ValidatorId> = Vec::new();
    if slashable {
        let mut i: usize = 0;
        while i < a.validator_ids.len()
            invariant
                i <= a.validator_ids@.len(),
                ret@ == spec_common_ids(a@.validator_ids, b@.validator_ids, i as nat),
            decreases a.validator_ids@.len() - i,
        {
            if contains_id(&b.validator_ids, &a.validator_ids[i]) {
                ret.push(a.validator_ids[i]);
            }
            i += 1;
        }
    }
    ret
}

/// A validator as the Casper engine sees it.
#[derive(Clone, Copy, Debug)]
pub struct StoredValidator {
    /// The validator's key.
    pub validator_id: ValidatorId,
    /// First epoch in which the validator is active.
    pub valid_from: Epoch,
    /// Last epoch in which the validator is active.
    pub valid_to: Epoch,
    /// The validator's balance.
    pub balance: Balance,
}

impl StoredValidator {
    /// Whether the validator is active in `epoch`.
    pub open spec fn spec_is_active(&self, epoch: Epoch) -> bool {
        self.valid_from <= epoch <= self.valid_to
    }
}

/// What the Casper engine reads and prunes: the epoch of the chain, the
/// validators, and the attestations that no epoch has counted yet.
#[derive(Debug)]
pub struct Store {
    /// Epoch of the latest block.
    pub epoch: Epoch,
    /// The attestations that wait to be counted.
    pub pending_attestations: Vec<CheckedAttestation>,
    /// The validators, each with a key of its own.
    pub validators: Vec<StoredValidator>,
}

/// Whether one of `attestations` votes for `epoch` as a target on the
/// canonical chain and is signed by `id`.
pub open spec fn spec_has_attested(
    attestations: Seq<CheckedAttestation>,
    epoch: Epoch,
    id: ValidatorId,
) -> bool {
    exists|i: int|
        0 <= i < attestations.len() && (#[trigger] attestations[i]).is_target_canon
            && attestations[i].data.target_epoch == epoch && attestations[i].validator_ids@.contains(
            id,
        )
}

/// The sum of the balances of those of the first `count` validators that
/// have attested to `epoch` as a canonical target. Each validator counts
/// once, however many attestations name it.
pub open spec fn spec_attesting_balance(
    validators: Seq<StoredValidator>,
    attestations: Seq<CheckedAttestation>,
    epoch: Epoch,
    count: nat,
) -> nat
    decreases count,
{
    if count == 0 {
        0
    } else {
        spec_attesting_balance(validators, attestations, epoch, (count - 1) as nat) + if spec_has_attested(
            attestations,
            epoch,
            validators[count - 1].validator_id,
        ) {
            validators[count - 1].balance as nat
        } else {
            0
        }
    }
}

/// The sum of the balances of those of the first `count` validators that
/// are active in `epoch`.
pub open spec fn spec_active_balance(
    validators: Seq<StoredValidator>,
    epoch: Epoch,
    count: nat,
) -> nat
    decreases count,
{
    if count == 0 {
        0
    } else {
        spec_active_balance(validators, epoch, (count - 1) as nat) + if validators[count
            - 1].spec_is_active(epoch) {
            validators[count - 1].balance as nat
        } else {
            0
        }
    }
}

/// Whether `attesting` is at least two thirds of `total`.
pub open spec fn spec_is_supermajority(attesting: nat, total: nat) -> bool {
    3 * attesting >= 2 * total
}

/// Those of the first `count` attestations whose target is `epoch` or
/// later, in their order.
pub open spec fn spec_retained(
    attestations: Seq<CheckedAttestation>,
    epoch: Epoch,
    count: nat,
) -> Seq<CheckedAttestation>
    decreases count,
{
    if count == 0 {
        Seq::empty()
    } else {
        let before = spec_retained(attestations, epoch, (count - 1) as nat);
        if attestations[count - 1].data.target_epoch >= epoch {
            before.push(attestations[count - 1])
        } else {
            before
        }
    }
}

/// The sums of at most `count` balances fit 128 bits.
pub proof fn lemma_balances_fit(
    validators: Seq<StoredValidator>,
    attestations: Seq<CheckedAttestation>,
    epoch: Epoch,
    count: nat,
)
    ensures
        spec_attesting_balance(validators, attestations, epoch, count) <= count * u64::MAX,
        spec_active_balance(validators, epoch, count) <= count * u64::MAX,
    decreases count,
{
    if count > 0 {
        lemma_balances_fit(validators, attestations, epoch, (count - 1) as nat);
        assert((count - 1) * u64::MAX + u64::MAX == count * u64::MAX) by (nonlinear_arith);
    }
}

impl Store {
    /// Whether validator `id` has a pending attestation that votes for
    /// `epoch` as a target on the canonical chain.
    pub fn has_attested(&self, epoch: Epoch, id: &ValidatorId) -> (r: bool)
        ensures
            r == spec_has_attested(self.pending_attestations@, epoch, *id),
    {
        let mut i: usize = 0;
        while i < self.pending_attestations.len()
            invariant
                i <= self.pending_attestations@.len(),
                forall|j: int|
                    0 <= j < i ==> !((#[trigger] self.pending_attestations@[j]).is_target_canon
                        && self.pending_attestations@[j].data.target_epoch == epoch
                        && self.pending_attestations@[j].validator_ids@.contains(*id)),
            decreases self.pending_attestations@.len() - i,
        {
            let attestation = &self.pending_attestations[i];
            if attestation.is_target_canon() && attestation.target_epoch() == epoch && contains_id(
                &attestation.validator_ids,
                id,
            ) {
                return true;
            }
            i += 1;
        }
        false
    }

    /// The balance that has attested to `epoch` as a canonical target.
    pub fn canon_target_attesting_balance(&self, epoch: Epoch) -> (total: u128)
        ensures
            total == spec_attesting_balance(
                self.validators@,
                self.pending_attestations@,
                epoch,
                self.validators@.len(),
            ),
    {
        let mut total: u128 = 0;
        let mut i: usize = 0;
        while i < self.validators.len()
            invariant
                i <= self.validators@.len(),
                total == spec_attesting_balance(
                    self.validators@,
                    self.pending_attestations@,
                    epoch,
                    i as nat,
                ),
            decreases self.validators@.len() - i,
        {
            proof {
                lemma_balances_fit(
                    self.validators@,
                    self.pending_attestations@,
                    epoch,
                    (i + 1) as nat,
                );
                assert((i + 1) * u64::MAX <= u64::MAX * u64::MAX) by (nonlinear_arith)
                    requires
                        i + 1 <= u64::MAX,
                ;
            }
            if self.has_attested(epoch, &self.validators[i].validator_id) {
                total = total + self.validators[i].balance as u128;
            }
            i += 1;
        }
        total
    }

    /// The balance of the validators that are active in `epoch`.
    pub fn active_total_balance(&self, epoch: Epoch) -> (total: u128)
        ensures
            total == spec_active_balance(self.validators@, epoch, self.validators@.len()),
    {
        let mut total: u128 = 0;
        let mut i: usize = 0;
        while i < self.validators.len()
            invariant
                i <= self.validators@.len(),
                total == spec_active_balance(self.validators@, epoch, i as nat),
            decreases self.validators@.len() - i,
        {
            proof {
                lemma_balances_fit(
                    self.validators@,
                    self.pending_attestations@,
                    epoch,
                    (i + 1) as nat,
                );
                assert((i + 1) * u64::MAX <= u64::MAX * u64::MAX) by (nonlinear_arith)
                    requires
                        i + 1 <= u64::MAX,
                ;
            }
            let validator = &self.validators[i];
            if validator.valid_from <= epoch && epoch <= validator.valid_to {
                total = total + validator.balance as u128;
            }
            i += 1;
        }
        total
    }

    /// Whether the balance that has attested to `epoch` is at least two
    /// thirds of the balance that is active in it.
    pub fn is_justified(&self, epoch: Epoch) -> (r: bool)
        ensures
            r == spec_is_supermajority(
                spec_attesting_balance(
                    self.validators@,
                    self.pending_attestations@,
                    epoch,
                    self.validators@.len(),
                ),
                spec_active_balance(self.validators@, epoch, self.validators@.len()),
            ),
    {
        let attesting = self.canon_target_attesting_balance(epoch);
        let total = self.active_total_balance(epoch);
        is_supermajority(attesting, total)
    }
}

/// Whether `attesting` is at least two thirds of `total`.
pub fn is_supermajority(attesting: u128, total: u128) -> (r: bool)
    ensures
        r == spec_is_supermajority(attesting as nat, total as nat),
{
    if attesting >= total {
        true
    } else {
        let missing: u128 = total - attesting;
        if missing > u128::MAX / 2 {
            false
        } else {
            attesting >= 2 * missing
        }
    }
}

/// The state of the Casper engine.
#[derive(Clone, Copy, Debug, PartialEq, Eq, Structural)]
pub struct CasperProcess {
    /// Bitfield holding justification information.
    pub justification_bitfield: u64,
    /// Current epoch.
    pub epoch: Epoch,
    /// Current justified epoch.
    pub justified_epoch: Epoch,
    /// Current finalized epoch.
    pub finalized_epoch: Epoch,
    /// Previous justified epoch.
    pub previous_justified_epoch: Epoch,
}

impl CasperProcess {
    /// The engine of a chain whose genesis lies in `genesis_epoch`.
    pub open spec fn spec_new(genesis_epoch: Epoch) -> CasperProcess {
        CasperProcess {
            justification_bitfield: 0,
            epoch: genesis_epoch,
            justified_epoch: genesis_epoch,
            finalized_epoch: genesis_epoch,
            previous_justified_epoch: genesis_epoch,
        }
    }

    /// The epoch before the current one, or the current one at epoch zero.
    pub open spec fn spec_previous_epoch(&self) -> Epoch {
        if self.epoch == 0 {
            0
        } else {
            (self.epoch - 1) as u64
        }
    }

    /// Whether an attestation may join the pending ones: its source is on
    /// the canonical chain, and is the justified epoch if the attestation
    /// votes for the current epoch, the previous justified epoch if not.
    pub open spec fn spec_validate_attestation(&self, attestation: CheckedAttestationView) -> bool {
        attestation.is_source_canon && if attestation.data.target_epoch == self.epoch {
            attestation.data.source_epoch == self.justified_epoch
        } else {
            attestation.data.source_epoch == self.previous_justified_epoch
        }
    }

    /// The justification bits after an epoch ends: the old bits move up by
    /// one place, bit 1 is set if the previous epoch is justified, bit 0 if
    /// the current one is.
    pub open spec fn spec_next_bitfield(
        &self,
        previous_justified: bool,
        current_justified: bool,
    ) -> u64 {
        let shifted = self.justification_bitfield << 1;
        let with_previous = if previous_justified {
            shifted | 2
        } else {
            shifted
        };
        if current_justified {
            with_previous | 1
        } else {
            with_previous
        }
    }

    /// The epoch that is justified after an epoch ends: the current epoch
    /// if it is justified, else the previous epoch if that is, else the
    /// epoch that was justified before.
    pub open spec fn spec_next_justified(
        &self,
        previous_justified: bool,
        current_justified: bool,
    ) -> Epoch {
        if current_justified {
            self.epoch
        } else if previous_justified {
            self.spec_previous_epoch()
        } else {
            self.justified_epoch
        }
    }

    /// The epoch that is finalized after an epoch ends, given the new
    /// justification bits. Of the four rules the last that applies decides.
    pub open spec fn spec_next_finalized(&self, bits: u64) -> Epoch {
        let previous = self.spec_previous_epoch();
        if bits % 4 == 3 && self.justified_epoch == previous {
            self.justified_epoch
        } else if bits % 8 == 7 && self.justified_epoch == previous - 1 {
            self.justified_epoch
        } else if (bits >> 1) % 4 == 3 && self.previous_justified_epoch == previous - 1 {
            self.previous_justified_epoch
        } else if (bits >> 1) % 8 == 7 && self.previous_justified_epoch == previous - 2 {
            self.previous_justified_epoch
        } else {
            self.finalized_epoch
        }
    }

    /// The engine after the current epoch ends, given whether the previous
    /// and the current epoch have the votes of a supermajority.
    pub open spec fn spec_advance(
        &self,
        previous_justified: bool,
        current_justified: bool,
    ) -> CasperProcess {
        let bits = self.spec_next_bitfield(previous_justified, current_justified);
        CasperProcess {
            justification_bitfield: bits,
            epoch: (self.epoch + 1) as u64,
            justified_epoch: self.spec_next_justified(previous_justified, current_justified),
            finalized_epoch: self.spec_next_finalized(bits),
            previous_justified_epoch: self.justified_epoch,
        }
    }

    /// Whether the epochs stand in the order in which the engine keeps
    /// them: finalized, previous justified, justified, current.
    pub open spec fn spec_is_ordered(&self) -> bool {
        self.finalized_epoch <= self.previous_justified_epoch <= self.justified_epoch
            <= self.epoch
    }

    /// Create a new Casper context.
    pub fn new(genesis_epoch: Epoch) -> (process: CasperProcess)
        ensures
            process == CasperProcess::spec_new(genesis_epoch),
    {
        CasperProcess {
            justification_bitfield: 0,
            epoch: genesis_epoch,
            justified_epoch: genesis_epoch,
            finalized_epoch: genesis_epoch,
            previous_justified_epoch: genesis_epoch,
        }
    }

    /// Get the current epoch.
    pub fn epoch(&self) -> (epoch: Epoch)
        ensures
            epoch == self.epoch,
    {
        self.epoch
    }

    /// Get the next epoch.
    pub fn next_epoch(&self) -> (epoch: Epoch)
        requires
            self.epoch < u64::MAX,
        ensures
            epoch == self.epoch + 1,
    {
        self.epoch() + 1
    }

    /// Get the previous epoch.
    pub fn previous_epoch(&self) -> (epoch: Epoch)
        ensures
            epoch == self.spec_previous_epoch(),
    {
        if self.epoch() == 0 {
            0
        } else {
            self.epoch() - 1
        }
    }

    /// Validate an attestation to be included in pending attestations.
    pub fn validate_attestation(&self, attestation: &CheckedAttestation) -> (valid: bool)
        ensures
            valid == self.spec_validate_attestation(attestation@),
    {
        attestation.is_source_canon() && if attestation.target_epoch() == self.epoch {
            attestation.source_epoch() == self.justified_epoch
        } else {
            attestation.source_epoch() == self.previous_justified_epoch
        }
    }

    /// Prune pending attestation list: the attestations whose target lies
    /// before the current epoch leave, the others stay in their order.
    pub fn prune_pending_attestations(&self, store: &mut Store)
        ensures
            final(store).pending_attestations@ == spec_retained(
                old(store).pending_attestations@,
                self.epoch,
                old(store).pending_attestations@.len(),
            ),
            final(store).epoch == old(store).epoch,
            final(store).validators == old(store).validators,
    {
        let current_epoch = self.epoch();
        let ghost all = store.pending_attestations@;
        let mut kept: usize = 0;
        let mut seen: usize = 0;
        let total = store.pending_attestations.len();
        while seen < total
            invariant
                seen <= total,
                total == all.len(),
                kept <= seen,
                current_epoch == self.epoch,
                store.epoch == old(store).epoch,
                store.validators == old(store).validators,
                store.pending_attestations@.len() == kept + (total - seen),
                store.pending_attestations@.subrange(0, kept as int) == spec_retained(
                    all,
                    current_epoch,
                    seen as nat,
                ),
                forall|j: int|
                    0 <= j < total - seen ==> #[trigger] store.pending_attestations@[kept + j]
                        == all[seen + j],
            decreases total - seen,
        {
            let ghost before = store.pending_attestations@;
            assert(before[kept + 0] == all[seen + 0]);
            if store.pending_attestations[kept].target_epoch() >= current_epoch {
                assert(before.subrange(0, kept + 1) =~= before.subrange(0, kept as int).push(
                    before[kept as int],
                ));
                assert forall|j: int| 0 <= j < total - (seen + 1) implies #[trigger] before[kept
                    + 1 + j] == all[seen + 1 + j] by {
                    assert(before[kept + (j + 1)] == all[seen + (j + 1)]);
                }
                kept += 1;
            } else {
                store.pending_attestations.remove(kept);
                let ghost after = store.pending_attestations@;
                assert(after.subrange(0, kept as int) =~= before.subrange(0, kept as int));
                assert forall|j: int| 0 <= j < total - (seen + 1) implies #[trigger] after[kept
                    + j] == all[seen + 1 + j] by {
                    assert(after[kept + j] == before[kept + j + 1]);
                    assert(before[kept + (j + 1)] == all[seen + (j + 1)]);
                }
            }
            seen += 1;
        }
        assert(store.pending_attestations@ =~= store.pending_attestations@.subrange(
            0,
            kept as int,
        ));
    }

    /// Advance the current epoch and start a new epoch.
    ///
    /// The store must stand at the engine's epoch. The previous and the
    /// current epoch are justified where the balance that attested to them
    /// is at least two thirds of the balance active in them; the
    /// justification bits, the justified and the finalized epoch follow.
    /// The attestations whose target lies before the epoch that ends leave
    /// the store.
    pub fn advance_epoch(&mut self, store: &mut Store)
        requires
            old(self).epoch == old(store).epoch,
            old(self).epoch < u64::MAX,
        ensures
            *final(self) == old(self).spec_advance(
                spec_is_supermajority(
                    spec_attesting_balance(
                        old(store).validators@,
                        old(store).pending_attestations@,
                        old(self).spec_previous_epoch(),
                        old(store).validators@.len(),
                    ),
                    spec_active_balance(
                        old(store).validators@,
                        old(self).spec_previous_epoch(),
                        old(store).validators@.len(),
                    ),
                ),
                spec_is_supermajority(
                    spec_attesting_balance(
                        old(store).validators@,
                        old(store).pending_attestations@,
                        old(self).epoch,
                        old(store).validators@.len(),
                    ),
                    spec_active_balance(
                        old(store).validators@,
                        old(self).epoch,
                        old(store).validators@.len(),
                    ),
                ),
            ),
            final(store).pending_attestations@ == spec_retained(
                old(store).pending_attestations@,
                old(self).epoch,
                old(store).pending_attestations@.len(),
            ),
            final(store).epoch == old(store).epoch,
            final(store).validators == old(store).validators,
    {
        let previous_justified = store.is_justified(self.previous_epoch());
        let current_justified = store.is_justified(self.epoch());
        let next = self.advance(previous_justified, current_justified);
        self.prune_pending_attestations(store);
        *self = next;
    }

    /// The engine after the current epoch ends, given whether the previous
    /// and the current epoch have the votes of a supermajority.
    pub fn advance(&self, previous_justified: bool, current_justified: bool) -> (next:
        CasperProcess)
        requires
            self.epoch < u64::MAX,
        ensures
            next == self.spec_advance(previous_justified, current_justified),
    {
        let mut new_justified_epoch = self.justified_epoch;
        let mut bits: u64 = self.justification_bitfield << 1;
        if previous_justified {
            bits = bits | 2;
            new_justified_epoch = self.previous_epoch();
        }
        if current_justified {
            bits = bits | 1;
            new_justified_epoch = self.epoch();
        }
        let previous = self.previous_epoch();
        let mut finalized_epoch = self.finalized_epoch;
        if (bits >> 1) % 8 == 7 && previous > 1 && self.previous_justified_epoch == previous - 2 {
            finalized_epoch = self.previous_justified_epoch;
        }
        if (bits >> 1) % 4 == 3 && previous >= 1 && self.previous_justified_epoch == previous
            - 1 {
            finalized_epoch = self.previous_justified_epoch;
        }
        if bits % 8 == 7 && previous >= 1 && self.justified_epoch == previous - 1 {
            finalized_epoch = self.justified_epoch;
        }
        if bits % 4 == 3 && self.justified_epoch == previous {
            finalized_epoch = self.justified_epoch;
        }
        CasperProcess {
            justification_bitfield: bits,
            epoch: self.epoch + 1,
            justified_epoch: new_justified_epoch,
            finalized_epoch,
            previous_justified_epoch: self.justified_epoch,
        }
    }
}

impl Default for CasperProcess {
    fn default() -> (process: CasperProcess)
        ensures
            process == CasperProcess::spec_new(0),
    {
        CasperProcess::new(0)
    }
}

/// The finalized epoch never moves back, and the justified epoch never
/// falls behind the epoch that was the previous justified one, for an
/// engine whose epochs stand in order; but for the one case in which the
/// previous epoch alone is justified while the previous justified epoch is
/// the current epoch itself.
pub proof fn lemma_finality_is_monotonic(
    process: CasperProcess,
    previous_justified: bool,
    current_justified: bool,
)
    requires
        process.spec_is_ordered(),
        !(previous_justified && !current_justified && process.previous_justified_epoch
            == process.epoch && process.epoch > 0),
    ensures
        process.spec_advance(previous_justified, current_justified).finalized_epoch
            >= process.finalized_epoch,
        process.spec_advance(previous_justified, current_justified).justified_epoch
            >= process.previous_justified_epoch,
{
}

/// An engine whose justified epoch lies before its current epoch, as it
/// does from the first epoch after genesis on, keeps its epochs in order
/// from epoch to epoch, and its justified epoch before the current one.
pub proof fn lemma_advance_keeps_order(
    process: CasperProcess,
    previous_justified: bool,
    current_justified: bool,
)
    requires
        process.spec_is_ordered(),
        process.justified_epoch <= process.spec_previous_epoch(),
        process.epoch < u64::MAX,
    ensures
        process.spec_advance(previous_justified, current_justified).spec_is_ordered(),
        process.spec_advance(previous_justified, current_justified).justified_epoch
            <= process.spec_advance(previous_justified, current_justified).spec_previous_epoch(),
        process.spec_advance(previous_justified, current_justified).epoch == process.epoch + 1,
{
}

} // verus!
