//! Slashing and deposits: the registry operations that move balances.

use crate::committee::lemma_committee_members_are_validators;
use crate::consts::{LATEST_SLASHED_EXIT_LENGTH, WHISTLEBLOWER_REWARD_QUOTIENT};
use crate::error::Error;
use crate::eth1::{CheckedDeposit, Deposit};
use crate::primitives::{Gwei, ValidatorId, ValidatorIndex};
use crate::state::{BeaconState, BeaconStateView};
use crate::util::{lemma_slot_before_epoch_start, spec_epoch_start_slot};
use crate::validator::Validator;
use vstd::prelude::*;

verus! {

impl BeaconStateView {
    /// Whether validator `index` can still be slashed: the current slot
    /// lies before the first slot of the epoch from which it may withdraw.
    pub open spec fn is_slashable(&self, index: ValidatorIndex) -> bool {
        self.slot < spec_epoch_start_slot(
            self.validator_registry[index as int].withdrawable_epoch,
        )
    }

    /// The position of the current epoch in the ring of slashed balances.
    pub open spec fn slashed_balance_position(&self) -> int {
        (self.current_epoch() % LATEST_SLASHED_EXIT_LENGTH as u64) as int
    }

    /// What the proposer earns for including the slashing of `index`.
    pub open spec fn whistleblower_reward(&self, index: ValidatorIndex) -> Gwei {
        self.effective_balance(index) / WHISTLEBLOWER_REWARD_QUOTIENT
    }

    /// Whether slashing `index` stays within 64-bit balances whoever
    /// proposes.
    pub open spec fn slashing_fits(&self, index: ValidatorIndex) -> bool {
        &&& self.latest_slashed_balances[self.slashed_balance_position()]
            + self.effective_balance(index) <= u64::MAX
        &&& forall|i: int|
            0 <= i < self.validator_balances.len() ==> #[trigger] self.validator_balances[i]
                + self.whistleblower_reward(index) <= u64::MAX
    }

    /// The state after validator `index` has exited and its effective
    /// balance is added to the slashed balances of the current epoch.
    pub open spec fn begin_slashing(&self, index: ValidatorIndex) -> BeaconStateView {
        let exited = self.exit_validator(index);
        BeaconStateView {
            latest_slashed_balances: exited.latest_slashed_balances.update(
                exited.slashed_balance_position(),
                (exited.latest_slashed_balances[exited.slashed_balance_position()]
                    + exited.effective_balance(index)) as u64,
            ),
            ..exited
        }
    }

    /// The state after `whistleblower` is paid the reward out of the
    /// balance of `index`, and `index` is marked as slashed and may
    /// withdraw once the ring of slashed balances has gone round.
    pub open spec fn finish_slashing(
        &self,
        index: ValidatorIndex,
        whistleblower: ValidatorIndex,
    ) -> BeaconStateView {
        let reward = self.whistleblower_reward(index);
        let credited = self.validator_balances.update(
            whistleblower as int,
            (self.validator_balances[whistleblower as int] + reward) as u64,
        );
        BeaconStateView {
            validator_balances: credited.update(
                index as int,
                (credited[index as int] - reward) as u64,
            ),
            validator_registry: self.validator_registry.update(
                index as int,
                Validator {
                    slashed: true,
                    withdrawable_epoch: (self.current_epoch()
                        + LATEST_SLASHED_EXIT_LENGTH) as u64,
                    ..self.validator_registry[index as int]
                },
            ),
            ..*self
        }
    }

    /// What slashing validator `index` returns.
    pub open spec fn slash_validator_result(&self, index: ValidatorIndex) -> Result<(), Error> {
        if !self.is_slashable(index) {
            Err(Error::ValidatorNotWithdrawable)
        } else {
            match self.begin_slashing(index).beacon_proposer_result(self.slot, false) {
                Ok(_) => Ok(()),
                Err(e) => Err(e),
            }
        }
    }

    /// The state that slashing validator `index` leaves.
    pub open spec fn slash_validator(&self, index: ValidatorIndex) -> BeaconStateView {
        if !self.is_slashable(index) {
            *self
        } else {
            let begun = self.begin_slashing(index);
            match begun.beacon_proposer_result(self.slot, false) {
                Ok(whistleblower) => begun.finish_slashing(index, whistleblower),
                Err(_) => begun,
            }
        }
    }

    /// Whether taking a deposit of `amount` stays within 64-bit numbers
    /// whichever validator it is for.
    pub open spec fn deposit_fits(&self, amount: Gwei) -> bool {
        &&& self.deposit_index < u64::MAX
        &&& forall|i: int|
            0 <= i < self.validator_balances.len() ==> #[trigger] self.validator_balances[i]
                + amount <= u64::MAX
    }

    /// The state after one more deposit is counted.
    pub open spec fn count_deposit(&self) -> BeaconStateView {
        BeaconStateView { deposit_index: (self.deposit_index + 1) as u64, ..*self }
    }

    /// Whether `deposit` is for a validator of the registry and names other
    /// withdrawal credentials than the registry holds.
    pub open spec fn has_other_credentials(&self, deposit: Deposit) -> bool {
        match self.find_validator(deposit.deposit_data.deposit_input.pubkey) {
            Some(i) => self.validator_registry[i].withdrawal_credentials@
                != deposit.deposit_data.deposit_input.withdrawal_credentials@,
            None => false,
        }
    }

    /// The state after the amount of `deposit` is credited: to the
    /// validator with the deposit's key, or to a new validator at the end of
    /// the registry where no validator has that key.
    pub open spec fn credit_deposit(&self, deposit: Deposit) -> BeaconStateView {
        let input = deposit.deposit_data.deposit_input;
        match self.find_validator(input.pubkey) {
            Some(i) => BeaconStateView {
                validator_balances: self.validator_balances.update(
                    i,
                    (self.validator_balances[i] + deposit.deposit_data.amount) as u64,
                ),
                ..*self
            },
            None => BeaconStateView {
                validator_registry: self.validator_registry.push(
                    Validator::spec_new(input.pubkey, input.withdrawal_credentials),
                ),
                validator_balances: self.validator_balances.push(deposit.deposit_data.amount),
                ..*self
            },
        }
    }

    /// What applying a deposit returns.
    pub open spec fn push_deposit_result(&self, checked: CheckedDeposit) -> Result<(), Error> {
        if checked.deposit.index != self.deposit_index {
            Err(Error::DepositIndexMismatch)
        } else if !checked.deposit.spec_is_merkle_valid(self.latest_eth1_data.deposit_root) {
            Err(Error::DepositMerkleInvalid)
        } else if !checked.is_proof_valid {
            Err(Error::DepositProofInvalid)
        } else if self.has_other_credentials(checked.deposit) {
            Err(Error::DepositWithdrawalCredentialsMismatch)
        } else {
            Ok(())
        }
    }

    /// The state that applying a deposit leaves: unchanged where the index
    /// or the Merkle path is refused, with the deposit counted where a later
    /// check refuses it, and with the deposit counted and credited where it
    /// is accepted.
    pub open spec fn push_deposit(&self, checked: CheckedDeposit) -> BeaconStateView {
        match self.push_deposit_result(checked) {
            Err(Error::DepositIndexMismatch) => *self,
            Err(Error::DepositMerkleInvalid) => *self,
            Err(_) => self.count_deposit(),
            Ok(_) => self.count_deposit().credit_deposit(checked.deposit),
        }
    }
}

/// The members of the committees of a slot are indices of the registry.
pub proof fn lemma_proposer_is_validator(state: BeaconStateView, slot: u64, registry_change: bool)
    requires
        state.wf(),
        state.validator_registry.len() <= u64::MAX,
        state.beacon_proposer_result(slot, registry_change) is Ok,
    ensures
        state.beacon_proposer_index(slot, registry_change) < state.validator_registry.len(),
{
    lemma_committee_members_are_validators(state, slot, registry_change, 0);
    let committee = state.proposer_committee(slot, registry_change);
    let position = slot as int % committee.len() as int;
    assert(0 <= position < committee.len());
}

impl BeaconState {
    /// Slashes validator `index`.
    ///
    /// A validator that may already withdraw is not slashed:
    /// `ValidatorNotWithdrawable`, and the state stays as it was. Otherwise
    /// the validator exits and its effective balance is added to the
    /// slashed balances of the current epoch; then the proposer of the
    /// current slot is paid the whistleblower reward out of the validator's
    /// balance, and the validator is marked as slashed. Where the current
    /// slot has no proposer, the error says so and the state keeps the exit
    /// and the slashed balance.
    pub fn slash_validator(&mut self, index: ValidatorIndex) -> (r: Result<(), Error>)
        requires
            old(self).wf(),
            index < old(self)@.validator_registry.len(),
            old(self)@.slashing_fits(index),
        ensures
            r == old(self)@.slash_validator_result(index),
            final(self)@ == old(self)@.slash_validator(index),
            final(self).wf(),
    {
        let count = self.validator_registry.len();
        assert(index < count);
        proof {
            lemma_slot_before_epoch_start(
                self.slot,
                self@.validator_registry[index as int].withdrawable_epoch,
            );
        }
        if self.current_epoch() >= self.validator_registry[index as usize].withdrawable_epoch {
            return Err(Error::ValidatorNotWithdrawable);
        }
        self.exit_validator(index);

        let position = (self.current_epoch() % LATEST_SLASHED_EXIT_LENGTH as u64) as usize;
        let slashed = self.latest_slashed_balances[position] + self.effective_balance(index);
        self.latest_slashed_balances[position] = slashed;
        assert(self@ == old(self)@.begin_slashing(index));

        let whistleblower_index = match self.beacon_proposer_index(self.slot, false) {
            Ok(whistleblower_index) => whistleblower_index,
            Err(e) => {
                return Err(e);
            },
        };
        proof {
            lemma_proposer_is_validator(self@, self.slot, false);
        }
        let whistleblower_reward = self.effective_balance(index) / WHISTLEBLOWER_REWARD_QUOTIENT;
        let ghost begun = self@;
        assert(begun.validator_balances == old(self)@.validator_balances);
        let credited = self.validator_balances[whistleblower_index as usize]
            + whistleblower_reward;
        self.validator_balances[whistleblower_index as usize] = credited;
        let debited = self.validator_balances[index as usize] - whistleblower_reward;
        self.validator_balances[index as usize] = debited;
        let mut validator = self.validator_registry[index as usize];
        validator.slashed = true;
        validator.withdrawable_epoch = self.current_epoch() + LATEST_SLASHED_EXIT_LENGTH as u64;
        self.validator_registry[index as usize] = validator;
        assert(self@ == begun.finish_slashing(index, whistleblower_index));
        Ok(())
    }
    /// Applies a deposit.
    ///
    /// The deposit must carry the index that the state expects next
    /// (`DepositIndexMismatch`) and a Merkle path to the deposit root that
    /// the state holds (`DepositMerkleInvalid`); until then the state is
    /// untouched. Then the deposit is counted. Its proof of possession must
    /// hold (`DepositProofInvalid`), and where the key belongs to a validator
    /// of the registry the withdrawal credentials must be that validator's
    /// (`DepositWithdrawalCredentialsMismatch`). The amount goes to that
    /// validator, or to a new one at the end of the registry.
    pub fn push_deposit(&mut self, checked: &CheckedDeposit) -> (r: Result<(), Error>)
        requires
            old(self).wf(),
            old(self)@.deposit_fits(checked.deposit.deposit_data.amount),
        ensures
            r == old(self)@.push_deposit_result(*checked),
            final(self)@ == old(self)@.push_deposit(*checked),
            final(self).wf(),
    {
        let deposit = &checked.deposit;
        if deposit.index != self.deposit_index {
            return Err(Error::DepositIndexMismatch);
        }
        if !deposit.is_merkle_valid(&self.latest_eth1_data.deposit_root) {
            return Err(Error::DepositMerkleInvalid);
        }
        self.deposit_index += 1;

        if !checked.is_proof_valid {
            return Err(Error::DepositProofInvalid);
        }
        let input = &deposit.deposit_data.deposit_input;
        assert(self@.find_validator(input.pubkey) == old(self)@.find_validator(input.pubkey)) by {
            lemma_find_validator_depends_on_registry(self@, old(self)@, input.pubkey, 0);
        }
        match self.validator_position(&input.pubkey) {
            Some(i) => {
                if self.validator_registry[i].withdrawal_credentials
                    != input.withdrawal_credentials {
                    return Err(Error::DepositWithdrawalCredentialsMismatch);
                }
                let balance = self.validator_balances[i] + deposit.deposit_data.amount;
                self.validator_balances[i] = balance;
            },
            None => {
                self.validator_registry.push(
                    Validator::new(input.pubkey, input.withdrawal_credentials),
                );
                self.validator_balances.push(deposit.deposit_data.amount);
            },
        }
        assert(self@ == old(self)@.count_deposit().credit_deposit(*deposit));
        Ok(())
    }
}

/// A validator that is found stands in the registry at or after the place
/// the search started from, and holds the key.
pub proof fn lemma_find_validator_in_range(
    state: BeaconStateView,
    id: ValidatorId,
    from: int,
)
    requires
        0 <= from,
    ensures
        state.find_validator_from(id, from) matches Some(i) ==> from <= i
            < state.validator_registry.len() && state.validator_registry[i].pubkey@ == id@,
    decreases state.validator_registry.len() - from,
{
    if from < state.validator_registry.len() {
        lemma_find_validator_in_range(state, id, from + 1);
    }
}

/// A deposit keeps the registry and the balances in step. An accepted
/// deposit is counted once; a deposit that is refused for its index or for
/// its Merkle path leaves the state as it was.
pub proof fn lemma_push_deposit_keeps_coupling(state: BeaconStateView, checked: CheckedDeposit)
    requires
        state.wf(),
        state.deposit_index < u64::MAX,
    ensures
        state.push_deposit(checked).wf(),
        state.push_deposit(checked).validator_registry.len() == state.push_deposit(
            checked,
        ).validator_balances.len(),
        state.push_deposit_result(checked) is Ok ==> state.push_deposit(checked).deposit_index
            == state.deposit_index + 1,
        state.push_deposit_result(checked) == Err::<(), Error>(Error::DepositIndexMismatch)
            ==> state.push_deposit(checked) == state,
        state.push_deposit_result(checked) == Err::<(), Error>(Error::DepositMerkleInvalid)
            ==> state.push_deposit(checked) == state,
{
    let input = checked.deposit.deposit_data.deposit_input;
    lemma_find_validator_in_range(state.count_deposit(), input.pubkey, 0);
}

/// Slashing keeps the registry and the balances in step and leaves the
/// count of deposits alone.
pub proof fn lemma_slash_validator_keeps_coupling(state: BeaconStateView, index: ValidatorIndex)
    requires
        state.wf(),
        index < state.validator_registry.len() <= u64::MAX,
    ensures
        state.slash_validator(index).validator_registry.len() == state.slash_validator(
            index,
        ).validator_balances.len(),
        state.slash_validator(index).deposit_index == state.deposit_index,
        state.slash_validator(index).slot == state.slot,
{
    let begun = state.begin_slashing(index);
    if state.is_slashable(index) && begun.beacon_proposer_result(state.slot, false) is Ok {
        lemma_proposer_is_validator(begun, state.slot, false);
    }
}

/// Where a validator is found depends on the registry alone.
pub proof fn lemma_find_validator_depends_on_registry(
    a: BeaconStateView,
    b: BeaconStateView,
    id: ValidatorId,
    from: int,
)
    requires
        a.validator_registry == b.validator_registry,
    ensures
        a.find_validator_from(id, from) == b.find_validator_from(id, from),
    decreases a.validator_registry.len() - from,
{
    if 0 <= from < a.validator_registry.len() {
        lemma_find_validator_depends_on_registry(a, b, id, from + 1);
    }
}

} // verus!
