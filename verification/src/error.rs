//! The one error type that every state transition step returns.

use vstd::prelude::*;

verus! {

/// Why a step of the state transition was refused.
#[derive(Clone, Copy, Debug, PartialEq, Eq, Structural)]
pub enum Error {
    DepositIndexMismatch,
    DepositMerkleInvalid,
    DepositProofInvalid,
    DepositWithdrawalCredentialsMismatch,
    EpochOutOfRange,
    SlotOutOfRange,
    AttestationShardInvalid,
    AttestationBitFieldInvalid,
    ValidatorNotWithdrawable,
    ValidatorAttestationNotFound,
    BlockSlotInvalid,
    BlockPreviousRootInvalid,
    BlockSignatureInvalid,
    RandaoSignatureInvalid,
    ProposerSlashingInvalidSlot,
    ProposerSlashingSameHeader,
    ProposerSlashingAlreadySlashed,
    ProposerSlashingInvalidSignature,
    AttesterSlashingSameAttestation,
    AttesterSlashingNotSlashable,
    AttesterSlashingInvalid,
    AttesterSlashingEmptyIndices,
    AttestationTooFarInHistory,
    AttestationSubmittedTooQuickly,
    AttestationIncorrectJustifiedEpochOrBlockRoot,
    AttestationIncorrectCrosslinkData,
    AttestationEmptyAggregation,
    AttestationEmptyCustody,
    AttestationInvalidShard,
    AttestationInvalidCustody,
    AttestationInvalidSignature,
    AttestationInvalidCrosslink,
    VoluntaryExitAlreadyExited,
    VoluntaryExitAlreadyInitiated,
    VoluntaryExitNotYetValid,
    VoluntaryExitNotLongEnough,
    VoluntaryExitInvalidSignature,
    TransferNoFund,
    TransferNotValidSlot,
    TransferNotWithdrawable,
    TransferInvalidPublicKey,
    TransferInvalidSignature,
    TooManyProposerSlashings,
    TooManyAttesterSlashings,
    TooManyAttestations,
    TooManyDeposits,
    TooManyVoluntaryExits,
    TooManyTransfers,
    /// The committee that would supply the proposer has no member.
    ProposerCommitteeEmpty,
}

} // verus!
