//! Protocol constants of the beacon chain.

use vstd::prelude::*;

verus! {

/// Number of shards, and so of crosslinks kept in the state.
pub const SHARD_COUNT: usize = 1024;

/// Committee size the protocol aims for.
pub const TARGET_COMMITTEE_SIZE: usize = 128;

/// Upper bound on the validators named by one slashable vote.
pub const MAX_INDICES_PER_SLASHABLE_VOTE: usize = 4096;

/// Rounds of the swap-or-not shuffle.
pub const SHUFFLE_ROUND_COUNT: u64 = 90;

/// Depth of the deposit tree whose root the state tracks.
pub const DEPOSIT_CONTRACT_TREE_DEPTH: usize = 32;

/// Smallest deposit, in gwei.
pub const MIN_DEPOSIT_AMOUNT: u64 = 1000000000;

/// Largest balance that counts towards a validator's weight, in gwei.
pub const MAX_DEPOSIT_AMOUNT: u64 = 32000000000;

/// A validator whose balance falls below this is made to exit.
pub const EJECTION_BALANCE: u64 = 16000000000;

/// Fork version at genesis.
pub const GENESIS_FORK_VERSION: u64 = 0;

/// Slot of the genesis block.
pub const GENESIS_SLOT: u64 = 4294967296;

/// Epoch of the genesis block: `GENESIS_SLOT / SLOTS_PER_EPOCH`.
pub const GENESIS_EPOCH: u64 = 67108864;

/// Shard at which the genesis shuffling starts.
pub const GENESIS_START_SHARD: u64 = 0;

/// Epoch value of a lifecycle event that is not scheduled.
pub const FAR_FUTURE_EPOCH: u64 = 0xffff_ffff_ffff_ffff;

/// Number of slots in one epoch.
pub const SLOTS_PER_EPOCH: u64 = 64;

/// Epochs of look-ahead between a randao mix and the seed that uses it.
pub const MIN_SEED_LOOKAHEAD: u64 = 1;

/// Epochs between a request to activate or exit and its effect.
pub const ACTIVATION_EXIT_DELAY: u64 = 4;

/// Epochs a validator waits after exit before it can withdraw.
pub const MIN_VALIDATOR_WITHDRAWABILITY_DELAY: u64 = 256;

/// Length of the ring of recent block roots, and of recent state roots.
pub const SLOTS_PER_HISTORICAL_ROOT: usize = 8192;

/// Length of the ring of randao mixes.
pub const LATEST_RANDAO_MIXES_LENGTH: usize = 8192;

/// Length of the ring of active-index roots.
pub const LATEST_ACTIVE_INDEX_ROOTS_LENGTH: usize = 8192;

/// Length of the ring of slashed balances.
pub const LATEST_SLASHED_EXIT_LENGTH: usize = 8192;

/// A whistleblower earns the slashed effective balance divided by this.
pub const WHISTLEBLOWER_REWARD_QUOTIENT: u64 = 512;

/// Epochs a validator serves before it may ask to exit.
pub const PERSISTENT_COMMITTEE_PERIOD: u64 = 2048;

/// Most proposer slashings in a block.
pub const MAX_PROPOSER_SLASHINGS: usize = 16;

/// Most attester slashings in a block.
pub const MAX_ATTESTER_SLASHINGS: usize = 1;

/// Most attestations in a block.
pub const MAX_ATTESTATIONS: usize = 128;

/// Most deposits in a block.
pub const MAX_DEPOSITS: usize = 16;

/// Most voluntary exits in a block.
pub const MAX_VOLUNTARY_EXITS: usize = 16;

/// Most transfers in a block.
pub const MAX_TRANSFERS: usize = 16;

/// Signature domain of block proposals.
pub const DOMAIN_PROPOSER: u64 = 0;

/// Signature domain of randao reveals.
pub const DOMAIN_RANDAO: u64 = 1;

/// Signature domain of attestations.
pub const DOMAIN_ATTESTATION: u64 = 2;

/// Signature domain of deposits.
pub const DOMAIN_DEPOSIT: u64 = 3;

/// Signature domain of voluntary exits.
pub const DOMAIN_EXIT: u64 = 4;

/// Signature domain of transfers.
pub const DOMAIN_TRANSFER: u64 = 5;

} // verus!
