//! Record types, operation requests and the error taxonomy of the ledger.

use vstd::prelude::*;

verus! {

/// A participant or authority identity: the 32 raw bytes of the public key
/// under which the host authenticated the caller. The core never inspects the
/// bytes; it only records them.
#[derive(Clone, Copy, Debug, PartialEq, Eq)]
pub struct Identity {
    pub bytes: [u8; 32],
}

/// The operations a caller can request of a pool.
#[derive(Clone, Copy, Debug, PartialEq, Eq, Structural)]
pub enum StakeInstruction {
    /// Create a staking pool with the given reward rate.
    InitializePool { reward_rate: u64 },
    /// Deposit stake into a pool.
    Stake { amount: u64 },
    /// Withdraw stake from a pool.
    Unstake { amount: u64 },
    /// Claim the rewards accrued so far.
    ClaimRewards,
}

/// One record per staking pool.
#[derive(Clone, Copy, Debug, PartialEq, Eq)]
pub struct StakingPool {
    /// Guards against double initialization and use before initialization.
    pub is_initialized: bool,
    /// The account that created the pool; recorded, never checked afterwards.
    pub authority: Identity,
    /// Sum of all participants' `amount` in this pool.
    pub total_staked: u64,
    /// Reward units accrued per unit staked per slot, scaled down by
    /// [`crate::engine::REWARD_DENOMINATOR`].
    pub reward_rate: u64,
    /// Slot of the most recent deposit or withdrawal affecting this pool.
    pub last_update_slot: u64,
}

/// One record per (pool, participant) pair.
#[derive(Clone, Copy, Debug, PartialEq, Eq)]
pub struct StakeAccount {
    /// Guards against use before initialization.
    pub is_initialized: bool,
    /// The owning participant.
    pub staker: Identity,
    /// Currently staked balance, available for withdrawal.
    pub amount: u64,
    /// Slot of the last accrual checkpoint; reset by withdraw and claim.
    pub last_claim_slot: u64,
    /// Rewards accrued and not yet paid out, excluding rewards accrued since
    /// `last_claim_slot`.
    pub total_rewards: u64,
}

/// Every way an operation can fail. An error aborts the operation with no
/// record changed: the transition functions return errors without records.
#[derive(Clone, Copy, Debug, PartialEq, Eq, Structural)]
pub enum StakeError {
    /// The operation request was malformed (raised at the decoding boundary,
    /// never by the transition core itself).
    InvalidInstruction,
    /// Storage allocation would leave a slot underfunded (the host's concern).
    NotRentExempt,
    /// `initialize` against a slot that already holds an initialized pool.
    AlreadyInitialized,
    /// An operation against a pool or participant record not yet initialized.
    NotInitialized,
    /// Reserved for authority-restricted operations; no current operation
    /// raises it.
    InvalidAuthority,
    /// A withdrawal larger than the participant's or the pool's balance.
    InsufficientFunds,
    /// A checked arithmetic step would overflow the unsigned 64-bit range.
    MathOverflow,
}

} // verus!
