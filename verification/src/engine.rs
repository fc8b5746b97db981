//! The transition engine: pure functions from record snapshots, a monotonic
//! slot counter and operation arguments to updated snapshots or a typed
//! error.
//!
//! Each executable operation is proved equal to a specification-level
//! transition function, so a caller knows the exact result — including which
//! error comes back on which input — for every input.

use vstd::prelude::*;

use crate::state::{Identity, StakeAccount, StakeError, StakingPool};

verus! {

/// Fixed denominator of the reward-accrual formula: `reward_rate` is scaled
/// down by this factor, and fractional reward units are truncated away.
pub const REWARD_DENOMINATOR: u64 = 10000;

/// Slots elapsed since the last accrual checkpoint, clamped to zero when the
/// supplied counter runs behind the checkpoint (non-monotonic time counts as
/// no time passed, not as an error).
pub open spec fn elapsed_since(now: u64, last_claim_slot: u64) -> int {
    if now >= last_claim_slot {
        now - last_claim_slot
    } else {
        0
    }
}

/// The reward accrued by `amount` staked at `reward_rate` over `elapsed`
/// slots: `floor(amount * reward_rate * elapsed / 10000)`. Truncation toward
/// zero is deliberate; the fraction is lost, not carried forward.
pub open spec fn accrued_reward(amount: u64, reward_rate: u64, elapsed: int) -> int {
    (amount * reward_rate * elapsed) / (REWARD_DENOMINATOR as int)
}

/// Whether the accrual formula's checked multiplications overflow. The first
/// product `amount * reward_rate` is formed before `elapsed` is applied, so
/// it must fit on its own even when `elapsed` is zero.
pub open spec fn accrual_overflows(amount: u64, reward_rate: u64, elapsed: int) -> bool {
    amount * reward_rate > u64::MAX || amount * reward_rate * elapsed > u64::MAX
}

/// Specification of `initialize`.
pub open spec fn spec_initialize(
    existing: Option<StakingPool>,
    authority: Identity,
    reward_rate: u64,
    now: u64,
) -> Result<StakingPool, StakeError> {
    match existing {
        Some(prior) => {
            if prior.is_initialized {
                Err(StakeError::AlreadyInitialized)
            } else {
                Ok(fresh_pool(authority, reward_rate, now))
            }
        },
        None => Ok(fresh_pool(authority, reward_rate, now)),
    }
}

/// The pool record `initialize` commits.
pub open spec fn fresh_pool(authority: Identity, reward_rate: u64, now: u64) -> StakingPool {
    StakingPool {
        is_initialized: true,
        authority,
        total_staked: 0,
        reward_rate,
        last_update_slot: now,
    }
}

/// The participant record a first deposit creates.
pub open spec fn fresh_account(staker: Identity, now: u64) -> StakeAccount {
    StakeAccount {
        is_initialized: true,
        staker,
        amount: 0,
        last_claim_slot: now,
        total_rewards: 0,
    }
}

/// Specification of `deposit`.
pub open spec fn spec_deposit(
    pool: StakingPool,
    acct: Option<StakeAccount>,
    staker: Identity,
    amount: u64,
    now: u64,
) -> Result<(StakingPool, StakeAccount), StakeError> {
    if !pool.is_initialized {
        Err(StakeError::NotInitialized)
    } else {
        let base = match acct {
            Some(a) => a,
            None => fresh_account(staker, now),
        };
        if base.amount + amount > u64::MAX {
            Err(StakeError::MathOverflow)
        } else if pool.total_staked + amount > u64::MAX {
            Err(StakeError::MathOverflow)
        } else {
            Ok((
                StakingPool {
                    is_initialized: pool.is_initialized,
                    authority: pool.authority,
                    total_staked: (pool.total_staked + amount) as u64,
                    reward_rate: pool.reward_rate,
                    last_update_slot: now,
                },
                StakeAccount {
                    is_initialized: base.is_initialized,
                    staker: base.staker,
                    amount: (base.amount + amount) as u64,
                    last_claim_slot: base.last_claim_slot,
                    total_rewards: base.total_rewards,
                },
            ))
        }
    }
}

/// Specification of `withdraw`.
pub open spec fn spec_withdraw(
    pool: StakingPool,
    acct: StakeAccount,
    amount: u64,
    now: u64,
) -> Result<(StakingPool, StakeAccount), StakeError> {
    let elapsed = elapsed_since(now, acct.last_claim_slot);
    let pending = accrued_reward(acct.amount, pool.reward_rate, elapsed);
    if !pool.is_initialized || !acct.is_initialized {
        Err(StakeError::NotInitialized)
    } else if acct.amount < amount {
        Err(StakeError::InsufficientFunds)
    } else if accrual_overflows(acct.amount, pool.reward_rate, elapsed) {
        Err(StakeError::MathOverflow)
    } else if acct.total_rewards + pending > u64::MAX {
        Err(StakeError::MathOverflow)
    } else if pool.total_staked < amount {
        Err(StakeError::InsufficientFunds)
    } else {
        Ok((
            StakingPool {
                is_initialized: pool.is_initialized,
                authority: pool.authority,
                total_staked: (pool.total_staked - amount) as u64,
                reward_rate: pool.reward_rate,
                last_update_slot: now,
            },
            StakeAccount {
                is_initialized: acct.is_initialized,
                staker: acct.staker,
                amount: (acct.amount - amount) as u64,
                last_claim_slot: now,
                total_rewards: (acct.total_rewards + pending) as u64,
            },
        ))
    }
}

/// Specification of `claim`. The `u64` of the `Ok` pair is the reported
/// claimable total; no funds move inside the core.
pub open spec fn spec_claim(
    pool: StakingPool,
    acct: StakeAccount,
    now: u64,
) -> Result<(StakeAccount, u64), StakeError> {
    let elapsed = elapsed_since(now, acct.last_claim_slot);
    let pending = accrued_reward(acct.amount, pool.reward_rate, elapsed);
    if !pool.is_initialized || !acct.is_initialized {
        Err(StakeError::NotInitialized)
    } else if accrual_overflows(acct.amount, pool.reward_rate, elapsed) {
        Err(StakeError::MathOverflow)
    } else if acct.total_rewards + pending > u64::MAX {
        Err(StakeError::MathOverflow)
    } else {
        Ok((
            StakeAccount {
                is_initialized: acct.is_initialized,
                staker: acct.staker,
                amount: acct.amount,
                last_claim_slot: now,
                total_rewards: 0,
            },
            (acct.total_rewards + pending) as u64,
        ))
    }
}

/// Create a pool record.
///
/// `existing` is whatever the target storage slot already holds: creating
/// over an initialized pool fails with `AlreadyInitialized`; otherwise the
/// new pool starts with nothing staked and the given reward rate.
pub fn initialize(
    existing: &Option<StakingPool>,
    authority: Identity,
    reward_rate: u64,
    now: u64,
) -> (r: Result<StakingPool, StakeError>)
    ensures
        r == spec_initialize(*existing, authority, reward_rate, now),
{
    match existing {
        Some(prior) => {
            if prior.is_initialized {
                return Err(StakeError::AlreadyInitialized);
            }
        },
        None => {},
    }
    Ok(StakingPool {
        is_initialized: true,
        authority,
        total_staked: 0,
        reward_rate,
        last_update_slot: now,
    })
}

/// Deposit `amount` into the pool for `staker`.
///
/// A missing participant record (`acct == None`) is created on the spot with
/// an empty balance. The deposit raises the participant's `amount` and the
/// pool's `total_staked` by the same value and refreshes the pool's
/// `last_update_slot`; it does not settle pending rewards, so the accrual
/// checkpoint is left where it was. On any error no record changes.
pub fn deposit(
    pool: &StakingPool,
    acct: &Option<StakeAccount>,
    staker: Identity,
    amount: u64,
    now: u64,
) -> (r: Result<(StakingPool, StakeAccount), StakeError>)
    ensures
        r == spec_deposit(*pool, *acct, staker, amount, now),
{
    if !pool.is_initialized {
        return Err(StakeError::NotInitialized);
    }
    let base: StakeAccount = match acct {
        Some(a) => *a,
        None => StakeAccount {
            is_initialized: true,
            staker,
            amount: 0,
            last_claim_slot: now,
            total_rewards: 0,
        },
    };
    let new_amount: u64 = match base.amount.checked_add(amount) {
        Some(v) => v,
        None => {
            return Err(StakeError::MathOverflow);
        },
    };
    let new_total: u64 = match pool.total_staked.checked_add(amount) {
        Some(v) => v,
        None => {
            return Err(StakeError::MathOverflow);
        },
    };
    Ok((
        StakingPool {
            is_initialized: pool.is_initialized,
            authority: pool.authority,
            total_staked: new_total,
            reward_rate: pool.reward_rate,
            last_update_slot: now,
        },
        StakeAccount {
            is_initialized: base.is_initialized,
            staker: base.staker,
            amount: new_amount,
            last_claim_slot: base.last_claim_slot,
            total_rewards: base.total_rewards,
        },
    ))
}

/// Settle pending rewards at the participant's pre-withdrawal balance, then
/// move `amount` out of the stake.
///
/// Both the participant's `amount` and the pool's `total_staked` fall by
/// `amount`; the accrued reward joins `total_rewards` and the accrual
/// checkpoint moves to `now`. A balance too small at either the participant
/// or the pool level fails with `InsufficientFunds`; an accrual or reward
/// sum past the 64-bit range fails with `MathOverflow`. On any error no
/// record changes.
pub fn withdraw(
    pool: &StakingPool,
    acct: &StakeAccount,
    amount: u64,
    now: u64,
) -> (r: Result<(StakingPool, StakeAccount), StakeError>)
    ensures
        r == spec_withdraw(*pool, *acct, amount, now),
{
    if !pool.is_initialized || !acct.is_initialized {
        return Err(StakeError::NotInitialized);
    }
    if acct.amount < amount {
        return Err(StakeError::InsufficientFunds);
    }
    let pending: u64 = match pending_reward(acct, pool, now) {
        Ok(v) => v,
        Err(e) => {
            return Err(e);
        },
    };
    let new_rewards: u64 = match acct.total_rewards.checked_add(pending) {
        Some(v) => v,
        None => {
            return Err(StakeError::MathOverflow);
        },
    };
    if pool.total_staked < amount {
        return Err(StakeError::InsufficientFunds);
    }
    Ok((
        StakingPool {
            is_initialized: pool.is_initialized,
            authority: pool.authority,
            total_staked: pool.total_staked - amount,
            reward_rate: pool.reward_rate,
            last_update_slot: now,
        },
        StakeAccount {
            is_initialized: acct.is_initialized,
            staker: acct.staker,
            amount: acct.amount - amount,
            last_claim_slot: now,
            total_rewards: new_rewards,
        },
    ))
}

/// Settle pending rewards at the current balance and report the claimable
/// total; the principal stays staked.
///
/// The participant's `total_rewards` resets to zero and the accrual
/// checkpoint moves to `now`; the reported value is the old `total_rewards`
/// plus the reward accrued since the checkpoint. On any error no record
/// changes.
pub fn claim(
    pool: &StakingPool,
    acct: &StakeAccount,
    now: u64,
) -> (r: Result<(StakeAccount, u64), StakeError>)
    ensures
        r == spec_claim(*pool, *acct, now),
{
    if !pool.is_initialized || !acct.is_initialized {
        return Err(StakeError::NotInitialized);
    }
    let pending: u64 = match pending_reward(acct, pool, now) {
        Ok(v) => v,
        Err(e) => {
            return Err(e);
        },
    };
    let total_claimable: u64 = match acct.total_rewards.checked_add(pending) {
        Some(v) => v,
        None => {
            return Err(StakeError::MathOverflow);
        },
    };
    Ok((
        StakeAccount {
            is_initialized: acct.is_initialized,
            staker: acct.staker,
            amount: acct.amount,
            last_claim_slot: now,
            total_rewards: 0,
        },
        total_claimable,
    ))
}

/// The checked reward accrual: `floor(amount * reward_rate * elapsed /
/// 10000)`, where each multiplication must fit in 64 bits.
fn pending_reward(acct: &StakeAccount, pool: &StakingPool, now: u64) -> (r: Result<
    u64,
    StakeError,
>)
    ensures
        ({
            let elapsed = elapsed_since(now, acct.last_claim_slot);
            match r {
                Ok(v) => !accrual_overflows(acct.amount, pool.reward_rate, elapsed) && v
                    == accrued_reward(acct.amount, pool.reward_rate, elapsed),
                Err(e) => e == StakeError::MathOverflow && accrual_overflows(
                    acct.amount,
                    pool.reward_rate,
                    elapsed,
                ),
            }
        }),
{
    let elapsed: u64 = if now >= acct.last_claim_slot {
        now - acct.last_claim_slot
    } else {
        0
    };
    let staked_times_rate: u64 = match acct.amount.checked_mul(pool.reward_rate) {
        Some(v) => v,
        None => {
            return Err(StakeError::MathOverflow);
        },
    };
    let scaled: u64 = match staked_times_rate.checked_mul(elapsed) {
        Some(v) => v,
        None => {
            return Err(StakeError::MathOverflow);
        },
    };
    Ok(scaled / REWARD_DENOMINATOR)
}

} // verus!
