//! Laws of the transition engine, proved once and for all inputs.

use vstd::prelude::*;

use crate::engine::{spec_claim, spec_deposit, spec_withdraw};
use crate::state::{Identity, StakeAccount, StakeError, StakingPool};

verus! {

/// Sum of the staked `amount` over a pool's participant records.
pub open spec fn sum_amounts(accts: Seq<StakeAccount>) -> int
    decreases accts.len(),
{
    if accts.len() == 0 {
        0
    } else {
        accts[0].amount + sum_amounts(accts.drop_first())
    }
}

/// Conservation: the pool's `total_staked` equals the sum of its
/// participants' staked amounts.
pub open spec fn conserves(pool: StakingPool, accts: Seq<StakeAccount>) -> bool {
    pool.total_staked == sum_amounts(accts)
}

proof fn lemma_sum_amounts_update(accts: Seq<StakeAccount>, i: int, a: StakeAccount)
    requires
        0 <= i < accts.len(),
    ensures
        sum_amounts(accts.update(i, a)) == sum_amounts(accts) - accts[i].amount + a.amount,
    decreases accts.len(),
{
    if i == 0 {
        assert(accts.update(0, a).drop_first() =~= accts.drop_first());
    } else {
        lemma_sum_amounts_update(accts.drop_first(), i - 1, a);
        assert(accts.update(i, a).drop_first() =~= accts.drop_first().update(i - 1, a));
    }
}

proof fn lemma_sum_amounts_push(accts: Seq<StakeAccount>, a: StakeAccount)
    ensures
        sum_amounts(accts.push(a)) == sum_amounts(accts) + a.amount,
    decreases accts.len(),
{
    reveal_with_fuel(sum_amounts, 2);
    if accts.len() == 0 {
        assert(accts.push(a)[0] == a);
        assert(accts.push(a).drop_first() =~= Seq::<StakeAccount>::empty());
        assert(sum_amounts(accts.push(a)) == a.amount + sum_amounts(
            Seq::<StakeAccount>::empty(),
        ));
    } else {
        lemma_sum_amounts_push(accts.drop_first(), a);
        assert(accts.push(a)[0] == accts[0]);
        assert(accts.push(a).drop_first() =~= accts.drop_first().push(a));
        assert(sum_amounts(accts.push(a)) == accts[0].amount + sum_amounts(
            accts.drop_first().push(a),
        ));
    }
}

/// Conservation under a deposit into an existing participant record: if the
/// pool's total matched the participants' sum before, it does after, with
/// the depositor's record replaced by the updated one.
pub proof fn lemma_deposit_preserves_conservation(
    pool: StakingPool,
    accts: Seq<StakeAccount>,
    i: int,
    staker: Identity,
    amount: u64,
    now: u64,
)
    requires
        conserves(pool, accts),
        0 <= i < accts.len(),
        spec_deposit(pool, Some(accts[i]), staker, amount, now) is Ok,
    ensures
        ({
            let (new_pool, new_acct) = spec_deposit(pool, Some(accts[i]), staker, amount, now)
                ->Ok_0;
            conserves(new_pool, accts.update(i, new_acct))
        }),
{
    let new_acct = spec_deposit(pool, Some(accts[i]), staker, amount, now)->Ok_0.1;
    lemma_sum_amounts_update(accts, i, new_acct);
}

/// Conservation under a participant's first deposit: the freshly created
/// record joins the pool's participants, and the pool's total still matches
/// their sum.
pub proof fn lemma_first_deposit_preserves_conservation(
    pool: StakingPool,
    accts: Seq<StakeAccount>,
    staker: Identity,
    amount: u64,
    now: u64,
)
    requires
        conserves(pool, accts),
        spec_deposit(pool, None, staker, amount, now) is Ok,
    ensures
        ({
            let (new_pool, new_acct) = spec_deposit(pool, None, staker, amount, now)->Ok_0;
            conserves(new_pool, accts.push(new_acct))
        }),
{
    let new_acct = spec_deposit(pool, None, staker, amount, now)->Ok_0.1;
    lemma_sum_amounts_push(accts, new_acct);
}

/// Conservation under a withdrawal: the pool's total and the withdrawing
/// participant's amount fall by the same value.
pub proof fn lemma_withdraw_preserves_conservation(
    pool: StakingPool,
    accts: Seq<StakeAccount>,
    i: int,
    amount: u64,
    now: u64,
)
    requires
        conserves(pool, accts),
        0 <= i < accts.len(),
        spec_withdraw(pool, accts[i], amount, now) is Ok,
    ensures
        ({
            let (new_pool, new_acct) = spec_withdraw(pool, accts[i], amount, now)->Ok_0;
            conserves(new_pool, accts.update(i, new_acct))
        }),
{
    let new_acct = spec_withdraw(pool, accts[i], amount, now)->Ok_0.1;
    lemma_sum_amounts_update(accts, i, new_acct);
}

/// Conservation under a claim: a claim never touches the participant's
/// staked amount, so the pool's total still matches the participants' sum.
pub proof fn lemma_claim_preserves_conservation(
    pool: StakingPool,
    accts: Seq<StakeAccount>,
    i: int,
    now: u64,
)
    requires
        conserves(pool, accts),
        0 <= i < accts.len(),
        spec_claim(pool, accts[i], now) is Ok,
    ensures
        ({
            let (new_acct, _claimable) = spec_claim(pool, accts[i], now)->Ok_0;
            new_acct.amount == accts[i].amount && conserves(pool, accts.update(i, new_acct))
        }),
{
    let new_acct = spec_claim(pool, accts[i], now)->Ok_0.0;
    lemma_sum_amounts_update(accts, i, new_acct);
}

/// Non-negativity of balances: every balance is an unsigned 64-bit value, so
/// it can never be negative; a withdrawal larger than the participant's
/// staked amount does not wrap around but fails with `InsufficientFunds`,
/// returning no records at all.
pub proof fn lemma_withdraw_underflow_rejected(
    pool: StakingPool,
    acct: StakeAccount,
    amount: u64,
    now: u64,
)
    requires
        pool.is_initialized,
        acct.is_initialized,
        amount > acct.amount,
    ensures
        spec_withdraw(pool, acct, amount, now) == Err::<
            (StakingPool, StakeAccount),
            StakeError,
        >(StakeError::InsufficientFunds),
{
}

/// Idempotence of the zero deposit: depositing nothing leaves the
/// participant's record and the pool's `total_staked` unchanged, but still
/// advances the pool's `last_update_slot` to `now`.
pub proof fn lemma_zero_deposit_keeps_balances(
    pool: StakingPool,
    acct: StakeAccount,
    staker: Identity,
    now: u64,
)
    requires
        pool.is_initialized,
    ensures
        spec_deposit(pool, Some(acct), staker, 0, now) == Ok::<
            (StakingPool, StakeAccount),
            StakeError,
        >(
            (
                StakingPool {
                    is_initialized: pool.is_initialized,
                    authority: pool.authority,
                    total_staked: pool.total_staked,
                    reward_rate: pool.reward_rate,
                    last_update_slot: now,
                },
                acct,
            ),
        ),
{
}

/// A claim resets the accrual checkpoint: immediately after a claim at slot
/// `now`, a second claim at the same slot finds no elapsed time and no
/// banked rewards, reports zero claimable, and leaves the record as the
/// first claim left it.
pub proof fn lemma_claim_then_claim_yields_zero(pool: StakingPool, acct: StakeAccount, now: u64)
    requires
        spec_claim(pool, acct, now) is Ok,
    ensures
        ({
            let (settled, _claimable) = spec_claim(pool, acct, now)->Ok_0;
            spec_claim(pool, settled, now) == Ok::<(StakeAccount, u64), StakeError>((settled, 0))
        }),
{
}

} // verus!
