//! The reward pool accountant: a finite budget debited a fixed amount per
//! successful claim, never overdrawn.
//!
//! `claim_rewards` authorizes an external transfer of exactly the pool's
//! per-trip amount and returns that amount to the caller, who must hand it to
//! the custody ledger within the same atomic transition. `distribute_reward`
//! is the administrative variant that updates the bookkeeping without any
//! custody movement — a deliberately trust-weakened path for rewards settled
//! off the ledger.

use vstd::prelude::*;
use crate::errors::DriverTripRewardError;
use crate::keys::Pubkey;
use crate::state::{sat_add_u64, DriverAccount, RewardPoolAccount};

verus! {

/// Why `initialize_reward_pool` would be refused, `None` when it succeeds.
pub open spec fn initialize_reward_pool_check(
    start_time: i64,
    end_time: i64,
    total_rewards: u64,
) -> Option<DriverTripRewardError> {
    if start_time >= end_time {
        Some(DriverTripRewardError::RewardPoolNotFound)
    } else if total_rewards == 0 {
        Some(DriverTripRewardError::RewardPoolNotFound)
    } else {
        None
    }
}

/// The fresh pool record that `initialize_reward_pool` writes.
pub open spec fn initialized_reward_pool(
    pool_id: u64,
    total_rewards: u64,
    reward_per_trip: u64,
    start_time: i64,
    end_time: i64,
    vault: Pubkey,
    bump: u8,
) -> RewardPoolAccount {
    RewardPoolAccount {
        pool_id,
        total_rewards,
        distributed_rewards: 0,
        reward_per_trip,
        start_time,
        end_time,
        is_active: true,
        bump,
        vault,
        total_trip_rewards: 0,
        total_driver_rewards: 0,
        reward_cycle: 0,
    }
}

/// Creates a reward pool for one epoch: a nonempty budget, a fixed per-trip
/// payout and an active time window, with nothing distributed yet. Fails,
/// touching nothing, when the window is empty or the budget is zero.
pub fn initialize_reward_pool(
    pool: &mut RewardPoolAccount,
    pool_id: u64,
    total_rewards: u64,
    reward_per_trip: u64,
    start_time: i64,
    end_time: i64,
    vault: Pubkey,
    bump: u8,
) -> (r: Result<(), DriverTripRewardError>)
    ensures
        r is Ok <==> initialize_reward_pool_check(start_time, end_time, total_rewards) is None,
        r matches Err(e) ==> Some(e) == initialize_reward_pool_check(start_time, end_time,
            total_rewards) && *final(pool) == *old(pool),
        r is Ok ==> *final(pool) == initialized_reward_pool(
            pool_id,
            total_rewards,
            reward_per_trip,
            start_time,
            end_time,
            vault,
            bump,
        ),
        r is Ok ==> final(pool).wf(),
{
    if start_time >= end_time {
        return Err(DriverTripRewardError::RewardPoolNotFound);
    }
    if total_rewards == 0 {
        return Err(DriverTripRewardError::RewardPoolNotFound);
    }
    *pool = RewardPoolAccount {
        pool_id,
        total_rewards,
        distributed_rewards: 0,
        reward_per_trip,
        start_time,
        end_time,
        is_active: true,
        bump,
        vault,
        total_trip_rewards: 0,
        total_driver_rewards: 0,
        reward_cycle: 0,
    };
    Ok(())
}

/// Why a payout against this pool would be refused, `None` when it may
/// proceed. `qualifying_trips` is the driver counter the path requires to be
/// positive: completed trips for a claim, total trips for a distribution.
/// The budget comparison is exact — a payout that would mathematically
/// exceed the budget is refused, however large the per-trip amount — so no
/// wraparound can slip a payout past the check.
pub open spec fn payout_check(
    pool: RewardPoolAccount,
    qualifying_trips: u32,
    pool_id: u64,
) -> Option<DriverTripRewardError> {
    if pool.pool_id != pool_id {
        Some(DriverTripRewardError::RewardPoolNotFound)
    } else if !pool.is_active {
        Some(DriverTripRewardError::RewardPoolNotFound)
    } else if pool.distributed_rewards >= pool.total_rewards {
        Some(DriverTripRewardError::InsufficientRewards)
    } else if qualifying_trips == 0 {
        Some(DriverTripRewardError::InsufficientRewards)
    } else if pool.distributed_rewards + pool.reward_per_trip > pool.total_rewards {
        Some(DriverTripRewardError::InsufficientRewards)
    } else {
        None
    }
}

/// The pool after one successful payout: exactly one per-trip amount more
/// distributed. Meaningful only where [`payout_check`] returned `None`,
/// which makes the addition exact.
pub open spec fn pool_after_payout(pool: RewardPoolAccount) -> RewardPoolAccount {
    RewardPoolAccount {
        distributed_rewards: (pool.distributed_rewards + pool.reward_per_trip) as u64,
        total_trip_rewards: sat_add_u64(pool.total_trip_rewards, pool.reward_per_trip),
        ..pool
    }
}

/// The driver after one successful claim of `amount`.
pub open spec fn driver_after_claim(d: DriverAccount, amount: u64) -> DriverAccount {
    DriverAccount { total_rewards: sat_add_u64(d.total_rewards, amount), ..d }
}

/// Authorizes one reward payout to a driver with at least one verified
/// trip: debits exactly the per-trip amount from the budget, credits the
/// driver's lifetime rewards, and returns the amount that the caller must
/// transfer from the pool's custody account to the driver within the same
/// atomic transition. Fails, touching neither record, when the pool does
/// not match or is inactive, the driver has no verified trip, or the
/// remaining budget cannot cover one full payout.
pub fn claim_rewards(
    pool: &mut RewardPoolAccount,
    driver: &mut DriverAccount,
    pool_id: u64,
) -> (r: Result<u64, DriverTripRewardError>)
    requires
        old(pool).wf(),
    ensures
        r is Ok <==> payout_check(*old(pool), old(driver).completed_trips, pool_id) is None,
        r matches Err(e) ==> Some(e) == payout_check(*old(pool), old(driver).completed_trips,
            pool_id) && *final(pool) == *old(pool) && *final(driver) == *old(driver),
        r matches Ok(amount) ==> amount == old(pool).reward_per_trip && *final(pool)
            == pool_after_payout(*old(pool)) && *final(driver) == driver_after_claim(
            *old(driver),
            amount,
        ),
        final(pool).wf(),
        final(pool).total_rewards == old(pool).total_rewards,
{
    if pool.pool_id != pool_id {
        return Err(DriverTripRewardError::RewardPoolNotFound);
    }
    if !pool.is_active {
        return Err(DriverTripRewardError::RewardPoolNotFound);
    }
    if pool.distributed_rewards >= pool.total_rewards {
        return Err(DriverTripRewardError::InsufficientRewards);
    }
    if driver.completed_trips == 0 {
        return Err(DriverTripRewardError::InsufficientRewards);
    }
    let reward_amount = pool.reward_per_trip;
    if reward_amount > pool.total_rewards - pool.distributed_rewards {
        return Err(DriverTripRewardError::InsufficientRewards);
    }
    pool.distributed_rewards = pool.distributed_rewards + reward_amount;
    pool.total_trip_rewards = pool.total_trip_rewards.saturating_add(reward_amount);
    driver.total_rewards = driver.total_rewards.saturating_add(reward_amount);
    Ok(reward_amount)
}

/// The administrative payout: the same guards as a claim, except that any
/// trip qualifies (not only verified ones), and only the pool's bookkeeping
/// moves — no custody transfer is authorized and the driver's record is
/// untouched. Fails, touching nothing, under the same conditions as a claim.
pub fn distribute_reward(
    pool: &mut RewardPoolAccount,
    driver: &DriverAccount,
    pool_id: u64,
) -> (r: Result<(), DriverTripRewardError>)
    requires
        old(pool).wf(),
    ensures
        r is Ok <==> payout_check(*old(pool), driver.total_trips, pool_id) is None,
        r matches Err(e) ==> Some(e) == payout_check(*old(pool), driver.total_trips, pool_id)
            && *final(pool) == *old(pool),
        r is Ok ==> *final(pool) == pool_after_payout(*old(pool)),
        final(pool).wf(),
        final(pool).total_rewards == old(pool).total_rewards,
{
    if pool.pool_id != pool_id {
        return Err(DriverTripRewardError::RewardPoolNotFound);
    }
    if !pool.is_active {
        return Err(DriverTripRewardError::RewardPoolNotFound);
    }
    if pool.distributed_rewards >= pool.total_rewards {
        return Err(DriverTripRewardError::InsufficientRewards);
    }
    if driver.total_trips == 0 {
        return Err(DriverTripRewardError::InsufficientRewards);
    }
    let reward_amount = pool.reward_per_trip;
    if reward_amount > pool.total_rewards - pool.distributed_rewards {
        return Err(DriverTripRewardError::InsufficientRewards);
    }
    pool.distributed_rewards = pool.distributed_rewards + reward_amount;
    pool.total_trip_rewards = pool.total_trip_rewards.saturating_add(reward_amount);
    Ok(())
}

/// The pool after `k` successful payouts in a row.
pub open spec fn pool_after_payouts(pool: RewardPoolAccount, k: nat) -> RewardPoolAccount
    decreases k,
{
    if k == 0 {
        pool
    } else {
        pool_after_payout(pool_after_payouts(pool, (k - 1) as nat))
    }
}

/// After any number of successful payouts the budget invariant still holds,
/// and the distributed amount is exactly the sum of the per-claim amounts —
/// `k` payouts of the pool's fixed per-trip reward.
pub proof fn lemma_payout_sequence(pool: RewardPoolAccount, k: nat)
    requires
        pool.wf(),
        pool.distributed_rewards + k * pool.reward_per_trip <= pool.total_rewards,
    ensures
        pool_after_payouts(pool, k).distributed_rewards == pool.distributed_rewards + k
            * pool.reward_per_trip,
        pool_after_payouts(pool, k).wf(),
        pool_after_payouts(pool, k).total_rewards == pool.total_rewards,
        pool_after_payouts(pool, k).reward_per_trip == pool.reward_per_trip,
    decreases k,
{
    if k == 0 {
        assert(k * pool.reward_per_trip == 0) by (nonlinear_arith)
            requires
                k == 0,
        ;
    } else {
        let j = (k - 1) as nat;
        assert(j * pool.reward_per_trip == k * pool.reward_per_trip - pool.reward_per_trip)
            by (nonlinear_arith)
            requires
                j == k - 1,
        ;
        lemma_payout_sequence(pool, j);
        let prev = pool_after_payouts(pool, j);
        assert(prev.distributed_rewards + prev.reward_per_trip == pool.distributed_rewards + k
            * pool.reward_per_trip);
        assert(pool_after_payouts(pool, k) == pool_after_payout(prev));
    }
}

} // verus!
