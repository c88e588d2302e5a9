use driver_trip_reward::errors::DriverTripRewardError;
use driver_trip_reward::keys::Pubkey;
use driver_trip_reward::pool::{claim_rewards, distribute_reward, initialize_reward_pool};
use driver_trip_reward::state::{DriverAccount, RewardPoolAccount};

fn key(n: u64) -> Pubkey {
    Pubkey::new(0, n, 0, 0)
}

fn pool(total: u64, distributed: u64, per_trip: u64) -> RewardPoolAccount {
    RewardPoolAccount {
        pool_id: 11,
        total_rewards: total,
        distributed_rewards: distributed,
        reward_per_trip: per_trip,
        start_time: 1,
        end_time: 1000,
        is_active: true,
        bump: 0,
        vault: key(5),
        total_trip_rewards: distributed,
        total_driver_rewards: 0,
        reward_cycle: 0,
    }
}

fn driver_with(total_trips: u32, completed_trips: u32) -> DriverAccount {
    let mut d = DriverAccount::zeroed();
    d.driver_pubkey = key(1);
    d.total_trips = total_trips;
    d.completed_trips = completed_trips;
    d
}

#[test]
fn initialize_reward_pool_writes_a_fresh_pool() {
    let mut p = RewardPoolAccount::zeroed();
    let r = initialize_reward_pool(&mut p, 11, 1000, 100, 1, 1000, key(5), 7);
    assert!(r.is_ok());
    assert_eq!(p.pool_id, 11);
    assert_eq!(p.total_rewards, 1000);
    assert_eq!(p.distributed_rewards, 0);
    assert_eq!(p.reward_per_trip, 100);
    assert!(p.is_active);
    assert_eq!(p.vault, key(5));
    assert_eq!(p.bump, 7);
    assert_eq!(p.total_trip_rewards, 0);
}

#[test]
fn initialize_reward_pool_rejects_empty_window() {
    let mut p = RewardPoolAccount::zeroed();
    let r = initialize_reward_pool(&mut p, 11, 1000, 100, 1000, 1000, key(5), 7);
    assert_eq!(r, Err(DriverTripRewardError::RewardPoolNotFound));
    assert_eq!(p, RewardPoolAccount::zeroed());
}

#[test]
fn initialize_reward_pool_rejects_zero_budget() {
    let mut p = RewardPoolAccount::zeroed();
    let r = initialize_reward_pool(&mut p, 11, 0, 100, 1, 1000, key(5), 7);
    assert_eq!(r, Err(DriverTripRewardError::RewardPoolNotFound));
}

#[test]
fn claim_pays_the_fixed_amount_and_updates_both_records() {
    let mut p = pool(1000, 0, 100);
    let mut d = driver_with(1, 1);
    let r = claim_rewards(&mut p, &mut d, 11);
    assert_eq!(r, Ok(100));
    assert_eq!(p.distributed_rewards, 100);
    assert_eq!(p.total_trip_rewards, 100);
    assert_eq!(p.total_rewards, 1000);
    assert_eq!(d.total_rewards, 100);
}

#[test]
fn claim_rejects_wrong_pool_id() {
    let mut p = pool(1000, 0, 100);
    let mut d = driver_with(1, 1);
    let before = p.clone();
    let r = claim_rewards(&mut p, &mut d, 12);
    assert_eq!(r, Err(DriverTripRewardError::RewardPoolNotFound));
    assert_eq!(p, before);
    assert_eq!(d.total_rewards, 0);
}

#[test]
fn claim_rejects_inactive_pool() {
    let mut p = pool(1000, 0, 100);
    p.is_active = false;
    let mut d = driver_with(1, 1);
    let r = claim_rewards(&mut p, &mut d, 11);
    assert_eq!(r, Err(DriverTripRewardError::RewardPoolNotFound));
}

#[test]
fn claim_rejects_driver_without_verified_trips() {
    let mut p = pool(1000, 0, 100);
    let mut d = driver_with(3, 0);
    let r = claim_rewards(&mut p, &mut d, 11);
    assert_eq!(r, Err(DriverTripRewardError::InsufficientRewards));
    assert_eq!(p.distributed_rewards, 0);
}

#[test]
fn claim_rejects_exhausted_pool() {
    let mut p = pool(1000, 1000, 100);
    let mut d = driver_with(1, 1);
    let r = claim_rewards(&mut p, &mut d, 11);
    assert_eq!(r, Err(DriverTripRewardError::InsufficientRewards));
}

#[test]
fn one_unit_short_of_budget_refuses_a_two_unit_claim() {
    // distributed one below the budget, payout of two: refused, untouched.
    let mut p = pool(1000, 999, 2);
    let mut d = driver_with(1, 1);
    let before = p.clone();
    let r = claim_rewards(&mut p, &mut d, 11);
    assert_eq!(r, Err(DriverTripRewardError::InsufficientRewards));
    assert_eq!(p, before);
    assert_eq!(d.total_rewards, 0);
}

#[test]
fn ten_claims_exhaust_the_pool_and_the_eleventh_fails() {
    let mut p = RewardPoolAccount::zeroed();
    initialize_reward_pool(&mut p, 11, 1000, 100, 1, 1000, key(5), 7).unwrap();
    let mut d = driver_with(1, 1);
    for i in 1..=10u64 {
        let r = claim_rewards(&mut p, &mut d, 11);
        assert_eq!(r, Ok(100));
        assert_eq!(p.distributed_rewards, 100 * i);
        assert!(p.distributed_rewards <= p.total_rewards);
    }
    assert_eq!(p.distributed_rewards, 1000);
    assert_eq!(d.total_rewards, 1000);
    let r = claim_rewards(&mut p, &mut d, 11);
    assert_eq!(r, Err(DriverTripRewardError::InsufficientRewards));
    assert_eq!(p.distributed_rewards, 1000);
}

#[test]
fn distribute_updates_only_the_pool() {
    let mut p = pool(1000, 0, 100);
    let d = driver_with(2, 0);
    let r = distribute_reward(&mut p, &d, 11);
    assert_eq!(r, Ok(()));
    assert_eq!(p.distributed_rewards, 100);
    assert_eq!(p.total_trip_rewards, 100);
    assert_eq!(d.total_rewards, 0);
}

#[test]
fn distribute_rejects_driver_without_trips() {
    let mut p = pool(1000, 0, 100);
    let d = driver_with(0, 0);
    let r = distribute_reward(&mut p, &d, 11);
    assert_eq!(r, Err(DriverTripRewardError::InsufficientRewards));
    assert_eq!(p.distributed_rewards, 0);
}

#[test]
fn distribute_rejects_budget_overrun() {
    let mut p = pool(150, 100, 100);
    let d = driver_with(2, 0);
    let before = p.clone();
    let r = distribute_reward(&mut p, &d, 11);
    assert_eq!(r, Err(DriverTripRewardError::InsufficientRewards));
    assert_eq!(p, before);
}
