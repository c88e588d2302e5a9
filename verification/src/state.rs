//! The four record types and their well-formedness invariants.
//!
//! Ratings, scores and weights are held in fixed-point integers rather than
//! floats, so every derived statistic is exact:
//! - a rating is an integer number of hundredths in `[0, 500]`
//!   (so `500` stands for the maximum rating of five);
//! - a driver's rolling average rating is derived from the exact sum of the
//!   submitted ratings, which makes it independent of submission order;
//! - an average score is held in hundredths of a score point;
//! - a validator weight is held in thousandths (`1000` stands for one).

use vstd::prelude::*;
use crate::keys::{Pubkey, TripHash};

verus! {

/// Unsigned 64-bit addition that sticks at the type's maximum instead of
/// wrapping. The lifetime counters below grow by this rule, a deliberate
/// choice over hard failure: a driver's ledger keeps accepting trips even
/// once a cumulative counter can no longer grow.
pub open spec fn sat_add_u64(a: u64, b: u64) -> u64 {
    if a + b > u64::MAX {
        u64::MAX
    } else {
        (a + b) as u64
    }
}

/// Where a trip stands in its lifecycle: `Open` after submission,
/// `Closed` once verified or completed. `Closed` is terminal.
#[derive(Clone, Copy, Debug, PartialEq, Eq, Structural)]
pub enum TripStatus {
    Open,
    Closed,
}

/// Whether a trip's data was attested by the verification path.
/// A trip closed through the completion path stays `Unverified`.
#[derive(Clone, Copy, Debug, PartialEq, Eq, Structural)]
pub enum VerificationStatus {
    Unverified,
    Verified,
}

/// A driver's cumulative ledger. Created once per driver identity and
/// mutated only by trip closings and reward claims; never deleted.
#[derive(Clone, Debug, PartialEq)]
pub struct DriverAccount {
    /// The owning identity; all-zero until the record is initialized.
    pub driver_pubkey: Pubkey,
    /// How many trips were closed against this driver, by either path.
    pub total_trips: u32,
    /// Lifetime fare income, saturating at the type's maximum.
    pub total_earnings: u64,
    /// Lifetime distance, saturating at the type's maximum.
    pub total_distance: u64,
    /// Lifetime duration, saturating at the type's maximum.
    pub total_time: u64,
    /// The exact sum of all submitted ratings, in hundredths.
    pub rating_sum_centi: u64,
    /// The rolling average rating in hundredths: the truncated mean
    /// `rating_sum_centi / total_trips`, zero while no trip was closed.
    pub rating_centi: u32,
    pub is_active: bool,
    /// The derivation bump of the record's address in the external store.
    pub bump: u8,
    /// The sum of the scores of all verified trips.
    pub total_score: u64,
    /// How many trips were closed through the verification path.
    pub completed_trips: u32,
    /// The average score of the verified trips, in hundredths of a score
    /// point: `total_score * 100 / completed_trips`, zero while none.
    pub avg_score_centi: u64,
    /// Lifetime rewards claimed, saturating at the type's maximum.
    pub total_rewards: u64,
    pub validator_pubkey: Pubkey,
    /// The end time of the most recently closed trip.
    pub last_trip_time: i64,
}

impl DriverAccount {
    /// The record's invariant: counters are consistent and the derived
    /// statistics are exactly the stated quotients of the exact sums.
    pub open spec fn wf(self) -> bool {
        &&& self.completed_trips <= self.total_trips
        &&& self.rating_sum_centi <= 500 * self.total_trips
        &&& self.total_score <= 100 * self.completed_trips
        &&& self.rating_centi == (if self.total_trips == 0 {
            0int
        } else {
            self.rating_sum_centi as int / self.total_trips as int
        })
        &&& self.avg_score_centi == (if self.completed_trips == 0 {
            0int
        } else {
            (self.total_score as int) * 100 / (self.completed_trips as int)
        })
    }

    /// The all-zero record, as the external store hands out a fresh slot.
    pub open spec fn spec_zeroed() -> DriverAccount {
        DriverAccount {
            driver_pubkey: Pubkey::spec_zero(),
            total_trips: 0,
            total_earnings: 0,
            total_distance: 0,
            total_time: 0,
            rating_sum_centi: 0,
            rating_centi: 0,
            is_active: false,
            bump: 0,
            total_score: 0,
            completed_trips: 0,
            avg_score_centi: 0,
            total_rewards: 0,
            validator_pubkey: Pubkey::spec_zero(),
            last_trip_time: 0,
        }
    }

    /// Builds the all-zero record.
    pub fn zeroed() -> (r: DriverAccount)
        ensures
            r == DriverAccount::spec_zeroed(),
            r.wf(),
    {
        DriverAccount {
            driver_pubkey: Pubkey::zero(),
            total_trips: 0,
            total_earnings: 0,
            total_distance: 0,
            total_time: 0,
            rating_sum_centi: 0,
            rating_centi: 0,
            is_active: false,
            bump: 0,
            total_score: 0,
            completed_trips: 0,
            avg_score_centi: 0,
            total_rewards: 0,
            validator_pubkey: Pubkey::zero(),
            last_trip_time: 0,
        }
    }
}

/// A finite reward budget for one epoch, debited a fixed amount per claim.
/// Becomes logically exhausted, never deleted, when the distributed amount
/// reaches the budget.
#[derive(Clone, Debug, PartialEq)]
pub struct RewardPoolAccount {
    pub pool_id: u64,
    /// The whole budget of this pool.
    pub total_rewards: u64,
    /// How much was paid out so far; never exceeds `total_rewards`.
    pub distributed_rewards: u64,
    /// The fixed amount of a single payout.
    pub reward_per_trip: u64,
    pub start_time: i64,
    pub end_time: i64,
    pub is_active: bool,
    /// The derivation bump of the record's address in the external store.
    pub bump: u8,
    /// The custody account that actually holds the pool's tokens.
    pub vault: Pubkey,
    /// Cumulative amount paid out for trips.
    pub total_trip_rewards: u64,
    /// Cumulative amount paid out by driver-level programs.
    pub total_driver_rewards: u64,
    pub reward_cycle: u64,
}

impl RewardPoolAccount {
    /// The pool's invariant: the budget is never overdrawn.
    pub open spec fn wf(self) -> bool {
        self.distributed_rewards <= self.total_rewards
    }

    /// The all-zero record, as the external store hands out a fresh slot.
    pub open spec fn spec_zeroed() -> RewardPoolAccount {
        RewardPoolAccount {
            pool_id: 0,
            total_rewards: 0,
            distributed_rewards: 0,
            reward_per_trip: 0,
            start_time: 0,
            end_time: 0,
            is_active: false,
            bump: 0,
            vault: Pubkey::spec_zero(),
            total_trip_rewards: 0,
            total_driver_rewards: 0,
            reward_cycle: 0,
        }
    }

    /// Builds the all-zero record.
    pub fn zeroed() -> (r: RewardPoolAccount)
        ensures
            r == RewardPoolAccount::spec_zeroed(),
            r.wf(),
    {
        RewardPoolAccount {
            pool_id: 0,
            total_rewards: 0,
            distributed_rewards: 0,
            reward_per_trip: 0,
            start_time: 0,
            end_time: 0,
            is_active: false,
            bump: 0,
            vault: Pubkey::zero(),
            total_trip_rewards: 0,
            total_driver_rewards: 0,
            reward_cycle: 0,
        }
    }
}

/// One ride between a driver and a passenger, with a bounded
/// open/closed lifecycle. Mutated exactly once after submission, at
/// verification or completion; never reopened.
#[derive(Clone, Debug, PartialEq)]
pub struct TripAccount {
    pub trip_id: u64,
    pub driver_pubkey: Pubkey,
    pub passenger_pubkey: Pubkey,
    pub start_time: i64,
    /// Zero while the trip is open; above `start_time` once closed.
    pub end_time: i64,
    pub distance: u64,
    pub duration: u64,
    pub fare: u64,
    /// The post-hoc rating in hundredths, in `[0, 500]`.
    pub rating_centi: u32,
    pub status: TripStatus,
    /// The derivation bump of the record's address in the external store.
    pub bump: u8,
    /// The quality score in `[0, 100]`, computed once at verification.
    pub score: u32,
    /// Tamper-evidence over the externally recorded trip data.
    pub trip_hash: TripHash,
    pub verification_status: VerificationStatus,
    pub validator_pubkey: Pubkey,
}

impl TripAccount {
    /// The trip's invariant: an open trip has no end time, a closed one
    /// ends after it starts, and rating and score stay in range.
    pub open spec fn wf(self) -> bool {
        &&& self.status == TripStatus::Open ==> self.end_time == 0
        &&& self.status == TripStatus::Closed ==> self.end_time > self.start_time
        &&& self.rating_centi <= 500
        &&& self.score <= 100
    }

    /// The all-zero record, as the external store hands out a fresh slot.
    pub open spec fn spec_zeroed() -> TripAccount {
        TripAccount {
            trip_id: 0,
            driver_pubkey: Pubkey::spec_zero(),
            passenger_pubkey: Pubkey::spec_zero(),
            start_time: 0,
            end_time: 0,
            distance: 0,
            duration: 0,
            fare: 0,
            rating_centi: 0,
            status: TripStatus::Open,
            bump: 0,
            score: 0,
            trip_hash: TripHash::spec_zero(),
            verification_status: VerificationStatus::Unverified,
            validator_pubkey: Pubkey::spec_zero(),
        }
    }

    /// Builds the all-zero record.
    pub fn zeroed() -> (r: TripAccount)
        ensures
            r == TripAccount::spec_zeroed(),
            r.wf(),
    {
        TripAccount {
            trip_id: 0,
            driver_pubkey: Pubkey::zero(),
            passenger_pubkey: Pubkey::zero(),
            start_time: 0,
            end_time: 0,
            distance: 0,
            duration: 0,
            fare: 0,
            rating_centi: 0,
            status: TripStatus::Open,
            bump: 0,
            score: 0,
            trip_hash: TripHash::zero(),
            verification_status: VerificationStatus::Unverified,
            validator_pubkey: Pubkey::zero(),
        }
    }
}

/// A registered validator identity with its activity counters.
#[derive(Clone, Debug, PartialEq)]
pub struct ValidatorAccount {
    /// The owning identity; all-zero until the record is initialized.
    pub validator_pubkey: Pubkey,
    /// The public credential material, 10 to 1000 characters.
    pub public_key: String,
    /// The private credential material, 10 to 1000 characters.
    pub private_key: String,
    pub is_active: bool,
    /// The derivation bump of the record's address in the external store.
    pub bump: u8,
    /// How many validations and data operations this validator performed.
    pub total_validations: u64,
    /// The success rate in basis points (10000 stands for one).
    pub success_rate_bps: u32,
    pub last_validation_time: i64,
    /// The consensus weight in thousandths (1000 stands for one).
    pub validator_weight_milli: u32,
}

impl ValidatorAccount {
    /// Builds the all-zero record, as the external store hands out a
    /// fresh slot.
    pub fn zeroed() -> (r: ValidatorAccount)
        ensures
            r.validator_pubkey == Pubkey::spec_zero(),
            r.public_key@ == Seq::<char>::empty(),
            r.private_key@ == Seq::<char>::empty(),
            !r.is_active,
            r.bump == 0,
            r.total_validations == 0,
            r.success_rate_bps == 0,
            r.last_validation_time == 0,
            r.validator_weight_milli == 0,
    {
        ValidatorAccount {
            validator_pubkey: Pubkey::zero(),
            public_key: String::new(),
            private_key: String::new(),
            is_active: false,
            bump: 0,
            total_validations: 0,
            success_rate_bps: 0,
            last_validation_time: 0,
            validator_weight_milli: 0,
        }
    }
}

} // verus!
