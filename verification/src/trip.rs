//! The trip state machine: submission, verification and completion.
//!
//! A trip is `Open` from submission until exactly one closing transition —
//! `verify_trip` or `complete_trip` — moves it to `Closed`, which is
//! terminal: the second closing attempt on the same trip always fails and
//! changes nothing. Verification also computes the trip's quality score and
//! both closing paths apply the driver-ledger update atomically with the
//! trip's own transition.

use vstd::prelude::*;
use crate::driver::{driver_after_completed_trip, driver_after_verified_trip};
use crate::driver::{record_completed_trip, record_verified_trip};
use crate::errors::DriverTripRewardError;
use crate::keys::{Pubkey, TripHash};
use crate::state::{DriverAccount, TripAccount, TripStatus, VerificationStatus};

verus! {

/// The quality score of a verified trip, a value in `[0, 100]`:
/// one point for every five hundredths of rating (the integer part of
/// twenty times the rating), plus fixed bonuses for distance above one,
/// duration strictly between one minute and one hour, and a fare above
/// one hundred million base units, clamped to one hundred.
pub open spec fn spec_score(rating_centi: u32, distance: u64, duration: u64, fare: u64) -> u32 {
    let raw = rating_centi as int / 5 + (if distance > 1 {
        50int
    } else {
        0
    }) + (if duration > 60 && duration < 3600 {
        30int
    } else {
        0
    }) + (if fare > 100000000 {
        20int
    } else {
        0
    });
    if raw > 100 {
        100u32
    } else {
        raw as u32
    }
}

/// Computes the quality score; see [`spec_score`] for the policy.
pub fn compute_score(rating_centi: u32, distance: u64, duration: u64, fare: u64) -> (score: u32)
    ensures
        score == spec_score(rating_centi, distance, duration, fare),
        score <= 100,
{
    let mut score: u32 = rating_centi / 5;
    if distance > 1 {
        score = score + 50;
    }
    if duration > 60 && duration < 3600 {
        score = score + 30;
    }
    if fare > 100000000 {
        score = score + 20;
    }
    if score > 100 {
        score = 100;
    }
    score
}

/// Why `submit_trip` would be refused, `None` when it succeeds.
pub open spec fn submit_trip_check(
    start_time: i64,
    distance: u64,
    duration: u64,
    fare: u64,
) -> Option<DriverTripRewardError> {
    if start_time <= 0 {
        Some(DriverTripRewardError::InvalidTripStatus)
    } else if distance == 0 {
        Some(DriverTripRewardError::InvalidTripStatus)
    } else if duration == 0 {
        Some(DriverTripRewardError::InvalidTripStatus)
    } else if fare == 0 {
        Some(DriverTripRewardError::InvalidTripStatus)
    } else {
        None
    }
}

/// The open trip record that `submit_trip` writes.
pub open spec fn submitted_trip(
    driver_pubkey: Pubkey,
    passenger_pubkey: Pubkey,
    trip_id: u64,
    start_time: i64,
    distance: u64,
    duration: u64,
    fare: u64,
    bump: u8,
) -> TripAccount {
    TripAccount {
        trip_id,
        driver_pubkey,
        passenger_pubkey,
        start_time,
        distance,
        duration,
        fare,
        bump,
        ..TripAccount::spec_zeroed()
    }
}

/// Submits a new trip into a fresh record slot: all metrics must be
/// positive, and the trip starts `Open` with no end time. Fails, touching
/// nothing, when a metric is out of range.
pub fn submit_trip(
    trip: &mut TripAccount,
    driver_pubkey: Pubkey,
    passenger_pubkey: Pubkey,
    trip_id: u64,
    start_time: i64,
    distance: u64,
    duration: u64,
    fare: u64,
    bump: u8,
) -> (r: Result<(), DriverTripRewardError>)
    ensures
        r is Ok <==> submit_trip_check(start_time, distance, duration, fare) is None,
        r matches Err(e) ==> Some(e) == submit_trip_check(start_time, distance, duration, fare)
            && *final(trip) == *old(trip),
        r is Ok ==> *final(trip) == submitted_trip(
            driver_pubkey,
            passenger_pubkey,
            trip_id,
            start_time,
            distance,
            duration,
            fare,
            bump,
        ),
        r is Ok ==> final(trip).status == TripStatus::Open && final(trip).end_time == 0,
        r is Ok ==> final(trip).wf(),
{
    if start_time <= 0 {
        return Err(DriverTripRewardError::InvalidTripStatus);
    }
    if distance == 0 {
        return Err(DriverTripRewardError::InvalidTripStatus);
    }
    if duration == 0 {
        return Err(DriverTripRewardError::InvalidTripStatus);
    }
    if fare == 0 {
        return Err(DriverTripRewardError::InvalidTripStatus);
    }
    *trip = TripAccount::zeroed();
    trip.trip_id = trip_id;
    trip.driver_pubkey = driver_pubkey;
    trip.passenger_pubkey = passenger_pubkey;
    trip.start_time = start_time;
    trip.distance = distance;
    trip.duration = duration;
    trip.fare = fare;
    trip.bump = bump;
    Ok(())
}

/// Why `create_trip` would be refused, `None` when it succeeds.
pub open spec fn create_trip_check(trip: TripAccount, start_time: i64) -> Option<
    DriverTripRewardError,
> {
    if trip.trip_id != 0 {
        Some(DriverTripRewardError::TripNotFound)
    } else if start_time <= 0 {
        Some(DriverTripRewardError::InvalidTripStatus)
    } else {
        None
    }
}

/// Creates an open trip shell with zeroed metrics, to be filled by a later
/// completion. Fails, touching nothing, when the slot already holds a trip
/// id or the start time is not positive.
pub fn create_trip(
    trip: &mut TripAccount,
    driver_pubkey: Pubkey,
    passenger_pubkey: Pubkey,
    trip_id: u64,
    start_time: i64,
    bump: u8,
) -> (r: Result<(), DriverTripRewardError>)
    ensures
        r is Ok <==> create_trip_check(*old(trip), start_time) is None,
        r matches Err(e) ==> Some(e) == create_trip_check(*old(trip), start_time) && *final(trip)
            == *old(trip),
        r is Ok ==> *final(trip) == (TripAccount {
            trip_id,
            driver_pubkey,
            passenger_pubkey,
            start_time,
            bump,
            ..TripAccount::spec_zeroed()
        }),
        r is Ok ==> final(trip).wf(),
{
    if trip.trip_id != 0 {
        return Err(DriverTripRewardError::TripNotFound);
    }
    if start_time <= 0 {
        return Err(DriverTripRewardError::InvalidTripStatus);
    }
    *trip = TripAccount::zeroed();
    trip.trip_id = trip_id;
    trip.driver_pubkey = driver_pubkey;
    trip.passenger_pubkey = passenger_pubkey;
    trip.start_time = start_time;
    trip.bump = bump;
    Ok(())
}

/// Why a closing transition (`verify_trip` or `complete_trip`) would be
/// refused, `None` when it may proceed: the id must match the addressed
/// record, the trip must still be `Open`, the end time must lie after the
/// start, and the rating must not exceed five.
pub open spec fn close_trip_check(
    trip: TripAccount,
    trip_id: u64,
    end_time: i64,
    rating_centi: u32,
) -> Option<DriverTripRewardError> {
    if trip.trip_id != trip_id {
        Some(DriverTripRewardError::TripNotFound)
    } else if trip.status != TripStatus::Open {
        Some(DriverTripRewardError::InvalidTripStatus)
    } else if end_time <= trip.start_time {
        Some(DriverTripRewardError::InvalidTripStatus)
    } else if rating_centi > 500 {
        Some(DriverTripRewardError::InvalidTripStatus)
    } else {
        None
    }
}

/// The closed, verified trip record that `verify_trip` writes.
pub open spec fn verified_trip(
    trip: TripAccount,
    end_time: i64,
    rating_centi: u32,
    trip_hash: TripHash,
) -> TripAccount {
    TripAccount {
        end_time,
        rating_centi,
        score: spec_score(rating_centi, trip.distance, trip.duration, trip.fare),
        trip_hash,
        verification_status: VerificationStatus::Verified,
        status: TripStatus::Closed,
        validator_pubkey: Pubkey::spec_zero(),
        ..trip
    }
}

/// The closed trip record that `complete_trip` writes: the metrics are
/// replaced by the values reported at completion, and neither score nor
/// hash nor verification status is touched.
pub open spec fn completed_trip(
    trip: TripAccount,
    end_time: i64,
    distance: u64,
    duration: u64,
    fare: u64,
    rating_centi: u32,
) -> TripAccount {
    TripAccount {
        end_time,
        distance,
        duration,
        fare,
        rating_centi,
        status: TripStatus::Closed,
        ..trip
    }
}

/// Closes an open trip through the verification path: stores the end time,
/// rating, content hash and the computed score, marks the trip verified and
/// closed, and applies the verified-trip update to the driver's ledger — one
/// atomic transition. Fails, touching neither record, when a guard refuses;
/// in particular a second closing of the same trip always fails.
pub fn verify_trip(
    trip: &mut TripAccount,
    driver: &mut DriverAccount,
    trip_id: u64,
    end_time: i64,
    rating_centi: u32,
    trip_hash: TripHash,
) -> (r: Result<(), DriverTripRewardError>)
    requires
        old(trip).wf(),
        old(driver).wf(),
        old(driver).total_trips < u32::MAX,
    ensures
        r is Ok <==> close_trip_check(*old(trip), trip_id, end_time, rating_centi) is None,
        r matches Err(e) ==> Some(e) == close_trip_check(*old(trip), trip_id, end_time,
            rating_centi) && *final(trip) == *old(trip) && *final(driver) == *old(driver),
        r is Ok ==> *final(trip) == verified_trip(*old(trip), end_time, rating_centi, trip_hash),
        r is Ok ==> *final(driver) == driver_after_verified_trip(
            *old(driver),
            old(trip).fare,
            old(trip).distance,
            old(trip).duration,
            rating_centi,
            spec_score(rating_centi, old(trip).distance, old(trip).duration, old(trip).fare),
            end_time,
        ),
        final(trip).wf(),
        final(driver).wf(),
{
    if trip.trip_id != trip_id {
        return Err(DriverTripRewardError::TripNotFound);
    }
    if !(trip.status == TripStatus::Open) {
        return Err(DriverTripRewardError::InvalidTripStatus);
    }
    if end_time <= trip.start_time {
        return Err(DriverTripRewardError::InvalidTripStatus);
    }
    if rating_centi > 500 {
        return Err(DriverTripRewardError::InvalidTripStatus);
    }
    let score = compute_score(rating_centi, trip.distance, trip.duration, trip.fare);

    trip.end_time = end_time;
    trip.rating_centi = rating_centi;
    trip.score = score;
    trip.trip_hash = trip_hash;
    trip.verification_status = VerificationStatus::Verified;
    trip.status = TripStatus::Closed;
    trip.validator_pubkey = Pubkey::zero();

    record_verified_trip(driver, trip.fare, trip.distance, trip.duration, rating_centi, score,
        end_time);
    Ok(())
}

/// Closes an open trip through the completion path: stores the end time and
/// the metrics reported at completion, marks the trip closed — score, hash
/// and verification status untouched — and applies the completed-trip update
/// to the driver's ledger, one atomic transition. Fails, touching neither
/// record, when a guard refuses; in particular a second closing of the same
/// trip always fails.
pub fn complete_trip(
    trip: &mut TripAccount,
    driver: &mut DriverAccount,
    trip_id: u64,
    end_time: i64,
    distance: u64,
    duration: u64,
    fare: u64,
    rating_centi: u32,
) -> (r: Result<(), DriverTripRewardError>)
    requires
        old(trip).wf(),
        old(driver).wf(),
        old(driver).total_trips < u32::MAX,
    ensures
        r is Ok <==> close_trip_check(*old(trip), trip_id, end_time, rating_centi) is None,
        r matches Err(e) ==> Some(e) == close_trip_check(*old(trip), trip_id, end_time,
            rating_centi) && *final(trip) == *old(trip) && *final(driver) == *old(driver),
        r is Ok ==> *final(trip) == completed_trip(*old(trip), end_time, distance, duration, fare,
            rating_centi),
        r is Ok ==> *final(driver) == driver_after_completed_trip(
            *old(driver),
            fare,
            distance,
            duration,
            rating_centi,
            end_time,
        ),
        final(trip).wf(),
        final(driver).wf(),
{
    if trip.trip_id != trip_id {
        return Err(DriverTripRewardError::TripNotFound);
    }
    if !(trip.status == TripStatus::Open) {
        return Err(DriverTripRewardError::InvalidTripStatus);
    }
    if end_time <= trip.start_time {
        return Err(DriverTripRewardError::InvalidTripStatus);
    }
    if rating_centi > 500 {
        return Err(DriverTripRewardError::InvalidTripStatus);
    }
    trip.end_time = end_time;
    trip.distance = distance;
    trip.duration = duration;
    trip.fare = fare;
    trip.rating_centi = rating_centi;
    trip.status = TripStatus::Closed;

    record_completed_trip(driver, fare, distance, duration, rating_centi, end_time);
    Ok(())
}

/// A closed trip is terminal: with a matching id, any further closing
/// attempt — by either path — is refused with the lifecycle error, and so
/// (by the closing functions' contracts) leaves trip and driver unchanged.
pub proof fn lemma_closed_trip_rejects_closing(
    trip: TripAccount,
    trip_id: u64,
    end_time: i64,
    rating_centi: u32,
)
    requires
        trip.status == TripStatus::Closed,
        trip.trip_id == trip_id,
    ensures
        close_trip_check(trip, trip_id, end_time, rating_centi) == Some(
            DriverTripRewardError::InvalidTripStatus,
        ),
{
}

} // verus!
