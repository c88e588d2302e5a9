use driver_trip_reward::driver::{initialize_driver, record_completed_trip, record_verified_trip};
use driver_trip_reward::errors::DriverTripRewardError;
use driver_trip_reward::keys::Pubkey;
use driver_trip_reward::state::DriverAccount;

fn key(n: u64) -> Pubkey {
    Pubkey::new(0, 0, n, 0)
}

#[test]
fn initialize_driver_writes_a_fresh_ledger() {
    let mut d = DriverAccount::zeroed();
    let r = initialize_driver(&mut d, key(1), 200);
    assert!(r.is_ok());
    assert_eq!(d.driver_pubkey, key(1));
    assert!(d.is_active);
    assert_eq!(d.bump, 200);
    assert_eq!(d.total_trips, 0);
    assert_eq!(d.total_earnings, 0);
    assert_eq!(d.rating_centi, 0);
    assert_eq!(d.completed_trips, 0);
    assert_eq!(d.total_rewards, 0);
}

#[test]
fn initialize_driver_rejects_an_occupied_slot() {
    let mut d = DriverAccount::zeroed();
    initialize_driver(&mut d, key(1), 200).unwrap();
    let before = d.clone();
    let r = initialize_driver(&mut d, key(2), 100);
    assert_eq!(r, Err(DriverTripRewardError::DriverAlreadyExists));
    assert_eq!(d, before);
}

#[test]
fn rating_is_the_mean_of_submitted_ratings() {
    let mut d = DriverAccount::zeroed();
    initialize_driver(&mut d, key(1), 0).unwrap();
    record_completed_trip(&mut d, 10, 1, 1, 500, 100);
    assert_eq!(d.rating_centi, 500);
    record_completed_trip(&mut d, 10, 1, 1, 200, 200);
    assert_eq!(d.rating_centi, 350);
    record_verified_trip(&mut d, 10, 1, 1, 350, 80, 300);
    // (500 + 200 + 350) / 3
    assert_eq!(d.rating_centi, 350);
    assert_eq!(d.rating_sum_centi, 1050);
    assert_eq!(d.total_trips, 3);
}

#[test]
fn rating_mean_is_independent_of_order() {
    let ratings: [u32; 4] = [500, 0, 125, 480];
    let reversed: [u32; 4] = [480, 125, 0, 500];
    let mut a = DriverAccount::zeroed();
    let mut b = DriverAccount::zeroed();
    for r in ratings {
        record_completed_trip(&mut a, 1, 1, 1, r, 10);
    }
    for r in reversed {
        record_completed_trip(&mut b, 1, 1, 1, r, 10);
    }
    assert_eq!(a.rating_centi, b.rating_centi);
    assert_eq!(a.rating_sum_centi, b.rating_sum_centi);
    // (500 + 0 + 125 + 480) / 4, truncated
    assert_eq!(a.rating_centi, 276);
}

#[test]
fn verified_trips_drive_the_average_score() {
    let mut d = DriverAccount::zeroed();
    record_verified_trip(&mut d, 1, 1, 1, 400, 90, 10);
    assert_eq!(d.avg_score_centi, 9000);
    record_verified_trip(&mut d, 1, 1, 1, 400, 75, 20);
    // (90 + 75) * 100 / 2
    assert_eq!(d.avg_score_centi, 8250);
    assert_eq!(d.total_score, 165);
    assert_eq!(d.completed_trips, 2);
}

#[test]
fn lifetime_counters_saturate_instead_of_wrapping() {
    let mut d = DriverAccount::zeroed();
    d.total_earnings = u64::MAX - 5;
    record_completed_trip(&mut d, 100, 1, 1, 0, 10);
    assert_eq!(d.total_earnings, u64::MAX);
    assert_eq!(d.total_trips, 1);
}

#[test]
fn error_messages_name_their_condition() {
    assert_eq!(
        DriverTripRewardError::DriverAlreadyExists.message(),
        "Driver account already exists"
    );
    assert_eq!(DriverTripRewardError::TripNotFound.message(), "Trip account not found");
    assert_eq!(DriverTripRewardError::InvalidTripStatus.message(), "Invalid trip status");
    assert_eq!(DriverTripRewardError::RewardPoolNotFound.message(), "Reward pool not found");
    assert_eq!(
        DriverTripRewardError::InsufficientRewards.message(),
        "Insufficient rewards in pool"
    );
    assert_eq!(
        DriverTripRewardError::InvalidDataOperation.message(),
        "Invalid data operation"
    );
    assert_eq!(
        DriverTripRewardError::ValidatorAlreadyExists.message(),
        "Validator account already exists"
    );
}
