use driver_trip_reward::errors::DriverTripRewardError;
use driver_trip_reward::keys::Pubkey;
use driver_trip_reward::state::ValidatorAccount;
use driver_trip_reward::validator::{
    initialize_validator, process_private_data, update_validator_weights,
};

fn key(n: u64) -> Pubkey {
    Pubkey::new(0, 0, 0, n)
}

fn registered() -> ValidatorAccount {
    let mut v = ValidatorAccount::zeroed();
    initialize_validator(
        &mut v,
        key(1),
        "public-credential".to_string(),
        "private-credential".to_string(),
        9,
    )
    .unwrap();
    v
}

#[test]
fn initialize_validator_registers_with_default_weight() {
    let v = registered();
    assert_eq!(v.validator_pubkey, key(1));
    assert_eq!(v.public_key, "public-credential");
    assert_eq!(v.private_key, "private-credential");
    assert!(v.is_active);
    assert_eq!(v.bump, 9);
    assert_eq!(v.total_validations, 0);
    assert_eq!(v.success_rate_bps, 0);
    assert_eq!(v.last_validation_time, 0);
    assert_eq!(v.validator_weight_milli, 1000);
}

#[test]
fn initialize_validator_rejects_an_occupied_slot() {
    let mut v = registered();
    let before = v.clone();
    let r = initialize_validator(
        &mut v,
        key(2),
        "public-credential".to_string(),
        "private-credential".to_string(),
        9,
    );
    assert_eq!(r, Err(DriverTripRewardError::ValidatorAlreadyExists));
    assert_eq!(v, before);
}

#[test]
fn initialize_validator_rejects_short_and_long_credentials() {
    let long = "x".repeat(1001);
    let cases: [(String, String); 4] = [
        ("short".to_string(), "private-credential".to_string()),
        (long.clone(), "private-credential".to_string()),
        ("public-credential".to_string(), "tiny".to_string()),
        ("public-credential".to_string(), long),
    ];
    for (public_key, private_key) in cases {
        let mut v = ValidatorAccount::zeroed();
        let r = initialize_validator(&mut v, key(1), public_key, private_key, 0);
        assert_eq!(r, Err(DriverTripRewardError::ValidatorAlreadyExists));
        assert_eq!(v.validator_pubkey, Pubkey::zero());
    }
}

#[test]
fn initialize_validator_accepts_boundary_lengths() {
    let mut v = ValidatorAccount::zeroed();
    let r = initialize_validator(&mut v, key(1), "x".repeat(10), "y".repeat(1000), 0);
    assert!(r.is_ok());
}

#[test]
fn process_private_data_counts_supported_operations() {
    let mut v = registered();
    for op in ["encrypt", "decrypt", "hash"] {
        let r = process_private_data(&mut v, &"payload".to_string(), &op.to_string(), 555);
        assert_eq!(r, Ok(()));
    }
    assert_eq!(v.total_validations, 3);
    assert_eq!(v.last_validation_time, 555);
}

#[test]
fn process_private_data_rejects_unknown_operation() {
    let mut v = registered();
    let before = v.clone();
    let r = process_private_data(&mut v, &"payload".to_string(), &"sign".to_string(), 555);
    assert_eq!(r, Err(DriverTripRewardError::InvalidDataOperation));
    assert_eq!(v, before);
}

#[test]
fn process_private_data_rejects_oversized_payload() {
    let mut v = registered();
    let big = "d".repeat(10001);
    let r = process_private_data(&mut v, &big, &"hash".to_string(), 555);
    assert_eq!(r, Err(DriverTripRewardError::InvalidDataOperation));
    assert_eq!(v.total_validations, 0);

    let exact = "d".repeat(10000);
    let r = process_private_data(&mut v, &exact, &"hash".to_string(), 555);
    assert_eq!(r, Ok(()));
}

#[test]
fn update_validator_weights_counts_one_activity() {
    let mut v = registered();
    let r = update_validator_weights(&mut v, &vec![1, 2, 3], 900);
    assert_eq!(r, Ok(()));
    assert_eq!(v.total_validations, 1);
    assert_eq!(v.last_validation_time, 900);
}

#[test]
fn update_validator_weights_rejects_empty_and_oversized() {
    let mut v = registered();
    let r = update_validator_weights(&mut v, &Vec::new(), 900);
    assert_eq!(r, Err(DriverTripRewardError::InvalidDataOperation));

    let big = vec![0u8; 10001];
    let r = update_validator_weights(&mut v, &big, 900);
    assert_eq!(r, Err(DriverTripRewardError::InvalidDataOperation));
    assert_eq!(v.total_validations, 0);

    let exact = vec![0u8; 10000];
    let r = update_validator_weights(&mut v, &exact, 900);
    assert_eq!(r, Ok(()));
}
