//! The validator registry: registration and activity counters.
//!
//! The two activity entry points are thin wrappers around the same
//! counter update, guarded only by input-length bounds. The caller supplies
//! the current time; this library never reads a clock itself.

use vstd::prelude::*;
use vstd::string::StringExecFns;
use crate::errors::DriverTripRewardError;
use crate::keys::Pubkey;
use crate::state::ValidatorAccount;

verus! {

/// The least and greatest accepted credential length, in characters.
pub const MIN_CREDENTIAL_LEN: usize = 10;

pub const MAX_CREDENTIAL_LEN: usize = 1000;

/// The greatest accepted length of a private-data payload, in characters.
pub const MAX_DATA_LEN: usize = 10000;

/// The greatest accepted length of a weights payload, in bytes.
pub const MAX_WEIGHTS_LEN: usize = 10000;

/// The weight a fresh validator starts with: one, in thousandths.
pub const DEFAULT_WEIGHT_MILLI: u32 = 1000;

/// Why `initialize_validator` would be refused, `None` when it succeeds.
pub open spec fn initialize_validator_check(
    validator: ValidatorAccount,
    public_key_len: nat,
    private_key_len: nat,
) -> Option<DriverTripRewardError> {
    if !validator.validator_pubkey.is_zero() {
        Some(DriverTripRewardError::ValidatorAlreadyExists)
    } else if public_key_len < MIN_CREDENTIAL_LEN || public_key_len > MAX_CREDENTIAL_LEN {
        Some(DriverTripRewardError::ValidatorAlreadyExists)
    } else if private_key_len < MIN_CREDENTIAL_LEN || private_key_len > MAX_CREDENTIAL_LEN {
        Some(DriverTripRewardError::ValidatorAlreadyExists)
    } else {
        None
    }
}

/// Registers a validator identity in a fresh record slot, with both
/// credentials between ten and a thousand characters, zeroed activity
/// counters and the default weight of one. Fails, touching nothing, when
/// the slot already holds an identity or a credential length is out of
/// bounds.
pub fn initialize_validator(
    validator: &mut ValidatorAccount,
    validator_pubkey: Pubkey,
    public_key: String,
    private_key: String,
    bump: u8,
) -> (r: Result<(), DriverTripRewardError>)
    ensures
        r is Ok <==> initialize_validator_check(
            *old(validator),
            public_key@.len(),
            private_key@.len(),
        ) is None,
        r matches Err(e) ==> Some(e) == initialize_validator_check(
            *old(validator),
            public_key@.len(),
            private_key@.len(),
        ) && *final(validator) == *old(validator),
        r is Ok ==> *final(validator) == (ValidatorAccount {
            validator_pubkey,
            public_key,
            private_key,
            is_active: true,
            bump,
            total_validations: 0,
            success_rate_bps: 0,
            last_validation_time: 0,
            validator_weight_milli: DEFAULT_WEIGHT_MILLI,
        }),
{
    if !(validator.validator_pubkey == Pubkey::zero()) {
        return Err(DriverTripRewardError::ValidatorAlreadyExists);
    }
    let public_key_len = public_key.as_str().unicode_len();
    if public_key_len < MIN_CREDENTIAL_LEN || public_key_len > MAX_CREDENTIAL_LEN {
        return Err(DriverTripRewardError::ValidatorAlreadyExists);
    }
    let private_key_len = private_key.as_str().unicode_len();
    if private_key_len < MIN_CREDENTIAL_LEN || private_key_len > MAX_CREDENTIAL_LEN {
        return Err(DriverTripRewardError::ValidatorAlreadyExists);
    }
    *validator = ValidatorAccount {
        validator_pubkey,
        public_key,
        private_key,
        is_active: true,
        bump,
        total_validations: 0,
        success_rate_bps: 0,
        last_validation_time: 0,
        validator_weight_milli: DEFAULT_WEIGHT_MILLI,
    };
    Ok(())
}

/// Whether an operation tag names one of the supported private-data
/// operations.
pub open spec fn spec_supported_operation(operation: Seq<char>) -> bool {
    ||| operation == "encrypt"@
    ||| operation == "decrypt"@
    ||| operation == "hash"@
}

/// Decides [`spec_supported_operation`] for a given tag.
pub fn is_supported_operation(operation: &String) -> (r: bool)
    ensures
        r == spec_supported_operation(operation@),
{
    *operation == String::from_str("encrypt") || *operation == String::from_str("decrypt")
        || *operation == String::from_str("hash")
}

/// The validator after one recorded activity at time `now`.
pub open spec fn validator_after_activity(v: ValidatorAccount, now: i64) -> ValidatorAccount {
    ValidatorAccount { total_validations: (v.total_validations + 1) as u64, last_validation_time: now, ..v }
}

/// Why `process_private_data` would be refused, `None` when it succeeds.
pub open spec fn process_private_data_check(data_len: nat, operation: Seq<char>) -> Option<
    DriverTripRewardError,
> {
    if !spec_supported_operation(operation) {
        Some(DriverTripRewardError::InvalidDataOperation)
    } else if data_len > MAX_DATA_LEN {
        Some(DriverTripRewardError::InvalidDataOperation)
    } else {
        None
    }
}

/// Records one private-data operation: the tag must be one of the supported
/// operations and the payload at most ten thousand characters; on success
/// the validator's activity counter grows by one and its last-validation
/// time is stamped with `now`. Fails, touching nothing, otherwise.
pub fn process_private_data(
    validator: &mut ValidatorAccount,
    data: &String,
    operation: &String,
    now: i64,
) -> (r: Result<(), DriverTripRewardError>)
    requires
        old(validator).total_validations < u64::MAX,
    ensures
        r is Ok <==> process_private_data_check(data@.len(), operation@) is None,
        r matches Err(e) ==> Some(e) == process_private_data_check(data@.len(), operation@)
            && *final(validator) == *old(validator),
        r is Ok ==> *final(validator) == validator_after_activity(*old(validator), now),
{
    if !is_supported_operation(operation) {
        return Err(DriverTripRewardError::InvalidDataOperation);
    }
    if data.as_str().unicode_len() > MAX_DATA_LEN {
        return Err(DriverTripRewardError::InvalidDataOperation);
    }
    validator.total_validations = validator.total_validations + 1;
    validator.last_validation_time = now;
    Ok(())
}

/// Why `update_validator_weights` would be refused, `None` when it
/// succeeds.
pub open spec fn update_validator_weights_check(weights_len: nat) -> Option<
    DriverTripRewardError,
> {
    if weights_len == 0 || weights_len > MAX_WEIGHTS_LEN {
        Some(DriverTripRewardError::InvalidDataOperation)
    } else {
        None
    }
}

/// Records one weight-update action: the payload must hold between one and
/// ten thousand bytes; on success the validator's activity counter grows by
/// one and its last-validation time is stamped with `now`. Fails, touching
/// nothing, otherwise.
pub fn update_validator_weights(
    validator: &mut ValidatorAccount,
    new_weights: &Vec<u8>,
    now: i64,
) -> (r: Result<(), DriverTripRewardError>)
    requires
        old(validator).total_validations < u64::MAX,
    ensures
        r is Ok <==> update_validator_weights_check(new_weights@.len()) is None,
        r matches Err(e) ==> Some(e) == update_validator_weights_check(new_weights@.len())
            && *final(validator) == *old(validator),
        r is Ok ==> *final(validator) == validator_after_activity(*old(validator), now),
{
    if new_weights.len() == 0 || new_weights.len() > MAX_WEIGHTS_LEN {
        return Err(DriverTripRewardError::InvalidDataOperation);
    }
    validator.total_validations = validator.total_validations + 1;
    validator.last_validation_time = now;
    Ok(())
}

} // verus!
