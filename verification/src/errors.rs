//! The error taxonomy. Every guard of every operation maps to exactly one of
//! these kinds, and each kind names the condition that raises it.

use vstd::prelude::*;

verus! {

/// Why an operation was refused. Errors are detected before any mutation:
/// an operation that returns one of these leaves every record unchanged.
#[derive(Clone, Copy, Debug, PartialEq, Eq, Structural)]
pub enum DriverTripRewardError {
    /// A driver record already holds this identity.
    DriverAlreadyExists,
    /// The addressed trip record does not match the given trip id.
    TripNotFound,
    /// The trip is in the wrong lifecycle state, its times are out of order,
    /// or its rating is out of range.
    InvalidTripStatus,
    /// The addressed pool does not match the given pool id, or is inactive.
    RewardPoolNotFound,
    /// A validator record already holds this identity, or a credential
    /// length is out of bounds.
    ValidatorAlreadyExists,
    /// An unsupported operation tag, or an input length out of bounds.
    InvalidDataOperation,
    /// The pool's remaining budget cannot cover one more payout, or the
    /// driver has no qualifying trips.
    InsufficientRewards,
    /// The trip was already verified.
    TripAlreadyVerified,
    /// The trip's content hash does not match.
    InvalidTripHash,
    /// A validator weight is out of range.
    InvalidValidatorWeight,
    /// No validator record holds this identity.
    ValidatorNotFound,
}

impl DriverTripRewardError {
    /// A human-readable description of the error kind.
    pub fn message(&self) -> (r: &'static str)
        ensures
            r@.len() > 0,
    {
        proof {
            reveal_strlit("Driver account already exists");
            reveal_strlit("Trip account not found");
            reveal_strlit("Invalid trip status");
            reveal_strlit("Reward pool not found");
            reveal_strlit("Validator account already exists");
            reveal_strlit("Invalid data operation");
            reveal_strlit("Insufficient rewards in pool");
            reveal_strlit("Trip already verified");
            reveal_strlit("Invalid trip hash");
            reveal_strlit("Invalid validator weight");
            reveal_strlit("Validator not found");
        }
        match self {
            DriverTripRewardError::DriverAlreadyExists => "Driver account already exists",
            DriverTripRewardError::TripNotFound => "Trip account not found",
            DriverTripRewardError::InvalidTripStatus => "Invalid trip status",
            DriverTripRewardError::RewardPoolNotFound => "Reward pool not found",
            DriverTripRewardError::ValidatorAlreadyExists => "Validator account already exists",
            DriverTripRewardError::InvalidDataOperation => "Invalid data operation",
            DriverTripRewardError::InsufficientRewards => "Insufficient rewards in pool",
            DriverTripRewardError::TripAlreadyVerified => "Trip already verified",
            DriverTripRewardError::InvalidTripHash => "Invalid trip hash",
            DriverTripRewardError::InvalidValidatorWeight => "Invalid validator weight",
            DriverTripRewardError::ValidatorNotFound => "Validator not found",
        }
    }
}

} // verus!
