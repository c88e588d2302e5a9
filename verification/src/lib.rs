//! A ride-hailing ledger core: trip lifecycle, driver statistics,
//! reward-pool accounting and a validator registry.
//!
//! Every record lives in an external key-addressed store; this library holds
//! the state transitions themselves. Each public operation validates all of
//! its preconditions first and only then mutates the records it was handed,
//! so a failed call leaves every record exactly as it was.

pub mod driver;
pub mod errors;
pub mod keys;
pub mod pool;
pub mod state;
pub mod trip;
pub mod validator;

pub use errors::DriverTripRewardError;
pub use keys::{Pubkey, TripHash};
pub use state::{DriverAccount, RewardPoolAccount, TripAccount, ValidatorAccount};
pub use state::{TripStatus, VerificationStatus};
