//! Identity keys and content hashes, held as plain 256-bit values.
//!
//! The external store addresses every record by a key derived from a fixed
//! namespace and an owning identity. This library only ever compares keys
//! for equality and against the all-zero key (the mark of an uninitialized
//! record), so a key is four 64-bit limbs and nothing more.

use vstd::prelude::*;

verus! {

/// A 256-bit identity key, as four little-endian 64-bit limbs.
/// The all-zero key marks a record slot that was never initialized.
#[derive(Clone, Copy, Debug, PartialEq, Eq, Structural)]
pub struct Pubkey {
    pub w0: u64,
    pub w1: u64,
    pub w2: u64,
    pub w3: u64,
}

impl Pubkey {
    /// The all-zero key.
    pub open spec fn spec_zero() -> Pubkey {
        Pubkey { w0: 0, w1: 0, w2: 0, w3: 0 }
    }

    /// Whether this is the all-zero key.
    pub open spec fn is_zero(self) -> bool {
        self == Pubkey::spec_zero()
    }

    /// Builds the all-zero key.
    pub fn zero() -> (r: Pubkey)
        ensures
            r == Pubkey::spec_zero(),
    {
        Pubkey { w0: 0, w1: 0, w2: 0, w3: 0 }
    }

    /// Builds a key from its four limbs.
    pub fn new(w0: u64, w1: u64, w2: u64, w3: u64) -> (r: Pubkey)
        ensures
            r == (Pubkey { w0, w1, w2, w3 }),
    {
        Pubkey { w0, w1, w2, w3 }
    }
}

/// A 256-bit content hash over a trip's externally recorded data,
/// kept as tamper-evidence. Four little-endian 64-bit limbs.
#[derive(Clone, Copy, Debug, PartialEq, Eq, Structural)]
pub struct TripHash {
    pub w0: u64,
    pub w1: u64,
    pub w2: u64,
    pub w3: u64,
}

impl TripHash {
    /// The all-zero hash, held by a trip that was never verified.
    pub open spec fn spec_zero() -> TripHash {
        TripHash { w0: 0, w1: 0, w2: 0, w3: 0 }
    }

    /// Builds the all-zero hash.
    pub fn zero() -> (r: TripHash)
        ensures
            r == TripHash::spec_zero(),
    {
        TripHash { w0: 0, w1: 0, w2: 0, w3: 0 }
    }

    /// Builds a hash from its four limbs.
    pub fn new(w0: u64, w1: u64, w2: u64, w3: u64) -> (r: TripHash)
        ensures
            r == (TripHash { w0, w1, w2, w3 }),
    {
        TripHash { w0, w1, w2, w3 }
    }
}

} // verus!
