//! Core value types shared by every part of the protocol.

pub mod address;
pub mod address_map;
pub mod assoc;
pub mod block;
pub mod genesis;
pub mod governance;
pub mod job;
pub mod amount;

pub use self::address::{Address, AddressError};
pub use self::address_map::{AddressMap, AddressSet};
pub use self::amount::HclawAmount;
pub use self::governance::GovernanceAction;
pub use self::job::{SystemJobKind, VerificationResult};

use vstd::prelude::*;

verus! {

/// Identifiers are content-derived digests.
pub type Id = crate::crypto::hash::Hash;

/// Milliseconds since the Unix epoch.
pub type Timestamp = i64;

/// Reads the system clock through `std::time::SystemTime::now` and takes the
/// time since the Unix epoch with `duration_since`, in milliseconds; none
/// where the clock stands before the epoch. Nothing is promised of the
/// value: two calls may return anything.
#[verifier::external_body]
fn system_millis() -> (t: Option<u128>) {
    std::time::SystemTime::now().duration_since(std::time::UNIX_EPOCH).ok().map(|d| d.as_millis())
}

/// The timestamp that a number of milliseconds stands for: the number
/// itself as far as a timestamp reaches, and zero where there is none.
pub open spec fn timestamp_of(millis: Option<u128>) -> Timestamp {
    match millis {
        Some(m) => if m <= i64::MAX {
            m as i64
        } else {
            i64::MAX
        },
        None => 0,
    }
}

/// The timestamp that a number of milliseconds stands for.
pub fn timestamp_from(millis: Option<u128>) -> (t: Timestamp)
    ensures
        t == timestamp_of(millis),
{
    match millis {
        Some(m) => if m <= i64::MAX as u128 {
            m as i64
        } else {
            i64::MAX
        },
        None => 0,
    }
}

/// The current time in milliseconds since the Unix epoch, as the system
/// clock gives it: never negative, and zero where the clock stands before
/// the epoch.
pub fn now_millis() -> (t: Timestamp)
    ensures
        t >= 0,
{
    timestamp_from(system_millis())
}

} // verus!
