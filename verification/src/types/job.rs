//! System jobs: state changes that the protocol itself schedules.

use vstd::prelude::*;

use super::address::Address;
use super::amount::HclawAmount;

verus! {

/// Kinds of system jobs that the bootstrap state machine emits
#[derive(Debug)]
pub enum SystemJobKind {
    /// An airdrop claim was activated
    AirdropClaim {
        /// Receiving verifier
        recipient: Address,
        /// Position in the airdrop (1-indexed)
        position: u32,
        /// Amount granted
        amount: HclawAmount,
    },
    /// A day's vesting portion was unlocked
    VestingUnlock {
        /// Verifier whose tokens vested
        beneficiary: Address,
        /// Amount unlocked
        amount: HclawAmount,
    },
    /// A DNS break-glass node claimed its tokens
    DnsBootstrapClaim {
        /// Node address
        node: Address,
        /// Hostname that authorised the node
        hostname: String,
        /// Amount granted
        amount: HclawAmount,
    },
    /// The bootstrap period ended
    BootstrapComplete {
        /// Number of activated verifiers
        total_verifiers: u32,
        /// Total tokens distributed
        total_distributed: HclawAmount,
    },
}

} // verus!

verus! {

/// The outcome of verifying one solution
#[derive(Clone, Copy, Debug)]
pub struct VerificationResult {
    /// The solution that was verified
    pub solution_id: super::Id,
    /// The job that the solution answers
    pub job_id: super::Id,
    /// Whether the solution passed verification
    pub passed: bool,
}

} // verus!
