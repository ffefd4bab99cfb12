//! DNS break-glass records as they appear in system jobs.

use vstd::prelude::*;

use super::address::Address;
use super::amount::HclawAmount;
use super::Timestamp;
use crate::crypto::signature::PublicKey;

verus! {

/// Configuration for the DNS break-glass mechanism.
#[derive(Clone, Debug, PartialEq, Eq)]
pub struct DnsBreakGlassConfig {
    /// Domain to resolve bootstrap nodes from
    pub domain: String,
    /// Maximum additional nodes that can be authorized
    pub max_nodes: u32,
    /// Tokens per DNS bootstrap node
    pub tokens_each: HclawAmount,
    /// Vesting period (24 hours)
    pub vesting_ms: i64,
    /// Authority public key: DNS records must carry a signature by this key
    /// over the node's public key to be valid.
    pub authority_key: PublicKey,
}

/// A DNS break-glass claim
#[derive(Clone, Debug, PartialEq, Eq)]
pub struct DnsBreakGlassClaim {
    /// Node address
    pub address: Address,
    /// Node public key
    pub node_key: PublicKey,
    /// DNS hostname that resolved to this node
    pub hostname: String,
    /// Tokens allocated
    pub amount: HclawAmount,
    /// When claimed
    pub claimed_at: Timestamp,
    /// When fully vested (`claimed_at` + 24h)
    pub vests_at: Timestamp,
}

} // verus!
