//! Genesis configuration as it is written in configuration files.
//!
//! Genesis configs differ between testnet and mainnet. The file format
//! mirrors [`GenesisConfigToml`]; reading and writing files is left to the
//! application.

use vstd::prelude::*;
use vstd::string::*;

use super::{
    BOOTSTRAP_DURATION_MS, BOOTSTRAP_NODE_TOKENS, FOUNDER_AIRDROP_AMOUNT, GENESIS_AIRDROP_AMOUNT,
    MAX_GENESIS_PARTICIPANTS,
};

verus! {

/// DNS break-glass config as written in a configuration file
#[derive(Clone, Debug)]
pub struct DnsBreakGlassToml {
    /// Domain (default: clawpaper.com)
    pub domain: String,
    /// Max nodes (default: 10)
    pub max_nodes: u32,
    /// Tokens per node (whole HCLAW, default: 250,000)
    pub tokens_each: u64,
    /// Vesting period in hours (default: 24)
    pub vesting_hours: u32,
}

/// Genesis config as written in a configuration file
#[derive(Clone, Debug)]
pub struct GenesisConfigToml {
    /// Chain identifier
    pub chain_id: String,
    /// Bootstrap duration in days (default: 30)
    pub bootstrap_duration_days: u32,
    /// Standard airdrop amount for regular participants (default: 100 HCLAW)
    pub airdrop_amount: u64,
    /// Founder airdrop amount for pre-approved wallets (default: 250,000 HCLAW)
    pub founder_airdrop_amount: u64,
    /// Maximum participants (default: 5,000)
    pub max_participants: u32,
    /// Pre-approved founder addresses (hex-encoded)
    pub pre_approved: Vec<String>,
    /// Bootstrap node addresses (hex-encoded)
    pub bootstrap_nodes: Vec<String>,
    /// Tokens per bootstrap node (default: 500,000 HCLAW)
    pub bootstrap_node_tokens: u64,
    /// Authority public key for DNS break-glass (hex-encoded)
    pub authority_key: String,
    /// DNS break-glass config (optional, uses defaults if absent)
    pub dns_break_glass: Option<DnsBreakGlassToml>,
}

/// Placeholder text for a founder address that is still to be filled in
pub const FOUNDER_PLACEHOLDER: &'static str = "<founder-addr-hex>";

/// Placeholder text for a bootstrap node address that is still to be filled in
pub const BOOTSTRAP_NODE_PLACEHOLDER: &'static str = "<bootstrap-node-addr-hex>";

/// Placeholder text for the authority key that is still to be filled in
pub const AUTHORITY_PLACEHOLDER: &'static str = "<authority-pubkey-hex>";

/// The chain id of the default testnet
pub const TESTNET_CHAIN_ID: &'static str = "hardclaw-testnet-1";

fn repeated(text: &str, count: usize) -> (r: Vec<String>)
    ensures
        r@.len() == count,
        forall|i: int| 0 <= i < count ==> (#[trigger] r@[i])@ == text@,
{
    let mut out: Vec<String> = Vec::new();
    let mut i: usize = 0;
    while i < count
        invariant
            0 <= i <= count,
            out@.len() == i,
            forall|j: int| 0 <= j < i ==> (#[trigger] out@[j])@ == text@,
        decreases count - i,
    {
        out.push(String::from_str(text));
        i += 1;
    }
    out
}

/// Create a default testnet config (for quick local testing): the protocol
/// defaults, with placeholders for eight founders, four bootstrap nodes and
/// the authority key.
pub fn default_testnet_toml() -> (r: GenesisConfigToml)
    ensures
        r.chain_id@ == TESTNET_CHAIN_ID@,
        r.bootstrap_duration_days == 30,
        r.airdrop_amount == GENESIS_AIRDROP_AMOUNT,
        r.founder_airdrop_amount == FOUNDER_AIRDROP_AMOUNT,
        r.max_participants == MAX_GENESIS_PARTICIPANTS,
        r.pre_approved@.len() == 8,
        forall|i: int| 0 <= i < 8 ==> (#[trigger] r.pre_approved@[i])@ == FOUNDER_PLACEHOLDER@,
        r.bootstrap_nodes@.len() == 4,
        forall|i: int|
            0 <= i < 4 ==> (#[trigger] r.bootstrap_nodes@[i])@ == BOOTSTRAP_NODE_PLACEHOLDER@,
        r.bootstrap_node_tokens == BOOTSTRAP_NODE_TOKENS,
        r.authority_key@ == AUTHORITY_PLACEHOLDER@,
        r.dns_break_glass.is_none(),
{
    GenesisConfigToml {
        chain_id: String::from_str(TESTNET_CHAIN_ID),
        bootstrap_duration_days: 30,
        airdrop_amount: GENESIS_AIRDROP_AMOUNT,
        founder_airdrop_amount: FOUNDER_AIRDROP_AMOUNT,
        max_participants: MAX_GENESIS_PARTICIPANTS,
        pre_approved: repeated(FOUNDER_PLACEHOLDER, 8),
        bootstrap_nodes: repeated(BOOTSTRAP_NODE_PLACEHOLDER, 4),
        bootstrap_node_tokens: BOOTSTRAP_NODE_TOKENS,
        authority_key: String::from_str(AUTHORITY_PLACEHOLDER),
        dns_break_glass: None,
    }
}

/// Compute the bootstrap duration in ms from days
pub fn bootstrap_duration_from_days(days: u32) -> (r: i64)
    ensures
        r == days * (24 * 60 * 60 * 1000),
{
    if days == 30 {
        BOOTSTRAP_DURATION_MS
    } else {
        assert(days * 86_400_000 <= 0xffff_ffff * 86_400_000) by (nonlinear_arith)
            requires
                days <= 0xffff_ffff,
        ;
        (days as i64) * 86_400_000
    }
}

} // verus!
