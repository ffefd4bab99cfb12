use hardclaw::genesis::config::{bootstrap_duration_from_days, default_testnet_toml};
use hardclaw::genesis::{
    BOOTSTRAP_DURATION_MS, BOOTSTRAP_NODE_TOKENS, FOUNDER_AIRDROP_AMOUNT, GENESIS_AIRDROP_AMOUNT,
    MAX_GENESIS_PARTICIPANTS,
};


#[test]
fn test_tiered_allocation() {
    let config = default_testnet_toml();
    assert_eq!(config.airdrop_amount, 100);
    assert_eq!(config.founder_airdrop_amount, 250_000);
    assert_eq!(config.bootstrap_node_tokens, 500_000);
    assert_eq!(config.max_participants, 5_000);
    assert_eq!(config.pre_approved.len(), 8);
    assert_eq!(config.bootstrap_nodes.len(), 4);
}

#[test]
fn durations_and_placeholders() {
    assert_eq!(bootstrap_duration_from_days(30), BOOTSTRAP_DURATION_MS);
    assert_eq!(bootstrap_duration_from_days(0), 0);
    assert_eq!(bootstrap_duration_from_days(1), 86_400_000);
    assert_eq!(bootstrap_duration_from_days(u32::MAX), u32::MAX as i64 * 86_400_000);
    let config = default_testnet_toml();
    assert_eq!(config.chain_id, "hardclaw-testnet-1");
    assert_eq!(config.bootstrap_duration_days, 30);
    assert_eq!(config.pre_approved[7], "<founder-addr-hex>");
    assert_eq!(config.bootstrap_nodes[0], "<bootstrap-node-addr-hex>");
    assert_eq!(config.authority_key, "<authority-pubkey-hex>");
    assert!(config.dns_break_glass.is_none());
    assert_eq!(config.airdrop_amount, GENESIS_AIRDROP_AMOUNT);
    assert_eq!(config.founder_airdrop_amount, FOUNDER_AIRDROP_AMOUNT);
    assert_eq!(config.max_participants, MAX_GENESIS_PARTICIPANTS);
    assert_eq!(config.bootstrap_node_tokens, BOOTSTRAP_NODE_TOKENS);
}
