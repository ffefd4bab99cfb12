use hardclaw::contracts::genesis_bounty::GenesisDeploymentConfig;
use hardclaw::crypto::signature::Keypair;
use hardclaw::encoding::decimal_text;
use hardclaw::genesis::config::default_testnet_toml;
use hardclaw::genesis::launch::{
    deployment_config, encode_allocations, genesis_allocations, local_allocations,
    parse_addresses, BOOTSTRAP_SECONDS,
};
use hardclaw::state::account::{apply_allocations, AccountState, Ledger};
use hardclaw::types::address::Address;
use hardclaw::types::amount::HclawAmount;

#[test]
fn decimal_text_of_numbers() {
    assert_eq!(decimal_text(0), "0");
    assert_eq!(decimal_text(7), "7");
    assert_eq!(decimal_text(10), "10");
    assert_eq!(decimal_text(1_234_567_890), "1234567890");
    assert_eq!(decimal_text(u64::MAX), "18446744073709551615");
}

#[test]
fn addresses_are_parsed_and_others_skipped() {
    let texts = vec![
        "01".repeat(20),
        "<founder-addr-hex>".to_string(),
        "ab".repeat(19),
        "AB".repeat(20),
        format!("0x{}", "cd".repeat(20)),
        "zz".repeat(20),
        "ef".repeat(20),
    ];
    let parsed = parse_addresses(&texts);
    assert_eq!(
        parsed,
        vec![
            Address::from_bytes([0x01; 20]),
            Address::from_bytes([0xab; 20]),
            Address::from_bytes([0xef; 20]),
        ]
    );
    assert!(parse_addresses(&[]).is_empty());
}

#[test]
fn allocations_are_numbered_from_one() {
    let nodes = [Address::from_bytes([1; 20]), Address::from_bytes([2; 20])];
    let founders = [
        Address::from_bytes([3; 20]),
        Address::from_bytes([4; 20]),
        Address::from_bytes([5; 20]),
    ];
    let alloc = genesis_allocations(&nodes, 500_000, &founders, 250_000);
    assert_eq!(alloc.len(), 5);
    let labels: Vec<&str> = alloc.iter().map(|a| a.label.as_str()).collect();
    assert_eq!(labels, ["bootstrap-1", "bootstrap-2", "founder-1", "founder-2", "founder-3"]);
    assert_eq!(alloc[1].address, nodes[1]);
    assert_eq!(alloc[1].amount, HclawAmount::from_hclaw(500_000));
    assert_eq!(alloc[4].address, founders[2]);
    assert_eq!(alloc[4].amount, HclawAmount::from_hclaw(250_000));
    assert!(genesis_allocations(&[], 1, &[], 1).is_empty());

    let many: Vec<Address> = (0..12u8).map(|i| Address::from_bytes([i; 20])).collect();
    let alloc = genesis_allocations(&many, 1, &[], 1);
    assert_eq!(alloc[9].label, "bootstrap-10");
    assert_eq!(alloc[11].label, "bootstrap-12");
}

#[test]
fn local_chain_allocates_to_the_node() {
    let node = Address::from_bytes([7; 20]);
    let alloc = local_allocations(node);
    assert_eq!(alloc.len(), 2);
    assert_eq!(alloc[0].label, "bootstrap-local");
    assert_eq!(alloc[0].amount, HclawAmount::from_hclaw(500_000));
    assert_eq!(alloc[1].label, "founder-local");
    assert_eq!(alloc[1].amount, HclawAmount::from_hclaw(250_000));

    let mut ledger = Ledger::new();
    apply_allocations(&mut ledger, &alloc);
    assert_eq!(ledger.len(), 1);
    assert_eq!(ledger.get(&node).unwrap().balance, HclawAmount::from_hclaw(750_000));
}

#[test]
fn allocations_are_credited_in_order() {
    let a = Address::from_bytes([1; 20]);
    let b = Address::from_bytes([2; 20]);
    let mut ledger = Ledger::new();
    let mut staked = AccountState::new(HclawAmount::from_raw(u128::MAX - 5));
    staked.staked = HclawAmount::from_raw(9);
    staked.nonce = 4;
    ledger.insert(b, staked);
    let alloc = genesis_allocations(&[a, b], 2, &[a], 3);
    apply_allocations(&mut ledger, &alloc);
    assert_eq!(ledger.get(&a).unwrap().balance, HclawAmount::from_hclaw(5));
    assert_eq!(ledger.get(&a).unwrap().nonce, 0);
    // a balance stops at the largest amount; stake and nonce stay
    let after = ledger.get(&b).unwrap();
    assert_eq!(after.balance, HclawAmount::from_raw(u128::MAX));
    assert_eq!(after.staked, HclawAmount::from_raw(9));
    assert_eq!(after.nonce, 4);
}

#[test]
fn allocations_have_bytes() {
    let a = Address::from_bytes([1; 20]);
    let alloc = genesis_allocations(&[a], 0, &[], 0);
    let bytes = encode_allocations(&alloc);
    let mut expected = 1u64.to_le_bytes().to_vec();
    expected.extend_from_slice(&[1; 20]);
    expected.extend_from_slice(&0u128.to_le_bytes());
    expected.extend_from_slice(&11u64.to_le_bytes());
    expected.extend_from_slice(b"bootstrap-1");
    assert_eq!(bytes, expected);
    assert_eq!(encode_allocations(&[]), 0u64.to_le_bytes().to_vec());
}

#[test]
fn deployment_configuration_of_a_launch() {
    let key = Keypair::generate().public_key().clone();
    let founder = Address::from_bytes([3; 20]);
    let node = Address::from_bytes([4; 20]);
    let mut file = default_testnet_toml();
    file.airdrop_amount = 7;
    file.max_participants = 12;
    let config = deployment_config(&file, vec![founder], vec![node], key.clone(), 1_000);
    assert_eq!(config.airdrop_amount, HclawAmount::from_hclaw(7));
    assert_eq!(config.founder_airdrop_amount, HclawAmount::from_hclaw(250_000));
    assert_eq!(config.max_participants, 12);
    assert_eq!(config.pre_approved, vec![founder]);
    assert_eq!(config.bootstrap_nodes, vec![node]);
    assert_eq!(config.bootstrap_node_tokens, HclawAmount::from_hclaw(500_000));
    assert_eq!(config.dns_break_glass.domain, "clawpaper.com");
    assert_eq!(config.dns_break_glass.max_nodes, 10);
    assert_eq!(config.dns_break_glass.tokens_each, HclawAmount::from_hclaw(250_000));
    assert_eq!(config.dns_break_glass.vesting_ms, 24 * 60 * 60 * 1000);
    assert_eq!(config.dns_break_glass.authority_key, key);
    assert_eq!(config.bootstrap_end, 1_000 + 30 * 24 * 3600);
    assert_eq!(BOOTSTRAP_SECONDS, 2_592_000);

    // what is written is what is read
    let decoded = GenesisDeploymentConfig::decode(&config.encode()).expect("decodes");
    assert_eq!(decoded.pre_approved, config.pre_approved);
    assert_eq!(decoded.bootstrap_end, config.bootstrap_end);
    assert_eq!(decoded.dns_break_glass.authority_key, key);
}

#[test]
fn wide_numbers_and_timestamps() {
    assert_eq!(
        hardclaw::encoding::decimal_text_wide(u128::MAX),
        "340282366920938463463374607431768211455"
    );
    assert_eq!(hardclaw::encoding::decimal_text_wide(0), "0");
    assert_eq!(hardclaw::encoding::decimal_text_wide(18_446_744_073_709_551_616), "18446744073709551616");
    assert_eq!(hardclaw::types::timestamp_from(None), 0);
    assert_eq!(hardclaw::types::timestamp_from(Some(0)), 0);
    assert_eq!(hardclaw::types::timestamp_from(Some(1_700_000_000_123)), 1_700_000_000_123);
    assert_eq!(hardclaw::types::timestamp_from(Some(i64::MAX as u128)), i64::MAX);
    assert_eq!(hardclaw::types::timestamp_from(Some(i64::MAX as u128 + 1)), i64::MAX);
    assert_eq!(hardclaw::types::timestamp_from(Some(u128::MAX)), i64::MAX);
    assert!(hardclaw::types::now_millis() > 1_600_000_000_000);
}
