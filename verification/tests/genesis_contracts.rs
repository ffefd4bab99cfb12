use hardclaw::genesis::contracts::initialize_genesis_contracts;


#[test]
fn test_initialize_genesis_contracts() {
    let start_time = 1_000_000_i64;
    let voting_power = 1_000_000_u128;

    let processor = initialize_genesis_contracts(start_time, voting_power);

    // Verify both contracts were registered
    assert_eq!(processor.registry().contract_count(), 2);
}

#[test]
fn test_contracts_have_correct_ids() {
    let start_time = 1_000_000_i64;
    let processor = initialize_genesis_contracts(start_time, 100_000);

    // Verify we can look up contracts by their IDs
    let bounty_id = hardclaw::contracts::genesis_bounty::genesis_bounty_contract_id();
    let governance_id = hardclaw::contracts::governance::governance_contract_id();

    assert!(processor.registry().get_contract(&bounty_id).is_some());
    assert!(processor.registry().get_contract(&governance_id).is_some());
}

#[test]
fn genesis_contracts_are_listed_in_order() {
    let processor = initialize_genesis_contracts(0, 0);
    assert_eq!(
        processor.registry().list(),
        vec![
            hardclaw::contracts::genesis_bounty::genesis_bounty_contract_id(),
            hardclaw::contracts::governance::governance_contract_id(),
        ]
    );
    let bounty = processor
        .registry()
        .get(&hardclaw::contracts::genesis_bounty::genesis_bounty_contract_id())
        .unwrap();
    assert_eq!(bounty.name(), "GenesisBountyContract");
    assert!(!bounty.is_upgradeable());
    let governance = processor
        .registry()
        .get(&hardclaw::contracts::governance::governance_contract_id())
        .unwrap();
    assert_eq!(governance.name(), "GovernanceContract");
    assert_eq!(governance.version(), 1);
    assert!(governance.is_upgradeable());
}
