use hardclaw::contracts::genesis_bounty::{
    decode_tracker, encode_tracker, BountyAction, GenesisBountyContract, GenesisDeploymentConfig,
    Participant, AIRDROP_AMOUNT, KEY_CONFIG, MAX_PARTICIPANTS, MIN_STAKE,
};
use hardclaw::contracts::state::ContractState;
use hardclaw::contracts::transaction::ContractTransaction;
use hardclaw::contracts::{Contract, ContractError};
use hardclaw::crypto::signature::Keypair;
use hardclaw::genesis::bounty::{calculate_hourly_budget, BountyTracker, MIN_PUBLIC_NODES};
use hardclaw::genesis::DnsBreakGlassConfig;
use hardclaw::state::account::{AccountState, Ledger};
use hardclaw::state::storage::ContractStorage;
use hardclaw::types::address::Address;
use hardclaw::types::amount::HclawAmount;

/// Store a default GenesisDeploymentConfig into contract storage so
/// `execute_join` can read it.
fn store_default_config(contract: &GenesisBountyContract, storage: &mut ContractStorage) {
    store_config_with_founders(contract, storage, Vec::new());
}

fn config_with_founders(founders: Vec<Address>) -> GenesisDeploymentConfig {
    let authority_kp = Keypair::generate();
    GenesisDeploymentConfig {
        airdrop_amount: HclawAmount::from_hclaw(AIRDROP_AMOUNT),
        founder_airdrop_amount: HclawAmount::from_hclaw(hardclaw::genesis::FOUNDER_AIRDROP_AMOUNT),
        max_participants: MAX_PARTICIPANTS as u32,
        pre_approved: founders,
        bootstrap_nodes: Vec::new(),
        bootstrap_node_tokens: HclawAmount::from_hclaw(hardclaw::genesis::BOOTSTRAP_NODE_TOKENS),
        dns_break_glass: DnsBreakGlassConfig {
            domain: "bootstrap.hardclaw.net".to_string(),
            max_nodes: 10,
            tokens_each: HclawAmount::from_hclaw(500),
            vesting_ms: 86_400_000,
            authority_key: authority_kp.public_key().clone(),
        },
        bootstrap_end: 9_999_999_999,
    }
}

/// Store config with specific founder addresses.
fn store_config_with_founders(
    contract: &GenesisBountyContract,
    storage: &mut ContractStorage,
    founders: Vec<Address>,
) {
    let data = config_with_founders(founders).encode();
    storage.insert(contract.address(), KEY_CONFIG.as_bytes().to_vec(), data);
}

/// Helper: create a joined participant with a given stake.
fn join_participant(
    contract: &GenesisBountyContract,
    state: &mut ContractState,
    address: Address,
    stake: u64,
) {
    let participant = Participant {
        address,
        stake: HclawAmount::from_hclaw(stake),
        airdrop: HclawAmount::from_hclaw(100),
        bounties_earned: HclawAmount::zero(),
        joined_at: 1_000_000,
    };
    contract.save_participant(state, &participant).unwrap();
}

/// Helper: set up bounty tracker with active node count and given start time.
fn setup_active_tracker(contract: &GenesisBountyContract, state: &mut ContractState, start_time: u64) {
    let mut tracker = BountyTracker::new(start_time);
    tracker.update_node_count(MIN_PUBLIC_NODES);
    contract.save_bounty_tracker(state, &tracker).unwrap();
}

fn funded_state(contract: &GenesisBountyContract, who: &[Address], founders: Vec<Address>) -> ContractState {
    let mut accounts = Ledger::new();
    let mut storage = ContractStorage::new();
    store_config_with_founders(contract, &mut storage, founders);
    for a in who {
        accounts.insert(*a, AccountState::new(HclawAmount::from_hclaw(1000)));
    }
    ContractState::new(accounts, storage)
}

#[test]
fn test_join_genesis() {
    let contract = GenesisBountyContract::new(1000);
    let mut accounts = Ledger::new();
    let mut storage = ContractStorage::new();

    store_default_config(&contract, &mut storage);

    let kp = Keypair::generate();
    let sender = Address::from_public_key(kp.public_key());

    // Fund sender
    accounts.insert(sender, AccountState::new(HclawAmount::from_hclaw(1000)));

    let mut state = ContractState::new(accounts, storage);

    let stake_amount = HclawAmount::from_hclaw(MIN_STAKE);
    let result = contract.execute_join(&mut state, sender, stake_amount, 1);
    assert!(result.is_ok(), "join failed: {:?}", result.err());

    // Verify via storage (not in-memory state)
    assert!(contract.load_participant(&state, &sender).is_some());
    assert_eq!(contract.load_participant_count(&state), 1);
}

#[test]
fn test_join_fails_below_min_stake() {
    let contract = GenesisBountyContract::new(1000);
    let kp = Keypair::generate();
    let sender = Address::from_public_key(kp.public_key());
    let mut state = funded_state(&contract, &[sender], Vec::new());

    let stake_amount = HclawAmount::from_hclaw(MIN_STAKE - 1);
    let result = contract.execute_join(&mut state, sender, stake_amount, 1);
    assert!(result.is_err());
}

#[test]
fn test_cannot_join_twice() {
    let contract = GenesisBountyContract::new(1000);
    let kp = Keypair::generate();
    let sender = Address::from_public_key(kp.public_key());
    let mut state = funded_state(&contract, &[sender], Vec::new());
    let stake_amount = HclawAmount::from_hclaw(MIN_STAKE);

    // First join succeeds
    assert!(contract.execute_join(&mut state, sender, stake_amount, 1).is_ok());

    // Second join fails: duplicate detected via storage
    assert!(contract.execute_join(&mut state, sender, stake_amount, 2).is_err());
}

#[test]
fn test_bounty_tracker_persists_across_calls() {
    let contract = GenesisBountyContract::new(1000);
    let mut state = funded_state(&contract, &[], Vec::new());

    // Update node count: should persist via storage
    assert!(contract.execute_update_nodes(&mut state, 10).is_ok());

    // Load tracker back: count should be 10
    let tracker = contract.load_bounty_tracker(&state);
    assert_eq!(tracker.public_node_count, 10);
    assert!(tracker.is_active());
}

#[test]
fn test_founder_join_gets_250k() {
    let contract = GenesisBountyContract::new(1000);
    let kp = Keypair::generate();
    let founder = Address::from_public_key(kp.public_key());

    // Config with this address as a founder
    let mut state = funded_state(&contract, &[], vec![founder]);

    // Founders don't need to stake
    let result = contract.execute_join(&mut state, founder, HclawAmount::zero(), 1);
    assert!(result.is_ok(), "founder join failed: {:?}", result.err());

    let participant = contract.load_participant(&state, &founder).unwrap();
    assert_eq!(participant.airdrop.whole_hclaw(), 250_000);
}

#[test]
fn test_regular_join_gets_100() {
    let contract = GenesisBountyContract::new(1000);
    let kp = Keypair::generate();
    let regular = Address::from_public_key(kp.public_key());
    let mut state = funded_state(&contract, &[regular], Vec::new());

    let result = contract.execute_join(&mut state, regular, HclawAmount::from_hclaw(MIN_STAKE), 1);
    assert!(result.is_ok(), "regular join failed: {:?}", result.err());

    let participant = contract.load_participant(&state, &regular).unwrap();
    assert_eq!(participant.airdrop.whole_hclaw(), 100);
}

#[test]
fn test_distribute_hourly_credits_evenly() {
    let contract = GenesisBountyContract::new(1000);
    let mut state = funded_state(&contract, &[], Vec::new());

    let addrs: Vec<Address> = (0..3)
        .map(|i| {
            let mut b = [0u8; 20];
            b[0] = i + 1;
            Address::from_bytes(b)
        })
        .collect();

    // Set up active tracker at epoch 0
    setup_active_tracker(&contract, &mut state, 0);

    // Register 3 participants with stake
    for addr in &addrs {
        join_participant(&contract, &mut state, *addr, MIN_STAKE);
    }

    // Distribute epoch 24 (day 1, hour 0: first non-zero budget)
    // First advance tracker through epochs 0-23 (day 0, all zero budget)
    let mut tracker = contract.load_bounty_tracker(&state);
    for e in 0..24 {
        tracker.record_distribution(e, HclawAmount::zero());
    }
    contract.save_bounty_tracker(&mut state, &tracker).unwrap();

    let result = contract.execute_distribute_hourly(&mut state, 24, addrs.clone());
    assert!(result.is_ok(), "distribute failed: {:?}", result.err());

    // All 3 should have equal bounties_earned
    let p0 = contract.load_participant(&state, &addrs[0]).unwrap();
    let p1 = contract.load_participant(&state, &addrs[1]).unwrap();
    let p2 = contract.load_participant(&state, &addrs[2]).unwrap();
    assert_eq!(p0.bounties_earned, p1.bounties_earned);
    assert_eq!(p1.bounties_earned, p2.bounties_earned);
    assert!(p0.bounties_earned.raw() > 0, "Should have received bounty");
}

#[test]
fn two_verifiers_share_an_hour() {
    let contract = GenesisBountyContract::new(0);
    let mut state = funded_state(&contract, &[], Vec::new());
    setup_active_tracker(&contract, &mut state, 0);

    let v1 = Address::from_bytes([1; 20]);
    let v2 = Address::from_bytes([2; 20]);
    join_participant(&contract, &mut state, v1, 50);
    join_participant(&contract, &mut state, v2, 50);

    // epoch 24 is the first hour of day 1; walk the tracker up to it
    let mut tracker = contract.load_bounty_tracker(&state);
    tracker.record_distribution(23, HclawAmount::zero());
    contract.save_bounty_tracker(&mut state, &tracker).unwrap();

    let result = contract.execute_distribute_hourly(&mut state, 24, vec![v1, v2]);
    assert!(result.is_ok(), "distribute failed: {:?}", result.err());

    let per_verifier = calculate_hourly_budget(1).raw() / 2;
    assert!(per_verifier > 0);
    assert_eq!(state.balance(&v1).raw(), per_verifier);
    assert_eq!(state.balance(&v2).raw(), per_verifier);
    assert_eq!(contract.load_participant(&state, &v1).unwrap().bounties_earned.raw(), per_verifier);

    let tracker = contract.load_bounty_tracker(&state);
    assert_eq!(tracker.last_distributed_epoch, 24);
    assert_eq!(tracker.total_paid.raw(), per_verifier * 2);
    assert_eq!(tracker.total_burned.raw(), calculate_hourly_budget(1).raw() - per_verifier * 2);
}

#[test]
fn test_distribute_hourly_rejects_wrong_epoch() {
    let contract = GenesisBountyContract::new(1000);
    let mut state = funded_state(&contract, &[], Vec::new());
    setup_active_tracker(&contract, &mut state, 0);
    let v1 = Address::from_bytes([1; 20]);
    join_participant(&contract, &mut state, v1, MIN_STAKE);

    // epoch 5 when 0 is due
    let result = contract.execute_distribute_hourly(&mut state, 5, vec![v1]);
    assert!(result.is_err());
    assert!(format!("{:?}", result.err().unwrap()).contains("not the next expected epoch"),);
}

#[test]
fn test_distribute_hourly_burns_if_no_eligible() {
    let contract = GenesisBountyContract::new(1000);
    let mut state = funded_state(&contract, &[], Vec::new());
    setup_active_tracker(&contract, &mut state, 0);

    // Distribute epoch 0 with empty verifier list: should burn
    let result = contract.execute_distribute_hourly(&mut state, 0, vec![]);
    assert!(result.is_ok());

    // Tracker should advance to epoch 0
    let tracker = contract.load_bounty_tracker(&state);
    assert_eq!(tracker.last_distributed_epoch, 0);
    assert_eq!(tracker.total_paid.raw(), 0);
}

#[test]
fn an_hour_without_verifiers_burns_its_budget() {
    let contract = GenesisBountyContract::new(0);
    let mut state = funded_state(&contract, &[], Vec::new());
    setup_active_tracker(&contract, &mut state, 0);
    let mut tracker = contract.load_bounty_tracker(&state);
    tracker.record_distribution(23, HclawAmount::zero());
    contract.save_bounty_tracker(&mut state, &tracker).unwrap();

    let result = contract.execute_distribute_hourly(&mut state, 24, vec![]);
    assert!(result.is_ok());

    let tracker = contract.load_bounty_tracker(&state);
    assert_eq!(tracker.last_distributed_epoch, 24);
    assert_eq!(tracker.total_paid.raw(), 0);
    assert_eq!(tracker.total_burned, calculate_hourly_budget(1));
}

#[test]
fn test_distribute_hourly_rejects_non_participant() {
    let contract = GenesisBountyContract::new(1000);
    let mut state = funded_state(&contract, &[], Vec::new());
    setup_active_tracker(&contract, &mut state, 0);
    let mut tracker = contract.load_bounty_tracker(&state);
    for e in 0..24 {
        tracker.record_distribution(e, HclawAmount::zero());
    }
    contract.save_bounty_tracker(&mut state, &tracker).unwrap();

    let stranger = Address::from_bytes([99; 20]);
    let result = contract.execute_distribute_hourly(&mut state, 24, vec![stranger]);
    assert!(result.is_err());
    assert!(format!("{:?}", result.err().unwrap()).contains("not a participant"),);
}

#[test]
fn test_distribute_hourly_rejects_zero_stake() {
    let contract = GenesisBountyContract::new(1000);
    let mut state = funded_state(&contract, &[], Vec::new());
    setup_active_tracker(&contract, &mut state, 0);
    let mut tracker = contract.load_bounty_tracker(&state);
    for e in 0..24 {
        tracker.record_distribution(e, HclawAmount::zero());
    }
    contract.save_bounty_tracker(&mut state, &tracker).unwrap();

    let v1 = Address::from_bytes([1; 20]);
    join_participant(&contract, &mut state, v1, 0);
    let result = contract.execute_distribute_hourly(&mut state, 24, vec![v1]);
    assert!(result.is_err());
    assert!(format!("{:?}", result.err().unwrap()).contains("zero stake"),);
}

#[test]
fn test_distribute_hourly_not_active_rejects() {
    let contract = GenesisBountyContract::new(1000);
    let mut state = funded_state(&contract, &[], Vec::new());
    // tracker without enough public nodes
    let tracker = BountyTracker::new(0);
    contract.save_bounty_tracker(&mut state, &tracker).unwrap();

    let v1 = Address::from_bytes([1; 20]);
    join_participant(&contract, &mut state, v1, MIN_STAKE);
    let result = contract.execute_distribute_hourly(&mut state, 0, vec![v1]);
    assert!(result.is_err());
    assert!(format!("{:?}", result.err().unwrap()).contains("not active"),);
}

#[test]
fn records_round_trip_through_bytes() {
    let participant = Participant {
        address: Address::from_bytes([4; 20]),
        stake: HclawAmount::from_raw(1),
        airdrop: HclawAmount::from_raw(u128::MAX),
        bounties_earned: HclawAmount::from_raw(3),
        joined_at: 99,
    };
    let bytes = participant.encode();
    assert_eq!(bytes.len(), 76);
    let back = Participant::decode(&bytes).unwrap();
    assert_eq!(back.address, participant.address);
    assert_eq!(back.airdrop, participant.airdrop);
    assert_eq!(back.joined_at, 99);
    assert!(Participant::decode(&bytes[..75]).is_none());

    let mut tracker = BountyTracker::new(7);
    tracker.record_distribution(3, HclawAmount::from_raw(11));
    tracker.record_burn(HclawAmount::from_raw(5));
    tracker.update_node_count(6);
    let bytes = encode_tracker(&tracker);
    assert_eq!(bytes.len(), 52);
    assert_eq!(decode_tracker(&bytes), Some(tracker));
    assert_eq!(decode_tracker(&bytes[..51]), None);

    let config = config_with_founders(vec![Address::from_bytes([1; 20])]);
    let back = GenesisDeploymentConfig::decode(&config.encode()).unwrap();
    assert_eq!(back.pre_approved, config.pre_approved);
    assert_eq!(back.dns_break_glass.domain, "bootstrap.hardclaw.net");
    assert_eq!(back.dns_break_glass.authority_key, config.dns_break_glass.authority_key);
    assert_eq!(back.bootstrap_end, 9_999_999_999);
    assert_eq!(back.encode(), config.encode());
    assert!(GenesisDeploymentConfig::decode(&config.encode()[..40]).is_none());
}

#[test]
fn actions_round_trip_through_bytes() {
    let join = BountyAction::JoinGenesis { stake: HclawAmount::from_raw(50) };
    let bytes = join.encode();
    assert_eq!(&bytes[..4], &[0, 0, 0, 0]);
    assert_eq!(bytes.len(), 20);
    assert!(matches!(
        BountyAction::decode(&bytes),
        Some(BountyAction::JoinGenesis { stake }) if stake.raw() == 50
    ));

    let verifiers = vec![Address::from_bytes([1; 20]), Address::from_bytes([2; 20])];
    let distribute = BountyAction::DistributeHourly { epoch: 9, eligible_verifiers: verifiers.clone() };
    let mut bytes = distribute.encode();
    assert_eq!(bytes.len(), 4 + 8 + 8 + 40);
    bytes.extend_from_slice(b"trailing bytes are ignored");
    match BountyAction::decode(&bytes) {
        Some(BountyAction::DistributeHourly { epoch, eligible_verifiers }) => {
            assert_eq!(epoch, 9);
            assert_eq!(eligible_verifiers, verifiers);
        }
        _ => panic!("expected a distribution"),
    }
    assert!(BountyAction::decode(&distribute.encode()[..30]).is_none());

    let nodes = BountyAction::UpdateNodeCount { count: 7 };
    assert!(matches!(
        BountyAction::decode(&nodes.encode()),
        Some(BountyAction::UpdateNodeCount { count: 7 })
    ));
    assert!(BountyAction::decode(&[3, 0, 0, 0]).is_none());
    assert!(BountyAction::decode(&[]).is_none());
    assert!(matches!(
        GenesisBountyContract::parse_action(&[9, 9]),
        Err(ContractError::InvalidTransaction(_))
    ));
}

#[test]
fn execute_through_the_contract_interface() {
    let contract = GenesisBountyContract::new(0);
    let kp = Keypair::generate();
    let sender = Address::from_public_key(kp.public_key());
    let mut state = funded_state(&contract, &[sender], Vec::new());
    let tx = ContractTransaction::new_at(
        contract.id(),
        kp.public_key().clone(),
        BountyAction::JoinGenesis { stake: HclawAmount::from_hclaw(60) }.encode(),
        1_000,
        HclawAmount::from_raw(1),
        1,
        5_000,
    );
    let result = contract.execute(&mut state, &tx).unwrap();
    assert_eq!(result.gas_used, 100_000);
    assert_eq!(result.new_state_root, state.compute_state_root());
    assert_eq!(result.events.len(), 1);
    assert_eq!(result.events[0].topic, "ParticipantJoined");
    assert_eq!(state.balance(&sender), HclawAmount::from_hclaw(1000 - 60 + 100));
    assert_eq!(contract.load_participant(&state, &sender).unwrap().joined_at, 5_000);
    assert_eq!(contract.verify(&state, &tx, &result).unwrap(), true);

    let mut bad = tx.clone();
    bad.input = vec![1, 2, 3];
    assert!(matches!(contract.execute(&mut state, &bad), Err(ContractError::InvalidTransaction(_))));

    // deployment stores the configuration and starts the count at zero
    let mut fresh = ContractState::new(Ledger::new(), ContractStorage::new());
    assert!(matches!(
        contract.on_deploy(&mut fresh, b"short"),
        Err(ContractError::InvalidTransaction(_))
    ));
    let config = config_with_founders(Vec::new());
    contract.on_deploy(&mut fresh, &config.encode()).unwrap();
    assert_eq!(contract.load_participant_count(&fresh), 0);
    assert_eq!(contract.load_config(&fresh).unwrap().max_participants, 5_000);
    assert_eq!(fresh.events()[0].topic, "Initialized");
    assert_eq!(contract.name(), "GenesisBountyContract");
}

#[test]
fn deployment_starts_the_tracker_at_the_launch() {
    let contract = GenesisBountyContract::new(0);
    let thirty_days = 30 * 24 * 3600;

    let mut config = config_with_founders(Vec::new());
    config.bootstrap_end = 1_700_000_000 + thirty_days;
    let mut state = ContractState::new(Ledger::new(), ContractStorage::new());
    contract.on_deploy(&mut state, &config.encode()).unwrap();
    let tracker = contract.load_bounty_tracker(&state);
    assert_eq!(tracker.start_time, 1_700_000_000_000);
    assert_eq!(tracker.last_distributed_epoch, u64::MAX);
    assert_eq!(tracker.public_node_count, 0);
    assert!(tracker.total_paid.is_zero());
    assert!(tracker.total_burned.is_zero());
    assert_eq!(state.events()[0].data, (1_700_000_000u64 + thirty_days).to_le_bytes().to_vec());

    // the same configuration gives the same storage, whenever it is deployed
    let mut again = ContractState::new(Ledger::new(), ContractStorage::new());
    contract.on_deploy(&mut again, &config.encode()).unwrap();
    assert_eq!(contract.load_bounty_tracker(&again), tracker);

    // a bootstrap period that ends within its own length starts at zero
    config.bootstrap_end = 5;
    let mut early = ContractState::new(Ledger::new(), ContractStorage::new());
    contract.on_deploy(&mut early, &config.encode()).unwrap();
    assert_eq!(contract.load_bounty_tracker(&early).start_time, 0);

    // a start beyond the largest time stops there
    config.bootstrap_end = u64::MAX;
    let mut late = ContractState::new(Ledger::new(), ContractStorage::new());
    contract.on_deploy(&mut late, &config.encode()).unwrap();
    assert_eq!(contract.load_bounty_tracker(&late).start_time, u64::MAX);
}
