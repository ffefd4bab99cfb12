use hardclaw::crypto::signature::Keypair;
use hardclaw::genesis::bootstrap::{BootstrapPhase, BootstrapState};
use hardclaw::genesis::{DnsBootstrapClaim, GenesisConfig, GenesisError, DAY_MS};
use hardclaw::types::address::Address;
use hardclaw::types::amount::HclawAmount;
use hardclaw::types::job::SystemJobKind;


fn test_addr() -> Address {
    Address::from_public_key(Keypair::generate().public_key())
}

fn test_config() -> GenesisConfig {
    let addrs: Vec<Address> = (0..7).map(|_| test_addr()).collect();
    let authority = Keypair::generate();
    GenesisConfig::new("test".into(), addrs, authority.public_key().clone(), 0)
}

#[test]
fn test_bootstrap_lifecycle() {
    let config = test_config();
    let pre_approved = config.pre_approved.clone();
    let mut state = BootstrapState::new(config);

    assert!(state.is_active());

    // Pre-approved verifier joins — auto-activated
    let claim = state.process_verifier_join(pre_approved[0], 1000).unwrap();
    assert_eq!(claim.position, 1);
    assert!(state.get_vesting(&pre_approved[0]).is_some());
}

#[test]
fn test_day_end_processing() {
    let config = test_config();
    let pre_approved = config.pre_approved.clone();
    let mut state = BootstrapState::new(config);

    // Join and activate
    state.process_verifier_join(pre_approved[0], 0).unwrap();

    // Record enough attestations for day 0
    for _ in 0..100 {
        state.record_attestation(&pre_approved[0], 1000);
    }

    // Process day 0 end
    let jobs = state.process_day_end(0);
    // Pre-approved verifier joined and was active on day 0, so they get one day's vesting unlock
    assert_eq!(jobs.len(), 1, "Expected 1 vesting unlock job");
    
    match &jobs[0] {
        SystemJobKind::VestingUnlock { beneficiary, amount } => {
            assert_eq!(*beneficiary, pre_approved[0]);
            // Verifier gets daily vesting amount (depends on their tier)
            assert!(amount.raw() > 0, "Vesting unlock should be > 0");
        }
        _ => panic!("Expected VestingUnlock job"),
    }
}

#[test]
fn test_completion() {
    let config = test_config();
    let mut state = BootstrapState::new(config);

    // Not complete yet
    assert!(state.check_completion(0).is_none());

    // Complete after 30 days
    let job = state.check_completion(30 * DAY_MS);
    assert!(job.is_some());
    assert!(!state.is_active());
}

#[test]
fn test_dns_break_glass() {
    let config = test_config();
    let mut state = BootstrapState::new(config);

    let node_kp = Keypair::generate();
    let addr = Address::from_public_key(node_kp.public_key());

    let claim = DnsBootstrapClaim {
        address: addr,
        node_key: node_kp.public_key().clone(),
        hostname: "bootstrap-new.clawpaper.com".to_string(),
        amount: HclawAmount::from_hclaw(250_000),
        claimed_at: 1000,
        vests_at: 1000 + DAY_MS,
    };

    let job = state.process_dns_claim(claim).unwrap();
    assert!(matches!(job, SystemJobKind::DnsBootstrapClaim { .. }));
    assert_eq!(state.dns_slots_remaining(), 9);
}

#[test]
fn test_dns_wrong_domain_rejected() {
    let config = test_config();
    let mut state = BootstrapState::new(config);

    let node_kp = Keypair::generate();
    let claim = DnsBootstrapClaim {
        address: Address::from_public_key(node_kp.public_key()),
        node_key: node_kp.public_key().clone(),
        hostname: "evil.attacker.com".to_string(),
        amount: HclawAmount::from_hclaw(250_000),
        claimed_at: 1000,
        vests_at: 1000 + DAY_MS,
    };

    assert!(state.process_dns_claim(claim).is_err());
}

#[test]
fn test_dns_no_duplicate_address() {
    let config = test_config();
    let mut state = BootstrapState::new(config);

    let node_kp = Keypair::generate();
    let addr = Address::from_public_key(node_kp.public_key());

    let claim1 = DnsBootstrapClaim {
        address: addr,
        node_key: node_kp.public_key().clone(),
        hostname: "node1.clawpaper.com".to_string(),
        amount: HclawAmount::from_hclaw(250_000),
        claimed_at: 1000,
        vests_at: 1000 + DAY_MS,
    };
    state.process_dns_claim(claim1).unwrap();

    let claim2 = DnsBootstrapClaim {
        address: addr,
        node_key: node_kp.public_key().clone(),
        hostname: "node2.clawpaper.com".to_string(),
        amount: HclawAmount::from_hclaw(250_000),
        claimed_at: 2000,
        vests_at: 2000 + DAY_MS,
    };
    assert!(state.process_dns_claim(claim2).is_err());
}

#[test]
fn joining_without_pre_approval_waits_for_activation() {
    let mut state = BootstrapState::new(test_config());
    let newcomer = Address::from_bytes([42; 20]);
    let claim = state.process_verifier_join(newcomer, 3 * DAY_MS + 5).unwrap();
    assert!(!claim.activated);
    assert!(state.get_vesting(&newcomer).is_none());
    assert!(matches!(
        state.process_verifier_join(newcomer, 3 * DAY_MS + 6),
        Err(GenesisError::AlreadyClaimed)
    ));

    let (immediate, job) = state.activate_verifier(&newcomer, 3 * DAY_MS + 7).unwrap();
    assert_eq!(immediate, HclawAmount::from_hclaw(50));
    match job {
        SystemJobKind::AirdropClaim { recipient, position, amount } => {
            assert_eq!(recipient, newcomer);
            assert_eq!(position, 1);
            assert_eq!(amount, HclawAmount::from_hclaw(100));
        }
        _ => panic!("expected an airdrop claim"),
    }
    let schedule = state.get_vesting(&newcomer).unwrap();
    assert_eq!(schedule.join_day, 3);
    assert_eq!(schedule.daily_amount.raw(), HclawAmount::from_hclaw(50).raw() / 27);
    assert!(matches!(
        state.activate_verifier(&newcomer, 0),
        Err(GenesisError::AlreadyClaimed)
    ));
    assert!(matches!(
        state.activate_verifier(&Address::from_bytes([43; 20]), 0),
        Err(GenesisError::InvalidConfig(_))
    ));
    assert_eq!(state.current_min_stake(), HclawAmount::from_hclaw(50));
    // 27 missed days of the one schedule, and 4,999 unclaimed positions
    let missed = HclawAmount::from_hclaw(50).raw() / 27 * 27;
    assert_eq!(
        state.total_forfeited().raw(),
        missed + HclawAmount::from_hclaw(500_000 - 100).raw()
    );
}

#[test]
fn days_are_processed_once_and_in_order() {
    let config = test_config();
    let pre_approved = config.pre_approved.clone();
    let mut state = BootstrapState::new(config);
    state.process_verifier_join(pre_approved[0], 0).unwrap();
    state.process_verifier_join(pre_approved[1], 0).unwrap();
    for _ in 0..100 {
        state.record_attestation(&pre_approved[0], DAY_MS + 1);
    }
    assert!(state.process_day_end(0).is_empty());
    let jobs = state.process_day_end(1);
    assert_eq!(jobs.len(), 1);
    assert!(state.process_day_end(1).is_empty());
    assert!(state.process_day_end(0).is_empty());
    assert_eq!(state.last_processed_day, Some(1));
    assert!(state.get_vesting(&pre_approved[0]).unwrap().daily_active[1]);
    assert!(!state.get_vesting(&pre_approved[1]).unwrap().daily_active[1]);
}

#[test]
fn completion_closes_the_bootstrap() {
    let mut state = BootstrapState::new(test_config());
    let job = state.check_completion(30 * DAY_MS).unwrap();
    match job {
        SystemJobKind::BootstrapComplete { total_verifiers, total_distributed } => {
            assert_eq!(total_verifiers, 0);
            assert_eq!(total_distributed, HclawAmount::zero());
        }
        _ => panic!("expected completion"),
    }
    assert_eq!(state.phase, BootstrapPhase::Completed { completed_at: 30 * DAY_MS });
    assert!(state.check_completion(31 * DAY_MS).is_none());
    assert!(matches!(
        state.process_verifier_join(Address::from_bytes([1; 20]), 0),
        Err(GenesisError::BootstrapNotActive)
    ));
    let kp = Keypair::from_seed(&[1u8; 32]);
    let claim = DnsBootstrapClaim {
        address: Address::from_bytes([1; 20]),
        node_key: kp.public_key().clone(),
        hostname: "a.clawpaper.com".to_string(),
        amount: HclawAmount::from_hclaw(1),
        claimed_at: 0,
        vests_at: 0,
    };
    assert!(matches!(state.process_dns_claim(claim), Err(GenesisError::BootstrapNotActive)));
}

#[test]
fn dns_slots_run_out() {
    let mut state = BootstrapState::new(test_config());
    let kp = Keypair::from_seed(&[1u8; 32]);
    for i in 0..10u8 {
        let claim = DnsBootstrapClaim {
            address: Address::from_bytes([i; 20]),
            node_key: kp.public_key().clone(),
            hostname: format!("n{}.clawpaper.com", i),
            amount: HclawAmount::from_hclaw(250_000),
            claimed_at: 0,
            vests_at: DAY_MS,
        };
        state.process_dns_claim(claim).unwrap();
    }
    assert_eq!(state.dns_slots_remaining(), 0);
    let claim = DnsBootstrapClaim {
        address: Address::from_bytes([99; 20]),
        node_key: kp.public_key().clone(),
        hostname: "late.clawpaper.com".to_string(),
        amount: HclawAmount::from_hclaw(250_000),
        claimed_at: 0,
        vests_at: DAY_MS,
    };
    assert!(matches!(
        state.process_dns_claim(claim),
        Err(GenesisError::DnsBreakGlassExhausted)
    ));
}

#[test]
fn attestations_are_counted_in_their_day() {
    let mut state = BootstrapState::new(test_config());
    let verifier = test_addr();
    let other = test_addr();

    state.record_attestation(&verifier, 10);
    state.record_attestation(&verifier, 20);
    state.record_attestation(&other, 30);
    state.record_attestation(&verifier, 2 * DAY_MS + 5);
    assert_eq!(state.liveness.attestation_count(&verifier, 0), 2);
    assert_eq!(state.liveness.attestation_count(&other, 0), 1);
    assert_eq!(state.liveness.attestation_count(&verifier, 1), 0);
    assert_eq!(state.liveness.attestation_count(&verifier, 2), 1);
    assert_eq!(state.liveness.current_day(), 2);

    // an earlier day is counted, and the latest day stays
    state.record_attestation(&other, DAY_MS);
    assert_eq!(state.liveness.attestation_count(&other, 1), 1);
    assert_eq!(state.liveness.current_day(), 2);

    // a timestamp outside the bootstrap period changes nothing
    state.record_attestation(&verifier, -1);
    state.record_attestation(&verifier, 30 * DAY_MS);
    assert_eq!(state.liveness.attestation_count(&verifier, 0), 2);
    assert_eq!(state.liveness.attestation_count(&verifier, 29), 0);
    assert_eq!(state.liveness.current_day(), 2);
    assert!(state.is_active());
}
