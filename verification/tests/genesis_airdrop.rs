use hardclaw::crypto::signature::Keypair;
use hardclaw::genesis::airdrop::{AirdropClaim, AirdropConfig, AirdropTracker};
use hardclaw::genesis::{GenesisError, MAX_GENESIS_PARTICIPANTS};
use hardclaw::types::address::Address;
use hardclaw::types::amount::HclawAmount;


fn test_address(seed: u8) -> Address {
    Address::from_public_key(Keypair::from_seed(&[seed; 32]).public_key())
}

#[test]
fn test_flat_config() {
    let config = AirdropConfig::new();
    assert_eq!(config.amount_per_participant.whole_hclaw(), 100);
    assert_eq!(config.max_participants, 5_000);
    assert_eq!(config.min_stake.whole_hclaw(), 50);
    assert_eq!(config.total_pool().whole_hclaw(), 500_000);
}

#[test]
fn test_reserve_and_activate() {
    let mut tracker = AirdropTracker::new(vec![]);
    let addr = test_address(1);

    let claim = tracker.reserve_position(addr, 1000).unwrap();
    assert_eq!(claim.position, 1);
    assert_eq!(claim.amount.whole_hclaw(), 100);
    assert!(!claim.activated);

    let amount = tracker.activate_claim(&addr).unwrap();
    assert_eq!(amount.whole_hclaw(), 100);
    assert_eq!(tracker.activated_count(), 1);
    assert_eq!(tracker.total_distributed().whole_hclaw(), 100);
}

#[test]
fn test_already_claimed() {
    let mut tracker = AirdropTracker::new(vec![]);
    let addr = test_address(1);

    tracker.reserve_position(addr, 1000).unwrap();
    let result = tracker.reserve_position(addr, 1001);
    assert!(matches!(result, Err(GenesisError::AlreadyClaimed)));
}

#[test]
fn test_exhaustion() {
    let mut tracker = AirdropTracker::new(vec![]);

    // Fill all slots with addresses that differ in their first four bytes
    // (deriving five thousand addresses from key pairs takes minutes)
    for i in 0..MAX_GENESIS_PARTICIPANTS {
        let mut bytes = [0u8; 20];
        bytes[..4].copy_from_slice(&i.to_le_bytes());
        tracker.reserve_position(Address::from_bytes(bytes), 1000).unwrap();
    }

    assert!(tracker.is_exhausted());

    // Next one should fail
    let result = tracker.reserve_position(test_address(255), 1000);
    assert!(matches!(result, Err(GenesisError::AirdropExhausted)));
}

#[test]
fn test_pre_approved() {
    let addr = test_address(1);
    let tracker = AirdropTracker::new(vec![addr]);

    assert!(tracker.is_pre_approved(&addr));
    assert!(!tracker.is_pre_approved(&test_address(2)));
}

#[test]
fn test_unclaimed_pool() {
    let mut tracker = AirdropTracker::new(vec![]);

    // Claim 100 positions
    for i in 0..100u8 {
        let addr = test_address(i);
        tracker.reserve_position(addr, 1000).unwrap();
        tracker.activate_claim(&addr).unwrap();
    }

    assert_eq!(tracker.total_distributed().whole_hclaw(), 10_000);
    assert_eq!(tracker.unclaimed_pool().whole_hclaw(), 490_000);
}

#[test]
fn positions_and_activation() {
    let mut tracker = AirdropTracker::new(vec![]);
    let a = Address::from_bytes([1; 20]);
    let b = Address::from_bytes([2; 20]);
    assert_eq!(tracker.next_position(), 1);
    let first = tracker.reserve_position(a, 10).unwrap();
    let second = tracker.reserve_position(b, 20).unwrap();
    assert_eq!(
        second,
        AirdropClaim {
            address: b,
            position: 2,
            amount: HclawAmount::from_hclaw(100),
            claimed_at: 20,
            activated: false,
        }
    );
    assert_eq!(first.position, 1);
    assert_eq!(tracker.next_position(), 3);
    assert_eq!(tracker.claimed_count(), 2);
    assert_eq!(tracker.activated_count(), 0);
    assert_eq!(tracker.unclaimed_pool(), HclawAmount::from_hclaw(500_000));

    assert!(matches!(
        tracker.activate_claim(&Address::from_bytes([3; 20])),
        Err(GenesisError::InvalidConfig(_))
    ));
    assert_eq!(tracker.activate_claim(&b).unwrap(), HclawAmount::from_hclaw(100));
    assert!(matches!(tracker.activate_claim(&b), Err(GenesisError::AlreadyClaimed)));
    assert!(tracker.get_claim(&b).unwrap().activated);
    assert!(!tracker.get_claim(&a).unwrap().activated);
    assert_eq!(tracker.activated_count(), 1);
    assert_eq!(tracker.total_distributed(), HclawAmount::from_hclaw(100));
    assert!(!tracker.is_exhausted());
    assert_eq!(tracker.current_min_stake(), HclawAmount::from_hclaw(50));
    assert_eq!(tracker.config().max_participants, 5_000);
    assert_eq!(AirdropConfig::default().current_min_stake(), HclawAmount::from_hclaw(50));
}
