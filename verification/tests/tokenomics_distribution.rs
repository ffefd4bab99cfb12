use hardclaw::crypto::signature::Keypair;
use hardclaw::tokenomics::distribution::FeeDistributor;
use hardclaw::types::address::Address;
use hardclaw::types::amount::HclawAmount;

fn test_address() -> Address {
    let kp = Keypair::generate();
    Address::from_public_key(kp.public_key())
}

#[test]
fn test_distribution_percentages() {
    let distributor = FeeDistributor::default_shares();
    let bounty = HclawAmount::from_hclaw(100);

    let dist = distributor.distribute(bounty, test_address(), test_address());

    assert_eq!(dist.solver_amount.whole_hclaw(), 95);
    assert_eq!(dist.verifier_amount.whole_hclaw(), 4);
    assert_eq!(dist.burn_amount.whole_hclaw(), 1);
}

#[test]
fn test_distribution_total_preserved() {
    let distributor = FeeDistributor::new(50, 30, 20);
    let bounty = HclawAmount::from_hclaw(1000);

    let dist = distributor.distribute(bounty, test_address(), test_address());

    // Total should equal original (minus any rounding dust)
    let total = dist.total();
    assert!(total.raw() <= bounty.raw());
    assert!(total.raw() >= bounty.raw() - 3); // Allow for rounding
}

#[test]
fn nothing_is_lost_to_rounding() {
    let distributor = FeeDistributor::default_shares();
    assert_eq!(distributor.shares(), (95, 4, 1));
    let a = Address::from_bytes([1; 20]);
    let b = Address::from_bytes([2; 20]);
    for raw in [0u128, 1, 99, 101, 12_345, u128::MAX] {
        let dist = distributor.distribute(HclawAmount::from_raw(raw), a, b);
        assert_eq!(dist.solver, a);
        assert_eq!(dist.verifier, b);
        assert_eq!(
            dist.solver_amount.raw() + dist.verifier_amount.raw() + dist.burn_amount.raw(),
            raw
        );
    }
    let dist = distributor.distribute(HclawAmount::from_raw(101), a, b);
    assert_eq!(dist.solver_amount.raw(), 95);
    assert_eq!(dist.verifier_amount.raw(), 4);
    assert_eq!(dist.burn_amount.raw(), 2);
    assert!(FeeDistributor::try_new(50, 50, 50).is_none());
    assert_eq!(FeeDistributor::try_new(50, 30, 20).unwrap().shares(), (50, 30, 20));
}

#[test]
fn amounts_behave() {
    assert_eq!(HclawAmount::from_hclaw(1).raw(), 1_000_000_000_000_000_000);
    assert_eq!(HclawAmount::from_raw(1_999_999_999_999_999_999).whole_hclaw(), 1);
    assert_eq!(HclawAmount::from_raw(u128::MAX).saturating_add(HclawAmount::from_raw(1)).raw(), u128::MAX);
    assert_eq!(HclawAmount::from_raw(1).saturating_sub(HclawAmount::from_raw(2)).raw(), 0);
    assert_eq!(HclawAmount::from_raw(5).checked_sub(HclawAmount::from_raw(6)), None);
    assert_eq!(HclawAmount::from_raw(5).checked_add(HclawAmount::from_raw(6)), Some(HclawAmount::from_raw(11)));
    assert_eq!(HclawAmount::from_raw(u128::MAX).checked_add(HclawAmount::from_raw(1)), None);
    assert_eq!(HclawAmount::from_raw(250).percentage(30).raw(), 75);
    assert_eq!(HclawAmount::from_raw(u128::MAX).percentage(100).raw(), u128::MAX);
    assert_eq!(HclawAmount::from_raw(u128::MAX).percentage(200).raw(), u128::MAX);
    assert_eq!(HclawAmount::from_raw(199).percentage(1).raw(), 1);
    assert_eq!(HclawAmount::from_raw(3).saturating_mul(4).raw(), 12);
    assert_eq!(HclawAmount::from_raw(u128::MAX).saturating_mul(2).raw(), u128::MAX);
    assert!(HclawAmount::zero().is_zero());
    assert_eq!(HclawAmount::from_raw(3).min(HclawAmount::from_raw(4)).raw(), 3);
    assert_eq!(HclawAmount::from_raw(3).max(HclawAmount::from_raw(4)).raw(), 4);
    assert!(HclawAmount::from_raw(3) < HclawAmount::from_raw(4));
}
