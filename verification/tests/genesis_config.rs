use hardclaw::crypto::signature::Keypair;
use hardclaw::genesis::{
    BootstrapJob, GenesisConfig, GenesisError, AIRDROP_POOL_HCLAW, BOOTSTRAP_DURATION_MS,
    GENESIS_AIRDROP_AMOUNT, MAX_GENESIS_PARTICIPANTS, MINIMUM_STAKE_HCLAW,
};
use hardclaw::types::address::Address;
use hardclaw::types::amount::HclawAmount;


fn test_addresses(n: usize) -> Vec<Address> {
    (0..n)
        .map(|_| Address::from_public_key(Keypair::generate().public_key()))
        .collect()
}

#[test]
fn test_flat_airdrop_pool() {
    assert_eq!(
        AIRDROP_POOL_HCLAW,
        MAX_GENESIS_PARTICIPANTS as u64 * GENESIS_AIRDROP_AMOUNT
    );
    assert_eq!(AIRDROP_POOL_HCLAW, 500_000);
}

#[test]
fn test_genesis_config_hash_deterministic() {
    let addrs = test_addresses(2);
    let authority = Keypair::generate();
    let cfg1 = GenesisConfig::new(
        "test-1".into(),
        addrs.clone(),
        authority.public_key().clone(),
        1000,
    );
    let cfg2 = GenesisConfig::new("test-1".into(), addrs, authority.public_key().clone(), 1000);
    assert_eq!(cfg1.config_hash(), cfg2.config_hash());
}

#[test]
fn test_genesis_config_validation() {
    let addrs = test_addresses(5);
    let authority = Keypair::generate();
    let cfg = GenesisConfig::new("test".into(), addrs, authority.public_key().clone(), 1000);
    assert!(cfg.validate().is_ok());
}

#[test]
fn test_max_genesis_supply() {
    let addrs = test_addresses(5);
    let authority = Keypair::generate();
    let cfg = GenesisConfig::new("test".into(), addrs, authority.public_key().clone(), 1000);
    // 500,000 airdrop + 10 * 250,000 DNS = 3,000,000
    assert_eq!(cfg.max_genesis_supply().whole_hclaw(), 3_000_000);
}

#[test]
fn test_bootstrap_job_deterministic_id() {
    let job1 = BootstrapJob::new(HclawAmount::from_hclaw(100), BOOTSTRAP_DURATION_MS);
    let job2 = BootstrapJob::new(HclawAmount::from_hclaw(200), BOOTSTRAP_DURATION_MS);
    assert_eq!(job1.id, job2.id);
}

#[test]
fn test_flat_allocation() {
    assert_eq!(GENESIS_AIRDROP_AMOUNT, 100);
    assert_eq!(MAX_GENESIS_PARTICIPANTS, 5_000);
    assert_eq!(MINIMUM_STAKE_HCLAW, 50);
}

#[test]
fn config_hash_covers_its_fields() {
    let authority = Keypair::from_seed(&[1u8; 32]);
    let addrs = vec![Address::from_bytes([1; 20]), Address::from_bytes([2; 20])];
    let cfg = GenesisConfig::new("net".into(), addrs.clone(), authority.public_key().clone(), 1000);
    assert_eq!(cfg.bootstrap_end, 1000 + BOOTSTRAP_DURATION_MS);

    let mut data = b"net".to_vec();
    data.extend_from_slice(hardclaw::crypto::hash::hash_data(b"hardclaw-genesis-bootstrap-v1").as_bytes());
    data.extend_from_slice(&1000i64.to_le_bytes());
    data.extend_from_slice(&(1000 + BOOTSTRAP_DURATION_MS).to_le_bytes());
    data.extend_from_slice(&HclawAmount::from_hclaw(100).raw().to_le_bytes());
    data.extend_from_slice(&5_000u32.to_le_bytes());
    data.extend_from_slice(&[1; 20]);
    data.extend_from_slice(&[2; 20]);
    data.extend_from_slice(authority.public_key().as_bytes());
    assert_eq!(cfg.config_hash(), hardclaw::crypto::hash::hash_data(&data));

    let other = GenesisConfig::new("net2".into(), addrs, authority.public_key().clone(), 1000);
    assert_ne!(cfg.config_hash(), other.config_hash());
    assert_eq!(cfg.clone().config_hash(), cfg.config_hash());
}

#[test]
fn validation_names_each_fault() {
    let authority = Keypair::from_seed(&[1u8; 32]);
    let good = GenesisConfig::new("net".into(), vec![], authority.public_key().clone(), 0);
    assert!(good.validate().is_ok());

    let mut cfg = good.clone();
    cfg.chain_id = String::new();
    assert!(matches!(cfg.validate(), Err(GenesisError::InvalidConfig(_))));
    let mut cfg = good.clone();
    cfg.max_participants = 0;
    assert!(cfg.validate().is_err());
    let mut cfg = good.clone();
    cfg.airdrop_amount = HclawAmount::zero();
    assert!(cfg.validate().is_err());
    let mut cfg = good.clone();
    cfg.dns_break_glass.max_nodes = 11;
    assert!(cfg.validate().is_err());
    let mut cfg = good.clone();
    cfg.dns_break_glass.max_nodes = 10;
    assert!(cfg.validate().is_ok());

    let mut cfg = good.clone();
    cfg.airdrop_amount = HclawAmount::from_raw(u128::MAX);
    assert_eq!(cfg.max_genesis_supply().raw(), u128::MAX);
}
