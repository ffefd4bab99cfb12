use hardclaw::contracts::transaction::ContractTransaction;
use hardclaw::crypto::signature::Keypair;
use hardclaw::types::amount::HclawAmount;

#[test]
fn test_transaction_creation() {
    let kp = Keypair::generate();
    let contract_id = hardclaw::crypto::hash::Hash::zero();

    let tx = ContractTransaction::new(
        contract_id,
        kp.public_key().clone(),
        b"test input".to_vec(),
        1_000_000,
        HclawAmount::from_raw(1),
        1,
    );

    assert_eq!(tx.contract_id, contract_id);
    assert_eq!(tx.nonce, 1);
    assert_eq!(tx.gas_limit, 1_000_000);
}

#[test]
fn test_transaction_id_deterministic() {
    let kp = Keypair::generate();
    let contract_id = hardclaw::crypto::hash::Hash::zero();

    let tx1 = ContractTransaction::new(
        contract_id,
        kp.public_key().clone(),
        b"same input".to_vec(),
        1_000_000,
        HclawAmount::from_raw(1),
        1,
    );

    let computed_id = tx1.compute_id();
    assert_eq!(tx1.id, computed_id);
}

#[test]
fn test_max_fee() {
    let kp = Keypair::generate();
    let tx = ContractTransaction::new(
        hardclaw::crypto::hash::Hash::zero(),
        kp.public_key().clone(),
        b"test".to_vec(),
        1_000,
        HclawAmount::from_raw(100),
        1,
    );

    assert_eq!(tx.max_fee().raw(), 100_000);
}

#[test]
fn max_fee_is_capped() {
    let kp = Keypair::generate();
    let tx = ContractTransaction::new_at(
        hardclaw::crypto::hash::Hash::zero(),
        kp.public_key().clone(),
        Vec::new(),
        3,
        HclawAmount::from_raw(u128::MAX / 2),
        1,
        0,
    );
    assert_eq!(tx.max_fee().raw(), u128::MAX);
}

#[test]
fn id_covers_every_field_but_the_signature() {
    let kp = Keypair::generate();
    let zero = hardclaw::crypto::hash::Hash::zero();
    let make = |input: &[u8], gas: u64, price: u128, nonce: u64, time: i64| {
        ContractTransaction::new_at(
            zero,
            kp.public_key().clone(),
            input.to_vec(),
            gas,
            HclawAmount::from_raw(price),
            nonce,
            time,
        )
    };
    let base = make(b"in", 10, 2, 1, 1000);
    assert_eq!(base.id, make(b"in", 10, 2, 1, 1000).id);
    assert_ne!(base.id, make(b"IN", 10, 2, 1, 1000).id);
    assert_ne!(base.id, make(b"in", 11, 2, 1, 1000).id);
    assert_ne!(base.id, make(b"in", 10, 3, 1, 1000).id);
    assert_ne!(base.id, make(b"in", 10, 2, 2, 1000).id);
    assert_ne!(base.id, make(b"in", 10, 2, 1, 1001).id);

    let mut signed = make(b"in", 10, 2, 1, 1000);
    signed.signature = kp.sign(&signed.signing_bytes());
    assert_eq!(signed.compute_id(), base.id);
    assert!(signed.verify_signature().is_ok());
    assert!(base.verify_signature().is_err());

    // the id is the digest of the fields in their order
    let mut bytes = Vec::new();
    bytes.extend_from_slice(zero.as_bytes());
    bytes.extend_from_slice(kp.public_key().as_bytes());
    bytes.extend_from_slice(b"in");
    bytes.extend_from_slice(&10u64.to_le_bytes());
    bytes.extend_from_slice(&2u128.to_le_bytes());
    bytes.extend_from_slice(&1u64.to_le_bytes());
    bytes.extend_from_slice(&1000i64.to_le_bytes());
    assert_eq!(base.id, hardclaw::crypto::hash::hash_data(&bytes));
}
