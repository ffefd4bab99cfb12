use hardclaw::crypto::signature::Keypair;
use hardclaw::types::block::{Block, BlockError, VerifierAttestation};
use hardclaw::types::job::VerificationResult;

fn zero() -> hardclaw::crypto::hash::Hash {
    hardclaw::crypto::hash::Hash::zero()
}

#[test]
fn test_genesis_block() {
    let kp = Keypair::generate();
    let genesis = Block::genesis(kp.public_key().clone());

    assert_eq!(genesis.header.height, 0);
    assert_eq!(genesis.header.parent_hash, zero());
}

#[test]
fn test_block_hash_deterministic() {
    let kp = Keypair::generate();
    let block = Block::new(1, zero(), kp.public_key().clone(), Vec::new(), zero());

    let computed = block.header.compute_hash();
    assert_eq!(computed, block.hash);
}

#[test]
fn test_consensus_threshold() {
    let kp = Keypair::generate();
    let mut block = Block::new(1, zero(), kp.public_key().clone(), Vec::new(), zero());

    // With 10 verifiers, need 7 (66% rounded up)
    assert!(!block.has_consensus(10));

    // Add 7 attestations
    for _ in 0..7 {
        let verifier_kp = Keypair::generate();
        let mut attestation =
            VerifierAttestation::new(verifier_kp.public_key().clone(), block.hash, Vec::new());
        attestation.signature = verifier_kp.sign(&attestation.signing_bytes());
        block.add_attestation(attestation);
    }

    assert!(block.has_consensus(10));
}

#[test]
fn test_block_integrity() {
    let kp = Keypair::generate();
    let block = Block::new(1, zero(), kp.public_key().clone(), Vec::new(), zero());

    assert!(block.verify_integrity().is_ok());
}

#[test]
fn consensus_needs_two_thirds() {
    let kp = Keypair::from_seed(&[1u8; 32]);
    let mut block = Block::new_at(1, zero(), kp.public_key().clone(), Vec::new(), zero(), 5);
    assert!(!block.has_consensus(0));
    for _ in 0..6 {
        block.add_attestation(VerifierAttestation::new(
            kp.public_key().clone(),
            block.hash,
            Vec::new(),
        ));
    }
    assert!(!block.has_consensus(10));
    assert!(block.has_consensus(9));
    assert_eq!(block.consensus_percentage(10), 60);
    assert_eq!(block.consensus_percentage(0), 0);
    block.add_attestation(VerifierAttestation::new(
        kp.public_key().clone(),
        block.hash,
        Vec::new(),
    ));
    assert!(block.has_consensus(10));
    assert!(!block.has_consensus(11));
}

#[test]
fn integrity_failures_in_order() {
    let kp = Keypair::from_seed(&[2u8; 32]);
    let solution = hardclaw::crypto::hash::hash_data(b"solution");
    let results = vec![VerificationResult { solution_id: solution, job_id: zero(), passed: true }];
    let block = Block::new_at(3, zero(), kp.public_key().clone(), results, zero(), 77);
    assert_eq!(block.header.solutions_root, solution);
    assert_eq!(block.header.verification_count, 1);
    assert_eq!(block.verify_integrity(), Ok(()));

    let mut bad_hash = Block::new_at(3, zero(), kp.public_key().clone(), Vec::new(), zero(), 77);
    bad_hash.header.height = 4;
    assert_eq!(bad_hash.verify_integrity(), Err(BlockError::HashMismatch));

    let mut bad_root = Block::new_at(3, zero(), kp.public_key().clone(), Vec::new(), zero(), 77);
    bad_root.verifications.push(VerificationResult {
        solution_id: solution,
        job_id: zero(),
        passed: true,
    });
    assert_eq!(bad_root.verify_integrity(), Err(BlockError::SolutionsRootMismatch));

    let mut unsigned = Block::new_at(3, zero(), kp.public_key().clone(), Vec::new(), zero(), 77);
    unsigned.add_attestation(VerifierAttestation::new(
        kp.public_key().clone(),
        unsigned.hash,
        vec![solution],
    ));
    assert_eq!(unsigned.verify_integrity(), Err(BlockError::InvalidAttestation));

    let mut signed = Block::new_at(3, zero(), kp.public_key().clone(), Vec::new(), zero(), 77);
    let mut attestation =
        VerifierAttestation::new(kp.public_key().clone(), signed.hash, vec![solution]);
    attestation.signature = kp.sign(&attestation.signing_bytes());
    assert!(attestation.verify_signature().is_ok());
    signed.add_attestation(attestation);
    assert_eq!(signed.verify_integrity(), Ok(()));
}

#[test]
fn signing_bytes_are_hash_then_solutions() {
    let kp = Keypair::from_seed(&[2u8; 32]);
    let a = hardclaw::crypto::hash::hash_data(b"a");
    let b = hardclaw::crypto::hash::hash_data(b"b");
    let results = vec![
        VerificationResult { solution_id: a, job_id: zero(), passed: true },
        VerificationResult { solution_id: b, job_id: zero(), passed: false },
    ];
    let block = Block::new_at(1, zero(), kp.public_key().clone(), results, zero(), 9);
    let mut expected = block.hash.as_bytes().to_vec();
    expected.extend_from_slice(a.as_bytes());
    expected.extend_from_slice(b.as_bytes());
    assert_eq!(block.signing_bytes(), expected);
    assert_eq!(block.header.solutions_root, hardclaw::crypto::hash::hash_pair(&a, &b));

    let with_job = Block::genesis_with_job(kp.public_key().clone(), b"job".to_vec(), Vec::new(), b"alloc");
    assert_eq!(with_job.genesis_job, Some(b"job".to_vec()));
    let mut data = with_job.header.compute_hash().as_bytes().to_vec();
    data.extend_from_slice(hardclaw::crypto::hash::hash_data(b"job").as_bytes());
    data.extend_from_slice(hardclaw::crypto::hash::hash_data(b"alloc").as_bytes());
    assert_eq!(with_job.hash, hardclaw::crypto::hash::hash_data(&data));
}
