use hardclaw::crypto::signature::Keypair;
use hardclaw::genesis::competency::{
    ChallengeStatus, CompetencyError, CompetencyManager, MAX_ATTEMPTS, RETRY_COOLDOWN_MS,
};
use hardclaw::types::address::Address;


fn test_addr() -> Address {
    Address::from_public_key(Keypair::generate().public_key())
}

#[test]
fn test_pre_approved_auto_verified() {
    let addr = test_addr();
    let manager = CompetencyManager::new(&[addr]);

    assert!(manager.is_verified(&addr));
    assert!(manager.is_pre_approved(&addr));
}

#[test]
fn test_challenge_flow_pass() {
    let pre = test_addr();
    let mut manager = CompetencyManager::new(&[pre]);

    let verifier = test_addr();
    assert!(!manager.is_verified(&verifier));

    // Generate challenge
    let challenge = manager.generate_challenge(verifier, 1000).unwrap();
    assert_eq!(challenge.status, ChallengeStatus::Pending);

    // Submit correct results
    let status = manager.submit_result(&verifier, true, true, 2000).unwrap();
    assert_eq!(status, ChallengeStatus::Passed);
    assert!(manager.is_verified(&verifier));
}

#[test]
fn test_challenge_flow_fail() {
    let mut manager = CompetencyManager::new(&[]);
    let verifier = test_addr();

    manager.generate_challenge(verifier, 1000).unwrap();

    // Failed: accepted invalid solution
    let status = manager.submit_result(&verifier, true, false, 2000).unwrap();
    assert!(matches!(status, ChallengeStatus::Failed { .. }));
    assert!(!manager.is_verified(&verifier));
}

#[test]
fn test_max_attempts() {
    let mut manager = CompetencyManager::new(&[]);
    let verifier = test_addr();

    for i in 0..MAX_ATTEMPTS {
        let time = (i as i64) * (RETRY_COOLDOWN_MS + 1000);
        manager.generate_challenge(verifier, time).unwrap();
        manager
            .submit_result(&verifier, false, false, time + 1000)
            .unwrap();
    }

    // Next attempt should fail
    let time = (MAX_ATTEMPTS as i64) * (RETRY_COOLDOWN_MS + 1000);
    let result = manager.generate_challenge(verifier, time);
    assert!(matches!(result, Err(CompetencyError::TooManyAttempts)));
}

#[test]
fn test_cooldown() {
    let mut manager = CompetencyManager::new(&[]);
    let verifier = test_addr();

    manager.generate_challenge(verifier, 1000).unwrap();
    manager
        .submit_result(&verifier, false, false, 2000)
        .unwrap();

    // Try again too soon
    let result = manager.generate_challenge(verifier, 3000);
    assert!(matches!(result, Err(CompetencyError::CooldownActive { .. })));

    // After cooldown
    let result = manager.generate_challenge(verifier, 1000 + RETRY_COOLDOWN_MS + 1);
    assert!(result.is_ok());
}

#[test]
fn test_already_verified_cant_rechallenge() {
    let mut manager = CompetencyManager::new(&[]);
    let verifier = test_addr();

    manager.generate_challenge(verifier, 1000).unwrap();
    manager.submit_result(&verifier, true, true, 2000).unwrap();

    let result = manager.generate_challenge(verifier, 3000);
    assert!(matches!(result, Err(CompetencyError::AlreadyVerified)));
}

#[test]
fn challenge_is_determined_by_verifier_and_time() {
    let mut manager = CompetencyManager::new(&[]);
    let verifier = Address::from_bytes([7; 20]);
    let challenge = manager.generate_challenge(verifier, 1000).unwrap();

    let mut data = verifier.as_bytes().to_vec();
    data.extend_from_slice(&1000i64.to_le_bytes());
    let seed = hardclaw::crypto::hash::hash_data(&data);
    assert_eq!(challenge.id, seed);
    let mut valid = seed.as_bytes().to_vec();
    valid.extend_from_slice(b"valid");
    assert_eq!(challenge.valid_solution_hash, hardclaw::crypto::hash::hash_data(&valid));
    let mut invalid = seed.as_bytes().to_vec();
    invalid.extend_from_slice(b"invalid");
    assert_eq!(challenge.invalid_solution_hash, hardclaw::crypto::hash::hash_data(&invalid));
    assert_eq!(challenge.issued_at, 1000);
    assert_eq!(challenge.expires_at, 1000 + 5 * 60 * 1000);
    assert_eq!(manager.get_challenge(&verifier).unwrap().id, seed);
    assert_eq!(manager.verified_count(), 0);
}

#[test]
fn expiry_and_missing_challenges() {
    let mut manager = CompetencyManager::new(&[]);
    let verifier = Address::from_bytes([7; 20]);
    assert_eq!(
        manager.submit_result(&verifier, true, true, 0),
        Err(CompetencyError::NoPendingChallenge)
    );
    manager.generate_challenge(verifier, 1000).unwrap();
    assert_eq!(
        manager.submit_result(&verifier, true, true, 1000 + 5 * 60 * 1000 + 1),
        Err(CompetencyError::ChallengeExpired)
    );
    assert_eq!(manager.get_challenge(&verifier).unwrap().status, ChallengeStatus::Expired);
    assert_eq!(
        manager.submit_result(&verifier, true, true, 1001),
        Err(CompetencyError::NoPendingChallenge)
    );
    assert_eq!(
        manager.generate_challenge(verifier, 2000).map(|c| c.id),
        Err(CompetencyError::CooldownActive { retry_after: 1000 + RETRY_COOLDOWN_MS })
    );
    // at the end of the cooldown a new challenge is issued, and its last moment counts
    let again = manager.generate_challenge(verifier, 1000 + RETRY_COOLDOWN_MS).unwrap();
    let status = manager.submit_result(&verifier, false, true, again.expires_at).unwrap();
    assert_eq!(
        status,
        ChallengeStatus::Failed { reason: "failed to accept the valid solution".to_string() }
    );
}
