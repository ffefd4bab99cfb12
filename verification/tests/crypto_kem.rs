use hardclaw::crypto::kem::{
    encapsulate, KemCiphertext, KemKeypair, KemPublicKey, KemSecretKey, SharedSecret,
    KEM_CIPHERTEXT_SIZE, KEM_PUBKEY_SIZE, KEM_SECRET_KEY_SIZE, KEM_SHARED_SECRET_SIZE,
};
use pqcrypto_hqc::hqc192;
use pqcrypto_traits::kem::{Ciphertext, SecretKey, SharedSecret as OutsideSecret};

/// Decapsulation with the HQC implementation itself: the library leaves it
/// to its users.
fn decapsulate(ciphertext: &KemCiphertext, secret_key: &KemSecretKey) -> SharedSecret {
    let sk = hqc192::SecretKey::from_bytes(&secret_key.to_bytes()).unwrap();
    let ct = hqc192::Ciphertext::from_bytes(ciphertext.as_bytes()).unwrap();
    SharedSecret::from_bytes(hqc192::decapsulate(&ct, &sk).as_bytes()).unwrap()
}

#[test]
fn test_kem_sizes() {
    let keypair = KemKeypair::generate();
    assert_eq!(keypair.public_key().as_bytes().len(), KEM_PUBKEY_SIZE);
    assert_eq!(keypair.secret_key().to_bytes().len(), KEM_SECRET_KEY_SIZE);

    let (ss, ct) = encapsulate(keypair.public_key()).unwrap();
    assert_eq!(ct.as_bytes().len(), KEM_CIPHERTEXT_SIZE);
    assert_eq!(ss.as_bytes().len(), KEM_SHARED_SECRET_SIZE);
}

#[test]
fn test_encapsulate_decapsulate() {
    let keypair = KemKeypair::generate();

    let (shared_secret_sender, ciphertext) = encapsulate(keypair.public_key()).unwrap();
    let shared_secret_receiver = decapsulate(&ciphertext, keypair.secret_key());

    assert_eq!(
        shared_secret_sender.as_bytes(),
        shared_secret_receiver.as_bytes()
    );
}

#[test]
fn test_different_keypairs_produce_different_secrets() {
    let keypair1 = KemKeypair::generate();
    let keypair2 = KemKeypair::generate();

    let (ss1, _ct1) = encapsulate(keypair1.public_key()).unwrap();
    let (ss2, _ct2) = encapsulate(keypair2.public_key()).unwrap();

    // Different keypairs produce different shared secrets
    assert_ne!(ss1.as_bytes(), ss2.as_bytes());
}

#[test]
fn kem_test_pubkey_bytes_roundtrip() {
    let keypair = KemKeypair::generate();
    let bytes = keypair.public_key().as_bytes();
    let parsed = KemPublicKey::from_bytes(bytes).unwrap();
    assert_eq!(keypair.public_key(), &parsed);
}

#[test]
fn kem_lengths_are_checked() {
    assert!(KemPublicKey::from_bytes(&[0u8; 10]).is_err());
    assert!(KemSecretKey::from_bytes(&[0u8; 10]).is_err());
    assert!(KemCiphertext::from_bytes(&[0u8; 10]).is_err());
    assert!(KemPublicKey::from_bytes(&vec![0u8; KEM_PUBKEY_SIZE]).is_ok());
    assert!(KemCiphertext::from_bytes(&vec![0u8; KEM_CIPHERTEXT_SIZE]).is_ok());
}

#[test]
fn decapsulation_is_a_function_of_ciphertext_and_key() {
    let keypair = KemKeypair::generate();
    let (_, ciphertext) = encapsulate(keypair.public_key()).unwrap();
    let restored = KemSecretKey::from_bytes(&keypair.secret_key().to_bytes()).unwrap();
    let a = decapsulate(&ciphertext, keypair.secret_key());
    let b = decapsulate(&ciphertext.clone(), &restored);
    assert_eq!(a.as_bytes(), b.as_bytes());
    assert_eq!(keypair.public_key().to_hex().len(), 2 * KEM_PUBKEY_SIZE);
}

#[test]
fn shared_secrets_are_sized() {
    assert!(SharedSecret::from_bytes(&[7u8; KEM_SHARED_SECRET_SIZE]).is_ok());
    assert_eq!(
        SharedSecret::from_bytes(&[7u8; KEM_SHARED_SECRET_SIZE]).unwrap().as_bytes(),
        &[7u8; KEM_SHARED_SECRET_SIZE][..]
    );
    assert!(SharedSecret::from_bytes(&[7u8; 63]).is_err());
    assert!(SharedSecret::from_bytes(&[]).is_err());
}
