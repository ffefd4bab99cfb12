use hardclaw::crypto::signature::{
    sign, verify, Keypair, PublicKey, SecretKey, Signature, PUBKEY_SIZE, SECRET_KEY_SIZE,
    SIGNATURE_SIZE,
};
use hardclaw::crypto::CryptoError;

#[test]
fn test_key_sizes() {
    let keypair = Keypair::generate();
    assert_eq!(keypair.public_key().as_bytes().len(), PUBKEY_SIZE);
    assert_eq!(keypair.secret_key().to_bytes().len(), SECRET_KEY_SIZE);

    let sig = keypair.sign(b"test");
    assert_eq!(sig.as_bytes().len(), SIGNATURE_SIZE);
}

#[test]
fn test_sign_verify() {
    let keypair = Keypair::generate();
    let message = b"test message";

    let sig = keypair.sign(message);
    assert!(verify(keypair.public_key(), message, &sig).is_ok());
}

#[test]
fn test_wrong_message_fails() {
    let keypair = Keypair::generate();
    let sig = keypair.sign(b"original");

    assert!(verify(keypair.public_key(), b"tampered", &sig).is_err());
}

#[test]
fn test_wrong_key_fails() {
    let keypair1 = Keypair::generate();
    let keypair2 = Keypair::generate();
    let message = b"test";

    let sig = keypair1.sign(message);
    assert!(verify(keypair2.public_key(), message, &sig).is_err());
}

#[test]
fn test_pubkey_hex_roundtrip() {
    let keypair = Keypair::generate();
    let hex_str = keypair.public_key().to_hex();
    let parsed = PublicKey::from_hex(&hex_str).unwrap();
    assert_eq!(keypair.public_key(), &parsed);
}

#[test]
fn signature_test_pubkey_bytes_roundtrip() {
    let keypair = Keypair::generate();
    let bytes = keypair.public_key().as_bytes();
    let parsed = PublicKey::from_bytes(bytes).unwrap();
    assert_eq!(keypair.public_key(), &parsed);
}

#[test]
fn test_secret_key_roundtrip() {
    let keypair = Keypair::generate();
    let sk_bytes = keypair.secret_key().to_bytes();
    let pk = keypair.public_key().clone();
    let restored = SecretKey::from_bytes(&sk_bytes).unwrap();
    let restored_kp = Keypair::from_parts(restored, pk);
    assert_eq!(keypair.public_key(), restored_kp.public_key());
    // Verify signing still works
    let sig = restored_kp.sign(b"roundtrip test");
    assert!(verify(restored_kp.public_key(), b"roundtrip test", &sig).is_ok());
}

#[test]
fn test_placeholder_signature() {
    let sig = Signature::placeholder();
    assert_eq!(sig.as_bytes().len(), SIGNATURE_SIZE);
}

#[test]
fn test_deterministic_keygen_from_seed() {
    let seed = [42u8; 32];
    let kp1 = Keypair::from_seed(&seed);
    let kp2 = Keypair::from_seed(&seed);

    // Same seed must produce identical keypairs
    assert_eq!(kp1.public_key(), kp2.public_key());
    assert_eq!(kp1.secret_key().to_bytes(), kp2.secret_key().to_bytes());

    // Different seed must produce different keypairs
    let kp3 = Keypair::from_seed(&[99u8; 32]);
    assert_ne!(kp1.public_key(), kp3.public_key());
}

#[test]
fn test_seed_derived_sign_verify() {
    let seed = [7u8; 32];
    let kp = Keypair::from_seed(&seed);
    let msg = b"deterministic signing test";
    let sig = kp.sign(msg);
    assert!(verify(kp.public_key(), msg, &sig).is_ok());
}

#[test]
fn placeholder_is_all_zero_and_no_signature() {
    let sig = Signature::placeholder();
    assert!(sig.as_bytes().iter().all(|b| *b == 0));
    let kp = Keypair::from_seed(&[1u8; 32]);
    assert!(matches!(
        verify(kp.public_key(), b"anything", &sig),
        Err(CryptoError::InvalidSignature)
    ));
}

#[test]
fn lengths_are_checked() {
    assert!(matches!(Signature::from_bytes(&[0u8; 10]), Err(CryptoError::InvalidSignature)));
    assert!(Signature::from_bytes(&vec![0u8; SIGNATURE_SIZE]).is_ok());
    assert!(matches!(PublicKey::from_bytes(&[0u8; 10]), Err(CryptoError::InvalidPublicKey(_))));
    assert!(matches!(SecretKey::from_bytes(&[0u8; 31]), Err(CryptoError::InvalidPublicKey(_))));
    assert!(matches!(PublicKey::from_hex("zz"), Err(CryptoError::InvalidPublicKey(_))));
    assert!(matches!(PublicKey::from_hex("abcd"), Err(CryptoError::InvalidPublicKey(_))));
    let short = PublicKey::from_bytes_unchecked(&[1, 2, 3]);
    assert_eq!(short.as_bytes(), &[1, 2, 3]);
    assert_eq!(short.to_hex(), "010203");
    let kp = Keypair::from_seed(&[1u8; 32]);
    let sig = kp.sign(b"m");
    assert!(matches!(verify(&short, b"m", &sig), Err(CryptoError::InvalidPublicKey(_))));
}

#[test]
fn signing_is_deterministic_and_the_free_function_agrees() {
    let kp = Keypair::from_seed(&[5u8; 32]);
    let a = kp.sign(b"message");
    let b = sign(kp.secret_key(), b"message");
    assert_eq!(a, b);
    assert_eq!(a.to_hex().len(), 2 * SIGNATURE_SIZE);
    assert_ne!(a, kp.sign(b"other"));
    assert_eq!(kp.secret_key().to_bytes(), vec![5u8; 32]);
}
