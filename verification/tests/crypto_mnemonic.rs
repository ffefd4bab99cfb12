use hardclaw::crypto::mnemonic::{
    derive_ed25519_from_mnemonic, generate_mnemonic, keypair_from_mnemonic, keypair_from_phrase,
    mnemonic_to_words, parse_mnemonic, MNEMONIC_WORD_COUNT,
};
use hardclaw::crypto::signature::{verify, Keypair};
use hardclaw::crypto::CryptoError;

#[test]
fn test_generate_mnemonic() {
    let mnemonic = generate_mnemonic();
    let words = mnemonic_to_words(&mnemonic);
    assert_eq!(words.len(), 24);
    assert_eq!(MNEMONIC_WORD_COUNT, 24);
}

#[test]
fn test_mnemonic_roundtrip() {
    let mnemonic = generate_mnemonic();
    let phrase = mnemonic.phrase().to_string();
    let parsed = parse_mnemonic(&phrase).unwrap();
    assert_eq!(mnemonic.phrase(), parsed.phrase());
}

#[test]
fn test_ed25519_derivation_deterministic() {
    let mnemonic = generate_mnemonic();
    let (secret1, pubkey1) = derive_ed25519_from_mnemonic(&mnemonic, "");
    let (secret2, pubkey2) = derive_ed25519_from_mnemonic(&mnemonic, "");
    assert_eq!(secret1, secret2);
    assert_eq!(pubkey1, pubkey2);
}

#[test]
fn test_ed25519_passphrase_changes_key() {
    let mnemonic = generate_mnemonic();
    let (_, pubkey1) = derive_ed25519_from_mnemonic(&mnemonic, "");
    let (_, pubkey2) = derive_ed25519_from_mnemonic(&mnemonic, "secret");
    assert_ne!(pubkey1, pubkey2);
}

#[test]
fn test_mnemonic_to_ml_dsa_deterministic() {
    let mnemonic = generate_mnemonic();
    let kp1 = keypair_from_mnemonic(&mnemonic, "");
    let kp2 = keypair_from_mnemonic(&mnemonic, "");

    // Same mnemonic must produce identical keypairs
    assert_eq!(kp1.public_key(), kp2.public_key());
    assert_eq!(kp1.secret_key().to_bytes(), kp2.secret_key().to_bytes());
}

#[test]
fn test_mnemonic_passphrase_changes_ml_dsa_key() {
    let mnemonic = generate_mnemonic();
    let kp1 = keypair_from_mnemonic(&mnemonic, "");
    let kp2 = keypair_from_mnemonic(&mnemonic, "secret");
    assert_ne!(kp1.public_key(), kp2.public_key());
}

#[test]
fn test_mnemonic_derived_sign_verify() {
    let mnemonic = generate_mnemonic();
    let kp = keypair_from_mnemonic(&mnemonic, "");
    let msg = b"mnemonic recovery test";
    let sig = kp.sign(msg);
    assert!(verify(kp.public_key(), msg, &sig).is_ok());
}

#[test]
fn test_phrase_roundtrip_produces_same_wallet() {
    let mnemonic = generate_mnemonic();
    let phrase = mnemonic.phrase().to_string();
    let kp1 = keypair_from_mnemonic(&mnemonic, "");
    let kp2 = keypair_from_phrase(&phrase, "").unwrap();
    assert_eq!(kp1.public_key(), kp2.public_key());
}

#[test]
fn test_invalid_mnemonic() {
    let result = parse_mnemonic("invalid mnemonic phrase");
    assert!(result.is_err());
}

#[test]
fn known_phrase_gives_known_words_and_key() {
    // the BIP39 test vector for all-zero entropy of 256 bits
    let phrase = "abandon abandon abandon abandon abandon abandon abandon abandon abandon abandon abandon abandon abandon abandon abandon abandon abandon abandon abandon abandon abandon abandon abandon art";
    let mnemonic = parse_mnemonic(phrase).unwrap();
    let words = mnemonic_to_words(&mnemonic);
    assert_eq!(words.len(), 24);
    assert_eq!(words[0], "abandon");
    assert_eq!(words[23], "art");

    // the key is the key of the digest of the domain tag and the seed
    let kp = keypair_from_phrase(phrase, "TREZOR").unwrap();
    let seed_hex = "bda85446c68413707090a52022edd26a1c9462295029f2e60cd7c4f2bbd3097170af7a4d73245cafa9c3cca8d561a7c3de6f5d4a10be8ed2a5e608d68f92fcc8";
    let mut data = b"hardclaw-ml-dsa-keygen-v1".to_vec();
    let seed: Vec<u8> = (0..seed_hex.len() / 2)
        .map(|i| u8::from_str_radix(&seed_hex[2 * i..2 * i + 2], 16).unwrap())
        .collect();
    data.extend_from_slice(&seed);
    let ml_dsa_seed = hardclaw::crypto::hash::hash_data(&data);
    let expected = Keypair::from_seed(ml_dsa_seed.as_bytes());
    assert_eq!(kp.public_key(), expected.public_key());
    assert_eq!(kp.secret_key().to_bytes(), ml_dsa_seed.as_bytes().to_vec());

    assert!(matches!(
        keypair_from_phrase("abandon abandon", ""),
        Err(CryptoError::InvalidMnemonic(_))
    ));
}

#[test]
fn ed25519_identity_is_the_key_of_the_seed_digest() {
    let phrase = "abandon abandon abandon abandon abandon abandon abandon abandon abandon abandon abandon abandon abandon abandon abandon abandon abandon abandon abandon abandon abandon abandon abandon art";
    let mnemonic = parse_mnemonic(phrase).unwrap();
    let (secret, public) = derive_ed25519_from_mnemonic(&mnemonic, "TREZOR");

    let seed_hex = "bda85446c68413707090a52022edd26a1c9462295029f2e60cd7c4f2bbd3097170af7a4d73245cafa9c3cca8d561a7c3de6f5d4a10be8ed2a5e608d68f92fcc8";
    let seed: Vec<u8> = (0..seed_hex.len() / 2)
        .map(|i| u8::from_str_radix(&seed_hex[2 * i..2 * i + 2], 16).unwrap())
        .collect();
    let digest: [u8; 32] = <sha2::Sha256 as sha2::Digest>::digest(&seed).into();
    assert_eq!(secret, digest);
    assert_ne!(&secret[..], &seed[..32]);
    let expected = ed25519_dalek::SigningKey::from_bytes(&digest).verifying_key().to_bytes();
    assert_eq!(public, expected);
    assert_ne!(public, secret);
}
