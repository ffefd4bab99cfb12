use hardclaw::crypto::signature::Keypair;
use hardclaw::types::address::{Address, AddressError};

#[test]
fn test_address_from_pubkey() {
    let kp = Keypair::generate();
    let addr = Address::from_public_key(kp.public_key());

    // Same pubkey should give same address
    let addr2 = Address::from_public_key(kp.public_key());
    assert_eq!(addr, addr2);
}

#[test]
fn test_address_hex_roundtrip() {
    let kp = Keypair::generate();
    let addr = Address::from_public_key(kp.public_key());

    let hex = addr.to_hex();
    let parsed = Address::from_hex(&hex).unwrap();
    assert_eq!(addr, parsed);
}

#[test]
fn test_zero_address() {
    assert!(Address::zero().is_zero());

    let kp = Keypair::generate();
    let addr = Address::from_public_key(kp.public_key());
    assert!(!addr.is_zero());
}

#[test]
fn address_is_the_front_of_the_key_digest() {
    let kp = Keypair::from_seed(&[3u8; 32]);
    let addr = Address::from_public_key(kp.public_key());
    let digest = hardclaw::crypto::hash::hash_data(kp.public_key().as_bytes());
    assert_eq!(addr.as_bytes()[..], digest.as_bytes()[..20]);
}

#[test]
fn hex_forms_and_errors() {
    let addr = Address::from_bytes([0xAB; 20]);
    assert_eq!(addr.to_hex(), format!("0x{}", "ab".repeat(20)));
    assert_eq!(addr.to_hex_digits(), "ab".repeat(20));
    assert_eq!(Address::from_hex(&"ab".repeat(20)).unwrap(), addr);
    assert_eq!(Address::from_hex(&format!("0x{}", "AB".repeat(20))).unwrap(), addr);
    assert_eq!(Address::from_hex("0xabcd"), Err(AddressError::InvalidLength(2)));
    assert_eq!(Address::from_hex(""), Err(AddressError::InvalidLength(0)));
    assert_eq!(Address::from_hex("0xzz"), Err(AddressError::InvalidHex));
    assert_eq!(Address::from_hex("abc"), Err(AddressError::InvalidHex));
    let mut one = [0u8; 20];
    one[19] = 1;
    assert!(!Address::from_bytes(one).is_zero());
    assert_ne!(Address::from_bytes(one), Address::zero());
}
