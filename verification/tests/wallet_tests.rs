use hardclaw::crypto::signature::{verify, Keypair};
use hardclaw::types::address::Address;
use hardclaw::wallet::{Wallet, WalletError, WalletRecord};

#[test]
fn test_wallet_generation() {
    let wallet = Wallet::generate();
    assert!(!wallet.public_key().to_hex().is_empty());
}

#[test]
fn test_wallet_signing() {
    let wallet = Wallet::generate();
    let message = b"hello hardclaw";
    let signature = wallet.sign(message);

    assert!(verify(wallet.public_key(), message, &signature).is_ok());
}

#[test]
fn wallet_record_round_trip() {
    let mut wallet = Wallet::generate_with_name("test".to_string());
    wallet.path = None;
    let original_pubkey = wallet.public_key().to_hex();
    let record = wallet.to_record(1234);
    assert_eq!(record.version, 2);
    assert_eq!(record.algorithm, "ml-dsa-65");
    assert_eq!(record.created_at, 1234);
    assert_eq!(record.secret_key.len(), 64);

    let loaded = Wallet::from_record(record, "wallet.json".to_string()).unwrap();
    assert_eq!(loaded.public_key().to_hex(), original_pubkey);
    assert_eq!(loaded.name, Some("test".to_string()));
    assert_eq!(loaded.path, Some("wallet.json".to_string()));
    assert_eq!(loaded.address(), wallet.address());
    assert_eq!(loaded.address(), Address::from_public_key(wallet.keypair().public_key()));
}

#[test]
fn wallet_record_errors() {
    let wallet = Wallet::from_keypair(Keypair::from_seed(&[8u8; 32]));
    let good = wallet.to_record(0);

    let mut old = good.clone();
    old.version = 1;
    assert!(matches!(
        Wallet::from_record(old, String::new()),
        Err(WalletError::UnsupportedVersion(1))
    ));

    let mut bad_secret = good.clone();
    bad_secret.secret_key = "zz".to_string();
    assert!(matches!(
        Wallet::from_record(bad_secret, String::new()),
        Err(WalletError::InvalidKey(_))
    ));

    let mut short_secret = good.clone();
    short_secret.secret_key = "abcd".to_string();
    assert!(matches!(
        Wallet::from_record(short_secret, String::new()),
        Err(WalletError::InvalidKey(_))
    ));

    let bad_public = WalletRecord { public_key: "00".to_string(), ..good };
    assert!(matches!(
        Wallet::from_record(bad_public, String::new()),
        Err(WalletError::InvalidKey(_))
    ));
}
