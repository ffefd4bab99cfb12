//! Cryptographic primitives.
//!
//! - ML-DSA-65 for digital signatures
//! - BLAKE3 for hashing

pub mod hash;
pub mod kem;
pub mod mnemonic;
pub mod order;
pub mod signature;

pub use self::hash::{hash_data, merkle_root};
pub use self::kem::{
    encapsulate, KemCiphertext, KemKeypair, KemPublicKey, KemSecretKey, SharedSecret,
    KEM_CIPHERTEXT_SIZE, KEM_PUBKEY_SIZE, KEM_SECRET_KEY_SIZE, KEM_SHARED_SECRET_SIZE,
};
pub use self::mnemonic::{
    generate_mnemonic, keypair_from_mnemonic, keypair_from_phrase, mnemonic_to_words,
    parse_mnemonic, Mnemonic, MNEMONIC_WORD_COUNT,
};
pub use self::signature::{
    sign, verify, Keypair, PublicKey, SecretKey, Signature, PUBKEY_SIZE, SECRET_KEY_SIZE,
    SEED_SIZE, SIGNATURE_SIZE,
};

use vstd::prelude::*;

verus! {

/// Cryptographic errors
#[derive(Debug)]
pub enum CryptoError {
    /// Invalid signature
    InvalidSignature,
    /// Invalid public key format
    InvalidPublicKey(String),
    /// Invalid hash format
    InvalidHash(String),
    /// Commitment verification failed
    CommitmentMismatch,
    /// Serialization error
    Serialization(String),
    /// Invalid mnemonic phrase
    InvalidMnemonic(String),
}

impl CryptoError {
    /// A human-readable description of the error.
    pub fn message(&self) -> (r: String)
        ensures
            self is InvalidSignature ==> r@ == "invalid signature"@,
            self matches CryptoError::InvalidPublicKey(m) ==> r@ == "invalid public key: "@ + m@,
            self matches CryptoError::InvalidHash(m) ==> r@ == "invalid hash: "@ + m@,
            self is CommitmentMismatch ==> r@ == "commitment verification failed"@,
            self matches CryptoError::Serialization(m) ==> r@ == "serialization error: "@ + m@,
            self matches CryptoError::InvalidMnemonic(m) ==> r@ == "invalid mnemonic: "@ + m@,
    {
        match self {
            CryptoError::InvalidSignature => String::from_str("invalid signature"),
            CryptoError::InvalidPublicKey(m) => String::from_str("invalid public key: ").concat(
                m.as_str(),
            ),
            CryptoError::InvalidHash(m) => String::from_str("invalid hash: ").concat(m.as_str()),
            CryptoError::CommitmentMismatch => String::from_str("commitment verification failed"),
            CryptoError::Serialization(m) => String::from_str("serialization error: ").concat(
                m.as_str(),
            ),
            CryptoError::InvalidMnemonic(m) => String::from_str("invalid mnemonic: ").concat(
                m.as_str(),
            ),
        }
    }
}

} // verus!
