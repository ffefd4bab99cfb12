//! Wallets: a keypair with a name and, once saved, the place of its file.
//!
//! Reading and writing wallet files is left to the application; what a
//! wallet file must hold to yield a wallet is decided here.

use vstd::prelude::*;
use vstd::string::*;

use crate::crypto::hash::blake3_digest;
use crate::crypto::signature::{
    ml_dsa_signature, Keypair, PublicKey, SecretKey, Signature, PUBKEY_SIZE, SECRET_KEY_SIZE,
    SIGNATURE_SIZE,
};
use crate::encoding::{hex_bytes, hex_decode, hex_encode, hex_text, is_hex_text};
use crate::types::address::Address;

verus! {

/// Current wallet file format version (2 = ML-DSA-65)
pub const WALLET_VERSION: u8 = 2;

/// Algorithm identifier written to wallet files
pub const WALLET_ALGORITHM: &'static str = "ml-dsa-65";

/// Wallet errors
#[derive(Debug)]
pub enum WalletError {
    /// IO error
    IoError(String),
    /// Serialization error
    SerializationError(String),
    /// Invalid key
    InvalidKey(String),
    /// Unsupported wallet version
    UnsupportedVersion(u8),
    /// Wallet not found
    NotFound,
}

impl WalletError {
    /// A human-readable description of the error.
    pub fn message(&self) -> (r: String)
        ensures
            self matches WalletError::IoError(m) ==> r@ == "IO error: "@ + m@,
            self matches WalletError::SerializationError(m) ==> r@ == "serialization error: "@
                + m@,
            self matches WalletError::InvalidKey(m) ==> r@ == "invalid key: "@ + m@,
            self is NotFound ==> r@ == "wallet not found"@,
    {
        match self {
            WalletError::IoError(m) => String::from_str("IO error: ").concat(m.as_str()),
            WalletError::SerializationError(m) => String::from_str("serialization error: ").concat(
                m.as_str(),
            ),
            WalletError::InvalidKey(m) => String::from_str("invalid key: ").concat(m.as_str()),
            WalletError::UnsupportedVersion(v) => String::from_str(
                "unsupported wallet version: ",
            ).concat(v.to_string().as_str()),
            WalletError::NotFound => String::from_str("wallet not found"),
        }
    }
}

/// Information about a wallet (without sensitive data)
#[derive(Clone, Debug)]
pub struct WalletInfo {
    /// Wallet name
    pub name: String,
    /// Wallet address
    pub address: Address,
    /// Public key (hex)
    pub public_key: String,
    /// Path to wallet file
    pub path: String,
}

/// What a wallet file holds.
#[derive(Clone, Debug)]
pub struct WalletRecord {
    /// Version for compatibility (2 = ML-DSA-65)
    pub version: u8,
    /// Algorithm identifier
    pub algorithm: String,
    /// Public key (hex)
    pub public_key: String,
    /// Secret key (hex)
    pub secret_key: String,
    /// Optional wallet name/label
    pub name: Option<String>,
    /// Creation timestamp
    pub created_at: i64,
}

/// A wallet
pub struct Wallet {
    /// The underlying keypair
    keypair: Keypair,
    /// Wallet name/label
    pub name: Option<String>,
    /// Path to wallet file (if loaded from disk)
    pub path: Option<String>,
}

/// Whether a wallet file yields a wallet: its version is the current one,
/// its secret key is the hexadecimal text of a seed, and its public key is
/// the hexadecimal text of a public key.
pub open spec fn record_ok(record: WalletRecord) -> bool {
    &&& record.version == WALLET_VERSION
    &&& is_hex_text(record.secret_key@)
    &&& hex_bytes(record.secret_key@).len() == SECRET_KEY_SIZE
    &&& is_hex_text(record.public_key@)
    &&& hex_bytes(record.public_key@).len() == PUBKEY_SIZE
}

impl Wallet {
    /// The secret key bytes.
    pub closed spec fn secret_bytes(&self) -> Seq<u8> {
        self.keypair.secret_bytes()
    }

    /// The public key bytes.
    pub closed spec fn public_bytes(&self) -> Seq<u8> {
        self.keypair.public_bytes()
    }

    /// The wallet's name, if it has one.
    pub closed spec fn label(&self) -> Option<String> {
        self.name
    }

    /// The place of the wallet's file, if it has one.
    pub closed spec fn location(&self) -> Option<String> {
        self.path
    }

    /// Generate a new wallet
    pub fn generate() -> (r: Self)
        ensures
            r.label().is_none(),
            r.location().is_none(),
            r.public_bytes().len() == PUBKEY_SIZE,
    {
        let keypair = Keypair::generate();
        Wallet { keypair, name: None, path: None }
    }

    /// Generate with a name
    pub fn generate_with_name(name: String) -> (r: Self)
        ensures
            r.label() == Some(name),
            r.location().is_none(),
            r.public_bytes().len() == PUBKEY_SIZE,
    {
        let mut wallet = Self::generate();
        wallet.name = Some(name);
        wallet
    }

    /// Create from an existing keypair
    pub fn from_keypair(keypair: Keypair) -> (r: Self)
        ensures
            r.label().is_none(),
            r.location().is_none(),
            r.secret_bytes() == keypair.secret_bytes(),
            r.public_bytes() == keypair.public_bytes(),
    {
        Wallet { keypair, name: None, path: None }
    }

    /// Get the public key
    pub fn public_key(&self) -> (r: &PublicKey)
        ensures
            r@ == self.public_bytes(),
    {
        self.keypair.public_key()
    }

    /// Get the address: the first twenty bytes of the digest of the public
    /// key.
    pub fn address(&self) -> (r: Address)
        ensures
            r.0@ == blake3_digest(self.public_bytes())@.subrange(0, 20),
    {
        Address::from_public_key(self.keypair.public_key())
    }

    /// Get the underlying keypair
    pub fn keypair(&self) -> (r: &Keypair)
        ensures
            r.secret_bytes() == self.secret_bytes(),
            r.public_bytes() == self.public_bytes(),
    {
        &self.keypair
    }

    /// Sign a message
    pub fn sign(&self, message: &[u8]) -> (r: Signature)
        ensures
            r@ == ml_dsa_signature(self.secret_bytes(), message@),
            r@.len() == SIGNATURE_SIZE,
    {
        self.keypair.sign(message)
    }

    /// What is written to this wallet's file at a given time.
    pub fn to_record(&self, created_at: i64) -> (r: WalletRecord)
        ensures
            r.version == WALLET_VERSION,
            r.algorithm@ == WALLET_ALGORITHM@,
            r.public_key@ == hex_text(self.public_bytes()),
            r.secret_key@ == hex_text(self.secret_bytes()),
            r.name == self.label(),
            r.created_at == created_at,
    {
        let secret = self.keypair.secret_key().to_bytes();
        WalletRecord {
            version: WALLET_VERSION,
            algorithm: String::from_str(WALLET_ALGORITHM),
            public_key: self.keypair.public_key().to_hex(),
            secret_key: hex_encode(secret.as_slice()),
            name: self.name.clone(),
            created_at,
        }
    }

    /// The wallet that a wallet file yields, where it yields one.
    ///
    /// Fails with `UnsupportedVersion` for any version but the current one,
    /// and with `InvalidKey` where a key is not hexadecimal text or has the
    /// wrong length.
    pub fn from_record(record: WalletRecord, path: String) -> (r: Result<Self, WalletError>)
        ensures
            r.is_ok() == record_ok(record),
            record.version != WALLET_VERSION ==> r is Err && r->Err_0 == WalletError::UnsupportedVersion(
                record.version,
            ),
            record.version == WALLET_VERSION && !record_ok(record) ==> r is Err
                && r->Err_0 is InvalidKey,
            r matches Ok(w) ==> w.secret_bytes() == hex_bytes(record.secret_key@)
                && w.public_bytes() == hex_bytes(record.public_key@) && w.label() == record.name
                && w.location() == Some(path),
    {
        if record.version != WALLET_VERSION {
            return Err(WalletError::UnsupportedVersion(record.version));
        }
        let secret_bytes = match hex_decode(record.secret_key.as_str()) {
            Some(b) => b,
            None => {
                return Err(WalletError::InvalidKey(String::from_str("invalid hex encoding")));
            },
        };
        let secret = match SecretKey::from_bytes(secret_bytes.as_slice()) {
            Ok(s) => s,
            Err(e) => {
                return Err(WalletError::InvalidKey(e.message()));
            },
        };
        let public = match PublicKey::from_hex(record.public_key.as_str()) {
            Ok(p) => p,
            Err(e) => {
                return Err(WalletError::InvalidKey(e.message()));
            },
        };
        let keypair = Keypair::from_parts(secret, public);
        Ok(Wallet { keypair, name: record.name, path: Some(path) })
    }
}

} // verus!
