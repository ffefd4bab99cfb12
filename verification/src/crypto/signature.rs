//! Digital signatures using ML-DSA-65 (FIPS 204).
//!
//! Keys are generated deterministically from a 32-byte seed, and the secret
//! key is kept in that seed form.

use vstd::prelude::*;
use vstd::string::*;

use super::CryptoError;
use crate::encoding::{
    copy_bytes, hex_bytes, hex_decode, hex_encode, hex_text, is_hex_text,
};

verus! {

/// ML-DSA-65 public key size in bytes (FIPS 204)
pub const PUBKEY_SIZE: usize = 1952;

/// ML-DSA-65 signature size in bytes (FIPS 204)
pub const SIGNATURE_SIZE: usize = 3309;

/// ML-DSA-65 seed size in bytes (for deterministic keygen)
pub const SEED_SIZE: usize = 32;

/// ML-DSA-65 secret key size in bytes (32-byte seed format)
pub const SECRET_KEY_SIZE: usize = 32;

/// The encoded ML-DSA-65 verifying key that key generation derives from a
/// seed.
pub uninterp spec fn ml_dsa_public_key(seed: Seq<u8>) -> Seq<u8>;

/// The encoded ML-DSA-65 signature that deterministic signing with an empty
/// context produces for a seed and a message.
pub uninterp spec fn ml_dsa_signature(seed: Seq<u8>, message: Seq<u8>) -> Seq<u8>;

/// Whether ML-DSA-65 verification with an empty context accepts an encoded
/// signature for a message under an encoded verifying key.
pub uninterp spec fn ml_dsa_accepts(public_key: Seq<u8>, message: Seq<u8>, signature: Seq<u8>) -> bool;

/// Calls `ml_dsa::SigningKey::<MlDsa65>::from_seed` and encodes the verifying
/// key of the result. Key generation is a function of the seed alone; the
/// contract names the encoded key and states its fixed length.
#[verifier::external_body]
fn ml_dsa_keygen(seed: &[u8; 32]) -> (public_key: Vec<u8>)
    ensures
        public_key@ == ml_dsa_public_key(seed@),
        public_key@.len() == PUBKEY_SIZE,
{
    let sk = ml_dsa::SigningKey::<ml_dsa::MlDsa65>::from_seed(&ml_dsa::B32::from(*seed));
    let encoded = ml_dsa::Keypair::verifying_key(&sk).encode();
    encoded.as_slice().to_vec()
}

/// Calls the `Signer::sign` of `ml_dsa::SigningKey`, the deterministic
/// variant of ML-DSA signing with an empty context, on the key that the seed
/// generates. The contract names the encoded signature and states its fixed
/// length.
#[verifier::external_body]
fn ml_dsa_sign(seed: &[u8; 32], message: &[u8]) -> (signature: Vec<u8>)
    ensures
        signature@ == ml_dsa_signature(seed@, message@),
        signature@.len() == SIGNATURE_SIZE,
{
    let sk = ml_dsa::SigningKey::<ml_dsa::MlDsa65>::from_seed(&ml_dsa::B32::from(*seed));
    let signature: ml_dsa::Signature<ml_dsa::MlDsa65> = ml_dsa::Signer::sign(&sk, message);
    signature.encode().as_slice().to_vec()
}

/// Decodes the key and the signature with `ml_dsa` and calls the `verify` of
/// its `VerifyingKey`. The outcome is a function of the three byte strings;
/// the contract names it, and states that nothing is accepted unless key and
/// signature have their fixed lengths, where decoding would fail.
#[verifier::external_body]
fn ml_dsa_verify(public_key: &[u8], message: &[u8], signature: &[u8]) -> (accepted: bool)
    ensures
        accepted == ml_dsa_accepts(public_key@, message@, signature@),
        accepted ==> public_key@.len() == PUBKEY_SIZE && signature@.len() == SIGNATURE_SIZE,
{
    let Ok(vk) = ml_dsa::EncodedVerifyingKey::<ml_dsa::MlDsa65>::try_from(public_key) else {
        return false;
    };
    let Ok(sig) = ml_dsa::EncodedSignature::<ml_dsa::MlDsa65>::try_from(signature) else {
        return false;
    };
    let Some(sig) = ml_dsa::Signature::<ml_dsa::MlDsa65>::decode(&sig) else {
        return false;
    };
    ml_dsa::Verifier::verify(&ml_dsa::VerifyingKey::<ml_dsa::MlDsa65>::decode(&vk), message, &sig)
        .is_ok()
}

/// Fills a seed from `rand::thread_rng`. Nothing is promised of the bytes.
#[verifier::external_body]
fn random_seed() -> (seed: [u8; 32]) {
    let mut seed = [0u8; 32];
    rand::RngCore::fill_bytes(&mut rand::thread_rng(), &mut seed);
    seed
}

/// An ML-DSA-65 digital signature
#[derive(Debug, PartialEq, Eq)]
pub struct Signature(Vec<u8>);

impl View for Signature {
    type V = Seq<u8>;

    closed spec fn view(&self) -> Seq<u8> {
        self.0@
    }
}

impl Clone for Signature {
    fn clone(&self) -> (r: Self)
        ensures
            r@ == self@,
    {
        Signature(copy_bytes(self.0.as_slice()))
    }
}

impl Signature {
    /// Create from raw bytes; anything but `SIGNATURE_SIZE` bytes is refused.
    pub fn from_bytes(bytes: &[u8]) -> (r: Result<Self, CryptoError>)
        ensures
            bytes@.len() == SIGNATURE_SIZE ==> r.is_ok() && r.unwrap()@ == bytes@,
            bytes@.len() != SIGNATURE_SIZE ==> r is Err && r->Err_0 is InvalidSignature,
    {
        if bytes.len() != SIGNATURE_SIZE {
            return Err(CryptoError::InvalidSignature);
        }
        Ok(Signature(copy_bytes(bytes)))
    }

    /// Create a placeholder (all zeros) for unsigned structures.
    /// This is not a valid signature: it stands for "not yet signed".
    pub fn placeholder() -> (r: Self)
        ensures
            r@ == Seq::new(SIGNATURE_SIZE as nat, |i: int| 0u8),
    {
        let mut bytes: Vec<u8> = Vec::new();
        let mut i: usize = 0;
        while i < SIGNATURE_SIZE
            invariant
                0 <= i <= SIGNATURE_SIZE,
                bytes@ == Seq::new(i as nat, |j: int| 0u8),
            decreases SIGNATURE_SIZE - i,
        {
            bytes.push(0u8);
            i += 1;
            assert(bytes@ =~= Seq::new(i as nat, |j: int| 0u8));
        }
        Signature(bytes)
    }

    /// Get underlying bytes
    pub fn as_bytes(&self) -> (r: &[u8])
        ensures
            r@ == self@,
    {
        self.0.as_slice()
    }

    /// Convert to hex string
    pub fn to_hex(&self) -> (r: String)
        ensures
            r@ == hex_text(self@),
    {
        hex_encode(self.0.as_slice())
    }
}

/// An ML-DSA-65 public key (1952 bytes)
#[derive(Debug, PartialEq, Eq, Hash)]
pub struct PublicKey(Vec<u8>);

impl View for PublicKey {
    type V = Seq<u8>;

    closed spec fn view(&self) -> Seq<u8> {
        self.0@
    }
}

impl Clone for PublicKey {
    fn clone(&self) -> (r: Self)
        ensures
            r@ == self@,
    {
        PublicKey(copy_bytes(self.0.as_slice()))
    }
}

impl PublicKey {
    /// Create from raw bytes; anything but `PUBKEY_SIZE` bytes is refused.
    pub fn from_bytes(bytes: &[u8]) -> (r: Result<Self, CryptoError>)
        ensures
            bytes@.len() == PUBKEY_SIZE ==> r.is_ok() && r.unwrap()@ == bytes@,
            bytes@.len() != PUBKEY_SIZE ==> r is Err && r->Err_0 is InvalidPublicKey,
    {
        if bytes.len() != PUBKEY_SIZE {
            return Err(CryptoError::InvalidPublicKey(String::from_str("wrong length")));
        }
        Ok(PublicKey(copy_bytes(bytes)))
    }

    /// Create from raw bytes without validation
    pub fn from_bytes_unchecked(bytes: &[u8]) -> (r: Self)
        ensures
            r@ == bytes@,
    {
        PublicKey(copy_bytes(bytes))
    }

    /// Get underlying bytes
    pub fn as_bytes(&self) -> (r: &[u8])
        ensures
            r@ == self@,
    {
        self.0.as_slice()
    }

    /// Convert to hex string
    pub fn to_hex(&self) -> (r: String)
        ensures
            r@ == hex_text(self@),
    {
        hex_encode(self.0.as_slice())
    }

    /// Parse from hex string: `PUBKEY_SIZE` bytes as hexadecimal digits.
    pub fn from_hex(s: &str) -> (r: Result<Self, CryptoError>)
        ensures
            is_hex_text(s@) && hex_bytes(s@).len() == PUBKEY_SIZE ==> r.is_ok() && r.unwrap()@
                == hex_bytes(s@),
            !(is_hex_text(s@) && hex_bytes(s@).len() == PUBKEY_SIZE) ==> r is Err
                && r->Err_0 is InvalidPublicKey,
    {
        match hex_decode(s) {
            None => Err(CryptoError::InvalidPublicKey(String::from_str("invalid hex encoding"))),
            Some(bytes) => Self::from_bytes(bytes.as_slice()),
        }
    }
}

/// Calls `zeroize` of the `zeroize` crate on a seed, which overwrites every
/// byte with zero.
#[verifier::external_body]
fn wipe_seed(seed: &mut [u8; 32])
    ensures
        final(seed)@ == Seq::new(32, |i: int| 0u8),
    opens_invariants none
    no_unwind
{
    zeroize::Zeroize::zeroize(seed);
}

/// An ML-DSA-65 secret key (32-byte seed format)
///
/// This type intentionally does not implement Clone or Debug, to prevent
/// accidental key leakage. Its memory is overwritten with zeros on drop.
pub struct SecretKey([u8; 32]);

impl Drop for SecretKey {
    fn drop(&mut self)
        ensures
            final(self)@ == Seq::new(32, |i: int| 0u8),
        opens_invariants none
        no_unwind
    {
        wipe_seed(&mut self.0);
    }
}

impl View for SecretKey {
    type V = Seq<u8>;

    closed spec fn view(&self) -> Seq<u8> {
        self.0@
    }
}

impl SecretKey {
    /// Create from raw bytes; anything but `SECRET_KEY_SIZE` bytes is refused.
    pub fn from_bytes(bytes: &[u8]) -> (r: Result<Self, CryptoError>)
        ensures
            bytes@.len() == SECRET_KEY_SIZE ==> r.is_ok() && r.unwrap()@ == bytes@,
            bytes@.len() != SECRET_KEY_SIZE ==> r is Err && r->Err_0 is InvalidPublicKey,
    {
        if bytes.len() != SECRET_KEY_SIZE {
            return Err(
                CryptoError::InvalidPublicKey(String::from_str("invalid secret key: wrong length")),
            );
        }
        let mut seed = [0u8;32];
        let mut i: usize = 0;
        while i < 32
            invariant
                bytes@.len() == 32,
                0 <= i <= 32,
                forall|j: int| 0 <= j < i ==> seed[j] == bytes@[j],
            decreases 32 - i,
        {
            seed[i] = bytes[i];
            i += 1;
        }
        assert(seed@ =~= bytes@);
        Ok(SecretKey(seed))
    }

    /// Get underlying bytes: the raw secret key material.
    pub fn to_bytes(&self) -> (r: Vec<u8>)
        ensures
            r@ == self@,
            r@.len() == SECRET_KEY_SIZE,
    {
        copy_bytes(self.0.as_slice())
    }

    /// Sign a message
    pub fn sign(&self, message: &[u8]) -> (r: Signature)
        ensures
            r@ == ml_dsa_signature(self@, message@),
            r@.len() == SIGNATURE_SIZE,
    {
        Signature(ml_dsa_sign(&self.0, message))
    }
}

/// A keypair containing both secret and public keys
pub struct Keypair {
    secret: SecretKey,
    public: PublicKey,
}

impl Keypair {
    /// The secret half, as bytes.
    pub closed spec fn secret_bytes(&self) -> Seq<u8> {
        self.secret@
    }

    /// The public half, as bytes.
    pub closed spec fn public_bytes(&self) -> Seq<u8> {
        self.public@
    }

    /// Generate a new random keypair. The seed is random, so only the
    /// relation between the two halves is stated.
    pub fn generate() -> (r: Self)
        ensures
            r.public_bytes() == ml_dsa_public_key(r.secret_bytes()),
            r.public_bytes().len() == PUBKEY_SIZE,
    {
        let seed = random_seed();
        Self::from_seed(&seed)
    }

    /// Deterministically generate a keypair from a 32-byte seed.
    pub fn from_seed(seed: &[u8; 32]) -> (r: Self)
        ensures
            r.secret_bytes() == seed@,
            r.public_bytes() == ml_dsa_public_key(seed@),
            r.public_bytes().len() == PUBKEY_SIZE,
    {
        let public = PublicKey(ml_dsa_keygen(seed));
        let secret = SecretKey(*seed);
        Keypair { secret, public }
    }

    /// Create from an existing secret key and public key pair
    pub fn from_parts(secret: SecretKey, public: PublicKey) -> (r: Self)
        ensures
            r.secret_bytes() == secret@,
            r.public_bytes() == public@,
    {
        Keypair { secret, public }
    }

    /// Get the public key
    pub fn public_key(&self) -> (r: &PublicKey)
        ensures
            r@ == self.public_bytes(),
    {
        &self.public
    }

    /// Sign a message
    pub fn sign(&self, message: &[u8]) -> (r: Signature)
        ensures
            r@ == ml_dsa_signature(self.secret_bytes(), message@),
            r@.len() == SIGNATURE_SIZE,
    {
        self.secret.sign(message)
    }

    /// Get the secret key (for persistence)
    pub fn secret_key(&self) -> (r: &SecretKey)
        ensures
            r@ == self.secret_bytes(),
    {
        &self.secret
    }
}

/// Sign a message with a secret key (convenience function)
pub fn sign(secret: &SecretKey, message: &[u8]) -> (r: Signature)
    ensures
        r@ == ml_dsa_signature(secret@, message@),
        r@.len() == SIGNATURE_SIZE,
{
    secret.sign(message)
}

/// What a key of the wrong length is told
pub const WRONG_LENGTH: &'static str = "wrong length";

/// What `verify` returns for a key, a message and a signature: `None` for
/// success, else whether the key was at fault (`Some(true)`) or the signature
/// (`Some(false)`).
pub open spec fn spec_verify(public_key: Seq<u8>, message: Seq<u8>, signature: Seq<u8>) -> Option<
    bool,
> {
    if public_key.len() != PUBKEY_SIZE {
        Some(true)
    } else if ml_dsa_accepts(public_key, message, signature) {
        None
    } else {
        Some(false)
    }
}

/// Verify a signature against a public key and message.
///
/// Fails with `InvalidPublicKey` where the key has the wrong length, and with
/// `InvalidSignature` where the signature does not decode or is not accepted.
pub fn verify(public_key: &PublicKey, message: &[u8], signature: &Signature) -> (r: Result<
    (),
    CryptoError,
>)
    ensures
        match spec_verify(public_key@, message@, signature@) {
            None => r.is_ok(),
            Some(true) => r matches Err(CryptoError::InvalidPublicKey(m)) && m@ == WRONG_LENGTH@,
            Some(false) => r is Err && r->Err_0 is InvalidSignature,
        },
{
    if public_key.as_bytes().len() != PUBKEY_SIZE {
        return Err(CryptoError::InvalidPublicKey(String::from_str(WRONG_LENGTH)));
    }
    if ml_dsa_verify(public_key.as_bytes(), message, signature.as_bytes()) {
        Ok(())
    } else {
        Err(CryptoError::InvalidSignature)
    }
}

} // verus!
