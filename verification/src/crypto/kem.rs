//! Key encapsulation using HQC-192.
//!
//! Post-quantum key exchange for peer-to-peer encryption: keys, ciphertexts,
//! shared secrets and encapsulation. Decapsulation is left to the
//! application, because the HQC implementation aborts on a ciphertext that
//! does not open under the key, and nothing tells such a ciphertext apart
//! beforehand.

use vstd::prelude::*;
use vstd::string::*;

use super::CryptoError;
use crate::encoding::{copy_bytes, hex_encode, hex_text};

verus! {

/// HQC-192 public key size in bytes
pub const KEM_PUBKEY_SIZE: usize = 4522;

/// HQC-192 secret key size in bytes
pub const KEM_SECRET_KEY_SIZE: usize = 4586;

/// HQC-192 ciphertext size in bytes
pub const KEM_CIPHERTEXT_SIZE: usize = 8978;

/// HQC-192 shared secret size in bytes
pub const KEM_SHARED_SECRET_SIZE: usize = 64;

/// Calls `from_bytes` of `pqcrypto_hqc::hqc192::PublicKey`, which accepts
/// exactly the byte strings of the public key size.
#[verifier::external_body]
fn hqc_public_key_ok(bytes: &[u8]) -> (ok: bool)
    ensures
        ok == (bytes@.len() == KEM_PUBKEY_SIZE),
{
    <pqcrypto_hqc::hqc192::PublicKey as pqcrypto_traits::kem::PublicKey>::from_bytes(bytes).is_ok()
}

/// Calls `from_bytes` of `pqcrypto_hqc::hqc192::SecretKey`, which accepts
/// exactly the byte strings of the secret key size.
#[verifier::external_body]
fn hqc_secret_key_ok(bytes: &[u8]) -> (ok: bool)
    ensures
        ok == (bytes@.len() == KEM_SECRET_KEY_SIZE),
{
    <pqcrypto_hqc::hqc192::SecretKey as pqcrypto_traits::kem::SecretKey>::from_bytes(bytes).is_ok()
}

/// Calls `from_bytes` of `pqcrypto_hqc::hqc192::Ciphertext`, which accepts
/// exactly the byte strings of the ciphertext size.
#[verifier::external_body]
fn hqc_ciphertext_ok(bytes: &[u8]) -> (ok: bool)
    ensures
        ok == (bytes@.len() == KEM_CIPHERTEXT_SIZE),
{
    <pqcrypto_hqc::hqc192::Ciphertext as pqcrypto_traits::kem::Ciphertext>::from_bytes(bytes).is_ok()
}

/// Calls `pqcrypto_hqc::hqc192::keypair`, which draws a fresh key pair. Only
/// the sizes of the two keys are stated.
#[verifier::external_body]
fn hqc_keypair() -> (keys: (Vec<u8>, Vec<u8>))
    ensures
        keys.0@.len() == KEM_PUBKEY_SIZE,
        keys.1@.len() == KEM_SECRET_KEY_SIZE,
{
    let (pk, sk) = pqcrypto_hqc::hqc192::keypair();
    (
        pqcrypto_traits::kem::PublicKey::as_bytes(&pk).to_vec(),
        pqcrypto_traits::kem::SecretKey::as_bytes(&sk).to_vec(),
    )
}

/// Calls `pqcrypto_hqc::hqc192::encapsulate` on a public key of the right
/// size. Encapsulation is randomised: only the sizes of the shared secret
/// and the ciphertext are stated.
#[verifier::external_body]
fn hqc_encapsulate(public_key: &[u8]) -> (r: (Vec<u8>, Vec<u8>))
    requires
        public_key@.len() == KEM_PUBKEY_SIZE,
    ensures
        r.0@.len() == KEM_SHARED_SECRET_SIZE,
        r.1@.len() == KEM_CIPHERTEXT_SIZE,
{
    let pk = <pqcrypto_hqc::hqc192::PublicKey as pqcrypto_traits::kem::PublicKey>::from_bytes(
        public_key,
    ).expect("public key has the right size");
    let (ss, ct) = pqcrypto_hqc::hqc192::encapsulate(&pk);
    (
        pqcrypto_traits::kem::SharedSecret::as_bytes(&ss).to_vec(),
        pqcrypto_traits::kem::Ciphertext::as_bytes(&ct).to_vec(),
    )
}

/// An HQC-192 KEM public key (4522 bytes)
#[derive(Debug, PartialEq, Eq)]
pub struct KemPublicKey(Vec<u8>);

impl View for KemPublicKey {
    type V = Seq<u8>;

    closed spec fn view(&self) -> Seq<u8> {
        self.0@
    }
}

impl Clone for KemPublicKey {
    fn clone(&self) -> (r: Self)
        ensures
            r@ == self@,
    {
        proof {
            use_type_invariant(self);
        }
        KemPublicKey(copy_bytes(self.0.as_slice()))
    }
}

impl KemPublicKey {
    #[verifier::type_invariant]
    spec fn sized(self) -> bool {
        self.0@.len() == KEM_PUBKEY_SIZE
    }

    /// Create from raw bytes; anything but `KEM_PUBKEY_SIZE` bytes is refused.
    pub fn from_bytes(bytes: &[u8]) -> (r: Result<Self, CryptoError>)
        ensures
            bytes@.len() == KEM_PUBKEY_SIZE ==> r.is_ok() && r.unwrap()@ == bytes@,
            bytes@.len() != KEM_PUBKEY_SIZE ==> r is Err && r->Err_0 is InvalidPublicKey,
    {
        if !hqc_public_key_ok(bytes) {
            return Err(CryptoError::InvalidPublicKey(String::from_str("invalid KEM public key")));
        }
        Ok(KemPublicKey(copy_bytes(bytes)))
    }

    /// Get underlying bytes
    pub fn as_bytes(&self) -> (r: &[u8])
        ensures
            r@ == self@,
            r@.len() == KEM_PUBKEY_SIZE,
    {
        proof {
            use_type_invariant(self);
        }
        self.0.as_slice()
    }

    /// Convert to hex string
    pub fn to_hex(&self) -> (r: String)
        ensures
            r@ == hex_text(self@),
    {
        hex_encode(self.0.as_slice())
    }
}

/// Calls `zeroize` of the `zeroize` crate on the bytes as a slice, which
/// overwrites every byte with zero and keeps the length.
#[verifier::external_body]
fn wipe_bytes(bytes: &mut Vec<u8>)
    ensures
        final(bytes)@ == Seq::new(old(bytes)@.len(), |i: int| 0u8),
    opens_invariants none
    no_unwind
{
    zeroize::Zeroize::zeroize(bytes.as_mut_slice());
}

/// An HQC-192 KEM secret key (4586 bytes). Its memory is overwritten with
/// zeros on drop.
pub struct KemSecretKey(Vec<u8>);

impl Drop for KemSecretKey {
    fn drop(&mut self)
        ensures
            final(self)@ == Seq::new(old(self)@.len(), |i: int| 0u8),
        opens_invariants none
        no_unwind
    {
        proof {
            use_type_invariant(&*self);
        }
        wipe_bytes(&mut self.0);
    }
}

impl View for KemSecretKey {
    type V = Seq<u8>;

    closed spec fn view(&self) -> Seq<u8> {
        self.0@
    }
}

impl KemSecretKey {
    #[verifier::type_invariant]
    spec fn sized(self) -> bool {
        self.0@.len() == KEM_SECRET_KEY_SIZE
    }

    /// Create from raw bytes; anything but `KEM_SECRET_KEY_SIZE` bytes is
    /// refused.
    pub fn from_bytes(bytes: &[u8]) -> (r: Result<Self, CryptoError>)
        ensures
            bytes@.len() == KEM_SECRET_KEY_SIZE ==> r.is_ok() && r.unwrap()@ == bytes@,
            bytes@.len() != KEM_SECRET_KEY_SIZE ==> r is Err && r->Err_0 is InvalidPublicKey,
    {
        if !hqc_secret_key_ok(bytes) {
            return Err(CryptoError::InvalidPublicKey(String::from_str("invalid KEM secret key")));
        }
        Ok(KemSecretKey(copy_bytes(bytes)))
    }

    /// Get underlying bytes
    pub fn to_bytes(&self) -> (r: Vec<u8>)
        ensures
            r@ == self@,
            r@.len() == KEM_SECRET_KEY_SIZE,
    {
        proof {
            use_type_invariant(self);
        }
        copy_bytes(self.0.as_slice())
    }
}

/// An HQC-192 ciphertext (8978 bytes)
#[derive(Debug, PartialEq, Eq)]
pub struct KemCiphertext(Vec<u8>);

impl View for KemCiphertext {
    type V = Seq<u8>;

    closed spec fn view(&self) -> Seq<u8> {
        self.0@
    }
}

impl Clone for KemCiphertext {
    fn clone(&self) -> (r: Self)
        ensures
            r@ == self@,
    {
        proof {
            use_type_invariant(self);
        }
        KemCiphertext(copy_bytes(self.0.as_slice()))
    }
}

impl KemCiphertext {
    #[verifier::type_invariant]
    spec fn sized(self) -> bool {
        self.0@.len() == KEM_CIPHERTEXT_SIZE
    }

    /// Create from raw bytes; anything but `KEM_CIPHERTEXT_SIZE` bytes is
    /// refused.
    pub fn from_bytes(bytes: &[u8]) -> (r: Result<Self, CryptoError>)
        ensures
            bytes@.len() == KEM_CIPHERTEXT_SIZE ==> r.is_ok() && r.unwrap()@ == bytes@,
            bytes@.len() != KEM_CIPHERTEXT_SIZE ==> r is Err && r->Err_0 is InvalidSignature,
    {
        if !hqc_ciphertext_ok(bytes) {
            return Err(CryptoError::InvalidSignature);
        }
        Ok(KemCiphertext(copy_bytes(bytes)))
    }

    /// Get underlying bytes
    pub fn as_bytes(&self) -> (r: &[u8])
        ensures
            r@ == self@,
            r@.len() == KEM_CIPHERTEXT_SIZE,
    {
        proof {
            use_type_invariant(self);
        }
        self.0.as_slice()
    }
}

/// A shared secret derived from HQC-192 KEM (64 bytes). Its memory is
/// overwritten with zeros on drop.
pub struct SharedSecret(Vec<u8>);

impl Drop for SharedSecret {
    fn drop(&mut self)
        ensures
            final(self)@ == Seq::new(old(self)@.len(), |i: int| 0u8),
        opens_invariants none
        no_unwind
    {
        wipe_bytes(&mut self.0);
    }
}

impl View for SharedSecret {
    type V = Seq<u8>;

    closed spec fn view(&self) -> Seq<u8> {
        self.0@
    }
}

impl SharedSecret {
    /// Create from raw bytes; anything but `KEM_SHARED_SECRET_SIZE` bytes is
    /// refused.
    pub fn from_bytes(bytes: &[u8]) -> (r: Result<Self, CryptoError>)
        ensures
            bytes@.len() == KEM_SHARED_SECRET_SIZE ==> r.is_ok() && r.unwrap()@ == bytes@,
            bytes@.len() != KEM_SHARED_SECRET_SIZE ==> r is Err && r->Err_0 is InvalidSignature,
    {
        if bytes.len() != KEM_SHARED_SECRET_SIZE {
            return Err(CryptoError::InvalidSignature);
        }
        Ok(SharedSecret(copy_bytes(bytes)))
    }

    /// Get underlying bytes
    pub fn as_bytes(&self) -> (r: &[u8])
        ensures
            r@ == self@,
    {
        self.0.as_slice()
    }
}

/// An HQC-192 KEM keypair
pub struct KemKeypair {
    secret: KemSecretKey,
    public: KemPublicKey,
}

impl KemKeypair {
    /// The secret half, as bytes.
    pub closed spec fn secret_bytes(&self) -> Seq<u8> {
        self.secret@
    }

    /// The public half, as bytes.
    pub closed spec fn public_bytes(&self) -> Seq<u8> {
        self.public@
    }

    /// Generate a new random KEM keypair
    pub fn generate() -> (r: Self)
        ensures
            r.public_bytes().len() == KEM_PUBKEY_SIZE,
            r.secret_bytes().len() == KEM_SECRET_KEY_SIZE,
    {
        let (pk, sk) = hqc_keypair();
        KemKeypair { secret: KemSecretKey(sk), public: KemPublicKey(pk) }
    }

    /// Get the public key
    pub fn public_key(&self) -> (r: &KemPublicKey)
        ensures
            r@ == self.public_bytes(),
    {
        &self.public
    }

    /// Get the secret key (for persistence)
    pub fn secret_key(&self) -> (r: &KemSecretKey)
        ensures
            r@ == self.secret_bytes(),
    {
        &self.secret
    }
}

/// Encapsulate: generate a shared secret and ciphertext for a recipient's
/// public key. Every key of this type has the right size, so this always
/// succeeds; the secret and the ciphertext are random.
pub fn encapsulate(public_key: &KemPublicKey) -> (r: Result<
    (SharedSecret, KemCiphertext),
    CryptoError,
>)
    ensures
        r is Ok,
        r->Ok_0.0@.len() == KEM_SHARED_SECRET_SIZE,
        r->Ok_0.1@.len() == KEM_CIPHERTEXT_SIZE,
{
    let (ss, ct) = hqc_encapsulate(public_key.as_bytes());
    Ok((SharedSecret(ss), KemCiphertext(ct)))
}

} // verus!
