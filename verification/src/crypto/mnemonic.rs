//! BIP39 mnemonic seed phrase support for wallet recovery.
//!
//! Standard 24-word seed phrases that deterministically derive ML-DSA-65
//! keypairs: mnemonic -> BIP39 seed -> BLAKE3 with a domain tag -> ML-DSA
//! seed. The same mnemonic always produces the same wallet.

use vstd::prelude::*;
use vstd::string::*;

use super::hash::{blake3_digest, hash_data};
use super::signature::{ml_dsa_public_key, Keypair, PUBKEY_SIZE};
use super::CryptoError;
use crate::encoding::{push_bytes, push_text, text_bytes};

verus! {

/// Number of words in the mnemonic (24 words = 256 bits of entropy)
pub const MNEMONIC_WORD_COUNT: usize = 24;

/// Domain separator for ML-DSA key derivation from BIP39 seed
pub const ML_DSA_KDF_DOMAIN: &'static str = "hardclaw-ml-dsa-keygen-v1";

/// Whether a text is a valid English BIP39 mnemonic phrase.
pub uninterp spec fn bip39_accepts(phrase: Seq<char>) -> bool;

/// The English BIP39 mnemonic phrase for an entropy.
pub uninterp spec fn bip39_phrase(entropy: Seq<u8>) -> Seq<char>;

/// The words of a valid English BIP39 mnemonic phrase.
pub uninterp spec fn bip39_words(phrase: Seq<char>) -> Seq<Seq<char>>;

/// The 64-byte BIP39 seed of a valid mnemonic phrase and a passphrase.
pub uninterp spec fn bip39_seed(phrase: Seq<char>, passphrase: Seq<char>) -> Seq<u8>;

/// The SHA-256 digest of a byte string.
pub uninterp spec fn sha256_digest(data: Seq<u8>) -> Seq<u8>;

/// The Ed25519 public key of a 32-byte secret key.
pub uninterp spec fn ed25519_public_key(secret: Seq<u8>) -> Seq<u8>;

/// Calls `bip39::Mnemonic::parse_in` for the English word list and keeps
/// only whether it succeeded, with the crate's message on failure. Whether a
/// phrase parses depends on the phrase alone; the contract names that.
#[verifier::external_body]
fn bip39_check(phrase: &str) -> (r: Result<(), String>)
    ensures
        r.is_ok() == bip39_accepts(phrase@),
{
    bip39::Mnemonic::parse_in(bip39::Language::English, phrase).map(|_| ()).map_err(
        |e| e.to_string(),
    )
}

/// Calls `bip39::Mnemonic::from_entropy_in` for the English word list on 32
/// bytes of entropy, a length that it accepts, and writes the mnemonic out as
/// its words separated by spaces. The contract names the phrase and states
/// that it is a valid phrase.
#[verifier::external_body]
fn bip39_from_entropy(entropy: &[u8; 32]) -> (phrase: String)
    ensures
        phrase@ == bip39_phrase(entropy@),
        bip39_accepts(phrase@),
{
    bip39::Mnemonic::from_entropy_in(bip39::Language::English, entropy).expect(
        "32 bytes is a valid entropy length",
    ).to_string()
}

/// Parses a valid phrase with `bip39::Mnemonic::parse_in` and calls
/// `to_seed` with the passphrase. The contract names the 64-byte seed.
#[verifier::external_body]
fn bip39_to_seed(phrase: &str, passphrase: &str) -> (seed: [u8; 64])
    requires
        bip39_accepts(phrase@),
    ensures
        seed@ == bip39_seed(phrase@, passphrase@),
{
    bip39::Mnemonic::parse_in(bip39::Language::English, phrase).expect(
        "the phrase was validated",
    ).to_seed(passphrase)
}

/// Parses a valid phrase with `bip39::Mnemonic::parse_in` and collects its
/// `words`. The contract names the word list.
#[verifier::external_body]
fn bip39_word_list(phrase: &str) -> (words: Vec<String>)
    requires
        bip39_accepts(phrase@),
    ensures
        words@.len() == bip39_words(phrase@).len(),
        forall|i: int| 0 <= i < words@.len() ==> (#[trigger] words@[i])@ == bip39_words(phrase@)[i],
{
    bip39::Mnemonic::parse_in(bip39::Language::English, phrase).expect(
        "the phrase was validated",
    ).words().map(|w| w.to_string()).collect()
}

/// Fills 32 bytes from `rand::rngs::OsRng`. Nothing is promised of the
/// bytes.
#[verifier::external_body]
fn random_entropy() -> (entropy: [u8; 32]) {
    let mut entropy = [0u8; 32];
    rand::RngCore::fill_bytes(&mut rand::rngs::OsRng, &mut entropy);
    entropy
}

/// Calls `Sha256::digest` of the `sha2` crate. The contract names the
/// digest.
#[verifier::external_body]
fn sha256(data: &[u8]) -> (digest: [u8; 32])
    ensures
        digest@ == sha256_digest(data@),
{
    <sha2::Sha256 as sha2::Digest>::digest(data).into()
}

/// Calls `ed25519_dalek::SigningKey::from_bytes` and takes the bytes of its
/// verifying key. The contract names the public key.
#[verifier::external_body]
fn ed25519_public(secret: &[u8; 32]) -> (public: [u8; 32])
    ensures
        public@ == ed25519_public_key(secret@),
{
    ed25519_dalek::SigningKey::from_bytes(secret).verifying_key().to_bytes()
}

/// A validated BIP39 mnemonic phrase.
pub struct Mnemonic {
    phrase: String,
}

impl View for Mnemonic {
    type V = Seq<char>;

    closed spec fn view(&self) -> Seq<char> {
        self.phrase@
    }
}

impl Mnemonic {
    #[verifier::type_invariant]
    spec fn valid(self) -> bool {
        bip39_accepts(self.phrase@)
    }

    /// The phrase as text.
    pub fn phrase(&self) -> (r: &str)
        ensures
            r@ == self@,
            bip39_accepts(self@),
    {
        proof {
            use_type_invariant(self);
        }
        self.phrase.as_str()
    }
}

/// The ML-DSA seed that a mnemonic and a passphrase determine: the digest of
/// the domain tag followed by the BIP39 seed.
pub open spec fn ml_dsa_seed_of(phrase: Seq<char>, passphrase: Seq<char>) -> Seq<u8> {
    blake3_digest(text_bytes(ML_DSA_KDF_DOMAIN@) + bip39_seed(phrase, passphrase))@
}

/// Generate a new random mnemonic phrase: 24 words of the English BIP39 word
/// list.
pub fn generate_mnemonic() -> (r: Mnemonic)
    ensures
        bip39_accepts(r@),
{
    let entropy = random_entropy();
    Mnemonic { phrase: bip39_from_entropy(&entropy) }
}

/// Parse a mnemonic phrase from a string.
///
/// Fails with `InvalidMnemonic` exactly where the phrase is not a valid
/// English BIP39 phrase (wrong words, checksum, word count).
pub fn parse_mnemonic(phrase: &str) -> (r: Result<Mnemonic, CryptoError>)
    ensures
        r.is_ok() == bip39_accepts(phrase@),
        r matches Ok(m) ==> m@ == phrase@,
        r is Err ==> r->Err_0 is InvalidMnemonic,
{
    match bip39_check(phrase) {
        Ok(()) => Ok(Mnemonic { phrase: String::from_str(phrase) }),
        Err(message) => Err(CryptoError::InvalidMnemonic(message)),
    }
}

/// Derive an Ed25519 keypair from a mnemonic (for transport identity): the
/// secret key is the SHA-256 digest of the BIP39 seed. Returns the secret and
/// the public key.
pub fn derive_ed25519_from_mnemonic(mnemonic: &Mnemonic, passphrase: &str) -> (r: (
    [u8; 32],
    [u8; 32],
))
    ensures
        r.0@ == sha256_digest(bip39_seed(mnemonic@, passphrase@)),
        r.1@ == ed25519_public_key(r.0@),
{
    let seed = bip39_to_seed(mnemonic.phrase(), passphrase);
    let secret = sha256(seed.as_slice());
    let public = ed25519_public(&secret);
    (secret, public)
}

/// Deterministically derive an ML-DSA-65 keypair from a mnemonic.
///
/// BIP39 mnemonic -> 64-byte seed (with passphrase) -> BLAKE3 of the domain
/// tag and the seed -> 32-byte ML-DSA seed -> keypair.
pub fn keypair_from_mnemonic(mnemonic: &Mnemonic, passphrase: &str) -> (r: Keypair)
    ensures
        r.secret_bytes() == ml_dsa_seed_of(mnemonic@, passphrase@),
        r.public_bytes() == ml_dsa_public_key(r.secret_bytes()),
        r.public_bytes().len() == PUBKEY_SIZE,
{
    let bip39_seed = bip39_to_seed(mnemonic.phrase(), passphrase);
    let mut data: Vec<u8> = Vec::new();
    push_text(&mut data, ML_DSA_KDF_DOMAIN);
    push_bytes(&mut data, bip39_seed.as_slice());
    assert(data@ =~= text_bytes(ML_DSA_KDF_DOMAIN@) + bip39_seed@);
    let ml_dsa_seed = hash_data(data.as_slice());
    Keypair::from_seed(&ml_dsa_seed.0)
}

/// Derive a keypair from a mnemonic phrase string.
pub fn keypair_from_phrase(phrase: &str, passphrase: &str) -> (r: Result<Keypair, CryptoError>)
    ensures
        r.is_ok() == bip39_accepts(phrase@),
        r matches Ok(k) ==> k.secret_bytes() == ml_dsa_seed_of(phrase@, passphrase@)
            && k.public_bytes() == ml_dsa_public_key(k.secret_bytes()),
        r is Err ==> r->Err_0 is InvalidMnemonic,
{
    match parse_mnemonic(phrase) {
        Ok(mnemonic) => Ok(keypair_from_mnemonic(&mnemonic, passphrase)),
        Err(e) => Err(e),
    }
}

/// Convert a mnemonic to its word list.
pub fn mnemonic_to_words(mnemonic: &Mnemonic) -> (r: Vec<String>)
    ensures
        r@.len() == bip39_words(mnemonic@).len(),
        forall|i: int| 0 <= i < r@.len() ==> (#[trigger] r@[i])@ == bip39_words(mnemonic@)[i],
{
    bip39_word_list(mnemonic.phrase())
}

} // verus!
