//! Network addresses derived from public keys.

use vstd::prelude::*;
use vstd::string::*;

use crate::crypto::hash::hash_data;
use crate::crypto::signature::PublicKey;
use crate::encoding::{hex_bytes, hex_decode, hex_encode, hex_text, is_hex_text};

verus! {

/// Number of bytes in an address.
pub const ADDRESS_SIZE: usize = 20;

/// A network address: the first twenty bytes of the digest of a public key.
#[derive(Clone, Copy, Debug, Eq, Hash)]
pub struct Address(pub [u8; 20]);

impl PartialEq for Address {
    fn eq(&self, other: &Self) -> (r: bool) {
        let mut i: usize = 0;
        while i < 20
            invariant
                0 <= i <= 20,
                forall|j: int| 0 <= j < i ==> self.0[j] == other.0[j],
            decreases 20 - i,
        {
            if self.0[i] != other.0[i] {
                return false;
            }
            i += 1;
        }
        assert(self.0 =~= other.0);
        true
    }
}

impl vstd::std_specs::cmp::PartialEqSpecImpl for Address {
    open spec fn obeys_eq_spec() -> bool {
        true
    }

    open spec fn eq_spec(&self, other: &Self) -> bool {
        *self == *other
    }
}

/// Address parsing errors
#[derive(Clone, Copy, Debug, PartialEq, Eq, Structural)]
pub enum AddressError {
    /// Invalid hex encoding
    InvalidHex,
    /// Invalid address length (the number of bytes that were decoded)
    InvalidLength(usize),
}

/// The text of an address after an optional `0x` prefix is taken off.
pub open spec fn strip_0x(text: Seq<char>) -> Seq<char> {
    if text.len() >= 2 && text[0] == '0' && text[1] == 'x' {
        text.subrange(2, text.len() as int)
    } else {
        text
    }
}

/// The address with the given twenty bytes.
pub open spec fn address_of(bytes: Seq<u8>) -> Address {
    choose|a: Address| a.0@ == bytes
}

/// The zero address.
pub open spec fn zero_address() -> Address {
    address_of(Seq::new(20, |i: int| 0u8))
}

/// An address is the address with its bytes: two addresses with the same
/// bytes are one.
pub proof fn lemma_address_of(a: Address)
    ensures
        address_of(a.0@) == a,
{
    let b = address_of(a.0@);
    assert(b.0@ == a.0@);
    assert(b.0 =~= a.0);
}

impl Address {
    /// The address that `from_hex` yields for a text, where it yields one.
    pub open spec fn spec_from_hex(text: Seq<char>) -> Result<Seq<u8>, AddressError> {
        let digits = strip_0x(text);
        if !is_hex_text(digits) {
            Err(AddressError::InvalidHex)
        } else if hex_bytes(digits).len() != 20 {
            Err(AddressError::InvalidLength(hex_bytes(digits).len() as usize))
        } else {
            Ok(hex_bytes(digits))
        }
    }

    /// The zero address (used for burns)
    pub fn zero() -> (r: Self)
        ensures
            forall|i: int| 0 <= i < 20 ==> r.0[i] == 0u8,
            r == zero_address(),
    {
        let r = Address([0u8;20]);
        proof {
            assert(r.0@ =~= Seq::new(20, |i: int| 0u8));
            lemma_address_of(r);
        }
        r
    }

    /// Create an address from raw bytes
    pub fn from_bytes(bytes: [u8; 20]) -> (r: Self)
        ensures
            r.0 == bytes,
    {
        Address(bytes)
    }

    /// The address whose bytes are the first twenty of `bytes`.
    pub(crate) fn from_prefix(bytes: &[u8]) -> (r: Self)
        requires
            bytes@.len() >= 20,
        ensures
            r.0@ == bytes@.subrange(0, 20),
    {
        let mut addr = [0u8;20];
        let mut i: usize = 0;
        while i < 20
            invariant
                bytes@.len() >= 20,
                0 <= i <= 20,
                forall|j: int| 0 <= j < i ==> addr[j] == bytes@[j],
            decreases 20 - i,
        {
            addr[i] = bytes[i];
            i += 1;
        }
        assert(addr@ =~= bytes@.subrange(0, 20));
        Address(addr)
    }

    /// Derive address from a public key: the first twenty bytes of its digest.
    pub fn from_public_key(pubkey: &PublicKey) -> (r: Self)
        ensures
            r.0@ == crate::crypto::hash::blake3_digest(pubkey@)@.subrange(0, 20),
    {
        let hash = hash_data(pubkey.as_bytes());
        Self::from_prefix(hash.as_bytes().as_slice())
    }

    /// Get the underlying bytes
    pub fn as_bytes(&self) -> (r: &[u8; 20])
        ensures
            *r == self.0,
    {
        &self.0
    }

    /// Lowercase hexadecimal text of the twenty bytes, without a prefix.
    pub fn to_hex_digits(&self) -> (r: String)
        ensures
            r@ == hex_text(self.0@),
    {
        hex_encode(self.0.as_slice())
    }

    /// Convert to hex string with 0x prefix
    pub fn to_hex(&self) -> (r: String)
        ensures
            r@ == seq!['0', 'x'] + hex_text(self.0@),
    {
        let digits = hex_encode(self.0.as_slice());
        proof {
            reveal_strlit("0x");
            assert("0x"@ =~= seq!['0', 'x']);
        }
        String::from_str("0x").concat(digits.as_str())
    }

    /// Parse from hex string (with or without 0x prefix)
    pub fn from_hex(s: &str) -> (r: Result<Self, AddressError>)
        ensures
            match Self::spec_from_hex(s@) {
                Ok(bytes) => r.is_ok() && r.unwrap().0@ == bytes,
                Err(e) => r == Err::<Self, AddressError>(e),
            },
    {
        let n = s.unicode_len();
        let digits = if n >= 2 && s.get_char(0) == '0' && s.get_char(1) == 'x' {
            s.substring_char(2, n)
        } else {
            s
        };
        match hex_decode(digits) {
            None => Err(AddressError::InvalidHex),
            Some(bytes) => {
                if bytes.len() != 20 {
                    Err(AddressError::InvalidLength(bytes.len()))
                } else {
                    let a = Self::from_prefix(bytes.as_slice());
                    assert(bytes@.subrange(0, 20) =~= bytes@);
                    Ok(a)
                }
            },
        }
    }

    /// Check if this is the zero/burn address
    pub fn is_zero(&self) -> (r: bool)
        ensures
            r == (forall|i: int| 0 <= i < 20 ==> self.0[i] == 0u8),
    {
        let mut i: usize = 0;
        while i < 20
            invariant
                0 <= i <= 20,
                forall|j: int| 0 <= j < i ==> self.0[j] == 0u8,
            decreases 20 - i,
        {
            if self.0[i] != 0 {
                return false;
            }
            i += 1;
        }
        true
    }
}

} // verus!
