//! BLAKE3 digests and Merkle roots.

use vstd::prelude::*;
use vstd::string::*;

use super::CryptoError;
use crate::encoding::{hex_bytes, hex_decode, hex_encode, hex_text, is_hex_text, push_bytes};

verus! {

/// Number of bytes in a digest.
pub const HASH_SIZE: usize = 32;

/// The BLAKE3 digest of a byte string.
pub uninterp spec fn blake3_digest(data: Seq<u8>) -> [u8; 32];

/// Calls `blake3::hash`, the default-mode BLAKE3 hash of the input, which
/// depends on the input bytes alone. The contract names that digest.
#[verifier::external_body]
fn blake3_bytes(data: &[u8]) -> (digest: [u8; 32])
    ensures
        digest == blake3_digest(data@),
{
    *blake3::hash(data).as_bytes()
}

/// A 32-byte digest.
#[derive(Clone, Copy, Debug, Eq, Hash)]
pub struct Hash(pub [u8; 32]);

impl PartialEq for Hash {
    fn eq(&self, other: &Self) -> (r: bool) {
        let mut i: usize = 0;
        while i < 32
            invariant
                0 <= i <= 32,
                forall|j: int| 0 <= j < i ==> self.0[j] == other.0[j],
            decreases 32 - i,
        {
            if self.0[i] != other.0[i] {
                return false;
            }
            i += 1;
        }
        assert(self.0 =~= other.0);
        true
    }
}

impl vstd::std_specs::cmp::PartialEqSpecImpl for Hash {
    open spec fn obeys_eq_spec() -> bool {
        true
    }

    open spec fn eq_spec(&self, other: &Self) -> bool {
        *self == *other
    }
}

/// Whether `a` comes before `b`, or equals it, in lexicographic byte order,
/// looking only at positions `from` and later.
pub open spec fn bytes_le_from(a: Seq<u8>, b: Seq<u8>, from: int) -> bool
    decreases a.len() - from,
{
    if from >= a.len() || from >= b.len() {
        a.len() <= b.len()
    } else if a[from] != b[from] {
        a[from] < b[from]
    } else {
        bytes_le_from(a, b, from + 1)
    }
}

/// Lexicographic order on digests, by their bytes.
pub open spec fn hash_le(a: Hash, b: Hash) -> bool {
    bytes_le_from(a.0@, b.0@, 0)
}

/// The all-zero digest.
pub open spec fn zero_hash() -> Hash {
    Hash(vstd::array::spec_array_fill_for_copy_type::<u8, 32>(0u8))
}

/// The parent of two nodes of a Merkle tree: the digest of their bytes, left
/// then right.
pub open spec fn merkle_parent(left: Hash, right: Hash) -> Hash {
    Hash(blake3_digest(left.0@ + right.0@))
}

/// The next level of a Merkle tree: nodes are paired off from the left, and a
/// last node without a partner is paired with itself.
pub open spec fn merkle_level(level: Seq<Hash>) -> Seq<Hash>
    decreases level.len(),
{
    if level.len() == 0 {
        Seq::empty()
    } else if level.len() == 1 {
        seq![merkle_parent(level[0], level[0])]
    } else {
        seq![merkle_parent(level[0], level[1])] + merkle_level(
            level.subrange(2, level.len() as int),
        )
    }
}

/// The root of the Merkle tree over `leaves`: the zero digest for no leaves,
/// the leaf itself for one, and otherwise the root of the next level.
pub open spec fn merkle_root_of(leaves: Seq<Hash>) -> Hash
    decreases leaves.len(),
    via merkle_root_decreases
{
    if leaves.len() == 0 {
        zero_hash()
    } else if leaves.len() == 1 {
        leaves[0]
    } else {
        merkle_root_of(merkle_level(leaves))
    }
}

#[via_fn]
proof fn merkle_root_decreases(leaves: Seq<Hash>) {
    lemma_merkle_level_len(leaves);
}

/// The next level is half as long, rounded up.
pub proof fn lemma_merkle_level_len(level: Seq<Hash>)
    ensures
        merkle_level(level).len() == (level.len() + 1) / 2,
    decreases level.len(),
{
    if level.len() >= 2 {
        lemma_merkle_level_len(level.subrange(2, level.len() as int));
    }
}

impl Hash {
    /// The hash that `from_hex` yields for a text, where it yields one.
    pub open spec fn spec_from_hex(text: Seq<char>) -> Option<Seq<u8>> {
        if is_hex_text(text) && hex_bytes(text).len() == 32 {
            Some(hex_bytes(text))
        } else {
            None
        }
    }

    /// The all-zero digest.
    pub fn zero() -> (r: Self)
        ensures
            r == zero_hash(),
    {
        Hash([0u8;32])
    }

    /// A digest from its bytes.
    pub fn from_bytes(bytes: [u8; 32]) -> (r: Self)
        ensures
            r.0 == bytes,
    {
        Hash(bytes)
    }

    /// The underlying bytes.
    pub fn as_bytes(&self) -> (r: &[u8; 32])
        ensures
            *r == self.0,
    {
        &self.0
    }

    /// Lowercase hexadecimal text of the digest.
    pub fn to_hex(&self) -> (r: String)
        ensures
            r@ == hex_text(self.0@),
    {
        hex_encode(self.0.as_slice())
    }

    /// Parses sixty-four hexadecimal digits.
    pub fn from_hex(s: &str) -> (r: Result<Self, CryptoError>)
        ensures
            match Self::spec_from_hex(s@) {
                Some(bytes) => r.is_ok() && r.unwrap().0@ == bytes,
                None => r is Err && r->Err_0 is InvalidHash,
            },
    {
        match hex_decode(s) {
            None => Err(CryptoError::InvalidHash(String::from_str("invalid hex encoding"))),
            Some(bytes) => {
                if bytes.len() != 32 {
                    Err(CryptoError::InvalidHash(String::from_str("expected 32 bytes")))
                } else {
                    let mut out = [0u8;32];
                    let mut i: usize = 0;
                    while i < 32
                        invariant
                            bytes@.len() == 32,
                            0 <= i <= 32,
                            forall|j: int| 0 <= j < i ==> out[j] == bytes@[j],
                        decreases 32 - i,
                    {
                        out[i] = bytes[i];
                        i += 1;
                    }
                    assert(out@ =~= bytes@);
                    Ok(Hash(out))
                }
            },
        }
    }

    /// Whether `self` comes before `other`, or equals it, in lexicographic
    /// byte order.
    pub fn le(&self, other: &Self) -> (r: bool)
        ensures
            r == hash_le(*self, *other),
    {
        let mut i: usize = 0;
        while i < 32
            invariant
                0 <= i <= 32,
                hash_le(*self, *other) == bytes_le_from(self.0@, other.0@, i as int),
            decreases 32 - i,
        {
            if self.0[i] != other.0[i] {
                return self.0[i] < other.0[i];
            }
            i += 1;
        }
        true
    }
}

/// The BLAKE3 digest of `data`.
pub fn hash_data(data: &[u8]) -> (h: Hash)
    ensures
        h == Hash(blake3_digest(data@)),
{
    Hash(blake3_bytes(data))
}

/// The digest of two digests, left then right.
pub fn hash_pair(left: &Hash, right: &Hash) -> (h: Hash)
    ensures
        h == merkle_parent(*left, *right),
{
    let mut data: Vec<u8> = Vec::new();
    push_bytes(&mut data, left.0.as_slice());
    push_bytes(&mut data, right.0.as_slice());
    assert(data@ =~= left.0@ + right.0@);
    hash_data(data.as_slice())
}

/// The root of the Merkle tree over `hashes`, taken in the order given.
pub fn merkle_root(hashes: &[Hash]) -> (root: Hash)
    ensures
        root == merkle_root_of(hashes@),
{
    if hashes.len() == 0 {
        return Hash::zero();
    }
    let mut level: Vec<Hash> = Vec::new();
    let mut k: usize = 0;
    while k < hashes.len()
        invariant
            0 <= k <= hashes@.len(),
            level@ == hashes@.subrange(0, k as int),
        decreases hashes@.len() - k,
    {
        level.push(hashes[k]);
        assert(level@ =~= hashes@.subrange(0, k as int + 1));
        k += 1;
    }
    assert(level@ =~= hashes@);
    while level.len() > 1
        invariant
            level@.len() >= 1,
            merkle_root_of(level@) == merkle_root_of(hashes@),
        decreases level@.len(),
    {
        let ghost before = level@;
        let mut next: Vec<Hash> = Vec::new();
        let mut i: usize = 0;
        assert(level@.subrange(0, level@.len() as int) =~= level@);
        while i < level.len()
            invariant
                level@ == before,
                0 <= i <= level@.len(),
                i % 2 == 0 || i == level@.len(),
                next@ + merkle_level(level@.subrange(i as int, level@.len() as int))
                    == merkle_level(level@),
            decreases level@.len() - i,
        {
            let ghost rest = level@.subrange(i as int, level@.len() as int);
            if i + 1 < level.len() {
                let parent = hash_pair(&level[i], &level[i + 1]);
                proof {
                    assert(rest.subrange(2, rest.len() as int) =~= level@.subrange(
                        i as int + 2,
                        level@.len() as int,
                    ));
                    assert(next@.push(parent) + merkle_level(
                        level@.subrange(i as int + 2, level@.len() as int),
                    ) =~= next@ + merkle_level(rest));
                }
                next.push(parent);
                i += 2;
            } else {
                let parent = hash_pair(&level[i], &level[i]);
                proof {
                    assert(rest.len() == 1);
                    assert(level@.subrange(i as int + 1, level@.len() as int).len() == 0);
                    assert(next@.push(parent) + merkle_level(
                        level@.subrange(i as int + 1, level@.len() as int),
                    ) =~= next@ + merkle_level(rest));
                }
                next.push(parent);
                i += 1;
            }
        }
        proof {
            assert(level@.subrange(level@.len() as int, level@.len() as int).len() == 0);
            assert(next@ =~= merkle_level(level@));
            lemma_merkle_level_len(level@);
            assert(merkle_root_of(before) == merkle_root_of(merkle_level(before)));
        }
        level = next;
    }
    level[0]
}

} // verus!
