//! Blocks.
//!
//! A block contains verified solutions and state transitions. Blocks are
//! valid only with 66% consensus from verifiers.

use vstd::prelude::*;

use super::address::Address;
use super::amount::HclawAmount;
use super::job::VerificationResult;
use super::{now_millis, Id, Timestamp};
use crate::crypto::hash::{blake3_digest, hash_data, merkle_root, merkle_root_of, zero_hash};
use crate::crypto::signature::{spec_verify, verify, PublicKey, Signature, SIGNATURE_SIZE};
use crate::crypto::CryptoError;
use crate::encoding::{
    digest_bytes, push_bytes, push_digests, push_i64_le, push_u32_le, push_u64_le,
    spec_i64_to_le_bytes,
};

verus! {

/// Block header containing metadata and commitments
#[derive(Debug)]
pub struct BlockHeader {
    /// Block number (height)
    pub height: u64,
    /// Hash of the previous block
    pub parent_hash: Id,
    /// Merkle root of verified solutions in this block
    pub solutions_root: Id,
    /// Merkle root of state transitions
    pub state_root: Id,
    /// Timestamp of block creation
    pub timestamp: Timestamp,
    /// Proposer's public key (the verifier who assembled this block)
    pub proposer: PublicKey,
    /// Number of verifications in this block
    pub verification_count: u32,
    /// Protocol version
    pub version: u32,
}

impl BlockHeader {
    /// The bytes whose digest is the block hash.
    pub open spec fn spec_hash_bytes(&self) -> Seq<u8> {
        vstd::bytes::spec_u64_to_le_bytes(self.height) + self.parent_hash.0@
            + self.solutions_root.0@ + self.state_root.0@ + spec_i64_to_le_bytes(self.timestamp)
            + self.proposer@ + vstd::bytes::spec_u32_to_le_bytes(self.verification_count)
            + vstd::bytes::spec_u32_to_le_bytes(self.version)
    }

    /// The block hash that the header determines.
    pub open spec fn spec_hash(&self) -> Id {
        crate::crypto::hash::Hash(blake3_digest(self.spec_hash_bytes()))
    }

    /// Compute the block hash
    pub fn compute_hash(&self) -> (r: Id)
        ensures
            r == self.spec_hash(),
    {
        let mut data: Vec<u8> = Vec::new();
        push_u64_le(&mut data, self.height);
        push_bytes(&mut data, self.parent_hash.0.as_slice());
        push_bytes(&mut data, self.solutions_root.0.as_slice());
        push_bytes(&mut data, self.state_root.0.as_slice());
        push_i64_le(&mut data, self.timestamp);
        push_bytes(&mut data, self.proposer.as_bytes());
        push_u32_le(&mut data, self.verification_count);
        push_u32_le(&mut data, self.version);
        assert(data@ =~= self.spec_hash_bytes());
        hash_data(data.as_slice())
    }
}

/// A verifier's attestation that they verified solutions in this block
#[derive(Debug)]
pub struct VerifierAttestation {
    /// The verifier's public key
    pub verifier: PublicKey,
    /// Hash of the block being attested
    pub block_hash: Id,
    /// List of solution IDs this verifier verified
    pub verified_solutions: Vec<Id>,
    /// Signature over the attestation
    pub signature: Signature,
}

impl VerifierAttestation {
    /// The bytes that the verifier signs: key, block hash and solution ids.
    pub open spec fn spec_signing_bytes(&self) -> Seq<u8> {
        self.verifier@ + self.block_hash.0@ + digest_bytes(self.verified_solutions@)
    }

    /// Whether the signature is accepted for the signing bytes under the
    /// verifier's key.
    pub open spec fn signature_ok(&self) -> bool {
        spec_verify(self.verifier@, self.spec_signing_bytes(), self.signature@).is_none()
    }

    /// Create a new attestation, not yet signed
    pub fn new(verifier: PublicKey, block_hash: Id, verified_solutions: Vec<Id>) -> (r: Self)
        ensures
            r.verifier == verifier,
            r.block_hash == block_hash,
            r.verified_solutions == verified_solutions,
            r.signature@ == Seq::new(SIGNATURE_SIZE as nat, |i: int| 0u8),
    {
        VerifierAttestation {
            verifier,
            block_hash,
            verified_solutions,
            signature: Signature::placeholder(),
        }
    }

    /// Get bytes to sign
    pub fn signing_bytes(&self) -> (data: Vec<u8>)
        ensures
            data@ == self.spec_signing_bytes(),
    {
        let mut data: Vec<u8> = Vec::new();
        push_bytes(&mut data, self.verifier.as_bytes());
        push_bytes(&mut data, self.block_hash.0.as_slice());
        push_digests(&mut data, self.verified_solutions.as_slice());
        assert(data@ =~= self.spec_signing_bytes());
        data
    }

    /// Verify the attestation signature
    pub fn verify_signature(&self) -> (r: Result<(), CryptoError>)
        ensures
            r.is_ok() == self.signature_ok(),
    {
        let bytes = self.signing_bytes();
        verify(&self.verifier, bytes.as_slice(), &self.signature)
    }
}

/// Initial balance allocation for genesis block
#[derive(Clone, Debug)]
pub struct GenesisAlloc {
    /// Address to credit
    pub address: Address,
    /// Amount to credit
    pub amount: HclawAmount,
    /// Label for this allocation (e.g., "bootstrap-us", "founder-1")
    pub label: String,
}

/// Block validation errors
#[derive(Clone, Copy, Debug, PartialEq, Eq, Structural)]
pub enum BlockError {
    /// Block hash doesn't match header
    HashMismatch,
    /// Solutions merkle root mismatch
    SolutionsRootMismatch,
    /// Invalid parent reference
    InvalidParent,
    /// Block height mismatch
    InvalidHeight {
        /// Height that was expected
        expected: u64,
        /// Height that was found
        got: u64,
    },
    /// Insufficient consensus
    InsufficientConsensus {
        /// Share of verifiers that attested, in percent
        percentage: u64,
    },
    /// Invalid attestation signature
    InvalidAttestation,
    /// Block timestamp too far in future
    FutureTimestamp,
}

/// A complete block
#[derive(Debug)]
pub struct Block {
    /// Block header
    pub header: BlockHeader,
    /// Block hash (computed from header)
    pub hash: Id,
    /// Verified solutions included in this block
    pub verifications: Vec<VerificationResult>,
    /// Attestations from verifiers (must have 66%+ agreement)
    pub attestations: Vec<VerifierAttestation>,
    /// Proposer's signature over the block
    pub proposer_signature: Signature,
    /// Encoded genesis job packet (only present in the genesis block)
    pub genesis_job: Option<Vec<u8>>,
    /// Initial balance allocations (genesis block only).
    /// These are applied directly to state, not through contract execution.
    pub genesis_alloc: Vec<GenesisAlloc>,
}

/// The solution ids of a list of verification results.
pub open spec fn solution_ids(verifications: Seq<VerificationResult>) -> Seq<Id> {
    verifications.map_values(|v: VerificationResult| v.solution_id)
}

/// The smallest number of attestations that is at least 66% of
/// `total_verifiers`.
pub open spec fn consensus_threshold(total_verifiers: int) -> int {
    (total_verifiers * 66 + 99) / 100
}

/// The first attestation whose signature does not verify, if there is one.
pub open spec fn all_attested(attestations: Seq<VerifierAttestation>) -> bool {
    forall|i: int| 0 <= i < attestations.len() ==> (#[trigger] attestations[i]).signature_ok()
}

impl Block {
    /// The bytes that the proposer signs: the block hash and the solution
    /// ids.
    pub open spec fn spec_signing_bytes(&self) -> Seq<u8> {
        self.hash.0@ + digest_bytes(solution_ids(self.verifications@))
    }

    /// What an integrity check finds: the first failure in the order hash,
    /// solutions root, attestations.
    pub open spec fn spec_integrity(&self) -> Result<(), BlockError> {
        if self.header.spec_hash() != self.hash {
            Err(BlockError::HashMismatch)
        } else if merkle_root_of(solution_ids(self.verifications@)) != self.header.solutions_root {
            Err(BlockError::SolutionsRootMismatch)
        } else if !all_attested(self.attestations@) {
            Err(BlockError::InvalidAttestation)
        } else {
            Ok(())
        }
    }

    /// Whether this is the block that the given values and a creation time
    /// determine: not yet attested and not yet signed.
    pub open spec fn is_fresh_from(
        &self,
        height: u64,
        parent_hash: Id,
        proposer: Seq<u8>,
        verifications: Seq<VerificationResult>,
        state_root: Id,
        timestamp: Timestamp,
    ) -> bool {
        &&& self.header.height == height
        &&& self.header.parent_hash == parent_hash
        &&& self.header.solutions_root == merkle_root_of(solution_ids(verifications))
        &&& self.header.state_root == state_root
        &&& self.header.timestamp == timestamp
        &&& self.header.proposer@ == proposer
        &&& self.header.verification_count == verifications.len() % 0x1_0000_0000
        &&& self.header.version == 1
        &&& self.hash == self.header.spec_hash()
        &&& self.verifications@ == verifications
        &&& self.attestations@.len() == 0
        &&& self.proposer_signature@ == Seq::new(SIGNATURE_SIZE as nat, |i: int| 0u8)
        &&& self.genesis_job.is_none()
        &&& self.genesis_alloc@.len() == 0
    }

    /// Create a new block, stamped with the current time.
    pub fn new(
        height: u64,
        parent_hash: Id,
        proposer: PublicKey,
        verifications: Vec<VerificationResult>,
        state_root: Id,
    ) -> (r: Self)
        ensures
            r.is_fresh_from(
                height,
                parent_hash,
                proposer@,
                verifications@,
                state_root,
                r.header.timestamp,
            ),
    {
        Self::new_at(height, parent_hash, proposer, verifications, state_root, now_millis())
    }

    /// Create a new block with a given creation time.
    pub fn new_at(
        height: u64,
        parent_hash: Id,
        proposer: PublicKey,
        verifications: Vec<VerificationResult>,
        state_root: Id,
        timestamp: Timestamp,
    ) -> (r: Self)
        ensures
            r.is_fresh_from(height, parent_hash, proposer@, verifications@, state_root, timestamp),
    {
        let solutions_root = Self::compute_solutions_root(verifications.as_slice());
        let header = BlockHeader {
            height,
            parent_hash,
            solutions_root,
            state_root,
            timestamp,
            proposer,
            verification_count: ((verifications.len() as u128) % 0x1_0000_0000) as u32,
            version: 1,
        };
        let hash = header.compute_hash();
        Block {
            header,
            hash,
            verifications,
            attestations: Vec::new(),
            proposer_signature: Signature::placeholder(),
            genesis_job: None,
            genesis_alloc: Vec::new(),
        }
    }

    /// Create the genesis block
    pub fn genesis(proposer: PublicKey) -> (r: Self)
        ensures
            r.is_fresh_from(
                0,
                zero_hash(),
                proposer@,
                Seq::empty(),
                zero_hash(),
                r.header.timestamp,
            ),
    {
        Self::new(
            0,
            crate::crypto::hash::Hash::zero(),
            proposer,
            Vec::new(),
            crate::crypto::hash::Hash::zero(),
        )
    }

    /// Create the genesis block with the genesis job and initial allocations.
    ///
    /// `job` and `alloc_encoding` are the encoded job packet and the encoded
    /// allocations; the block hash commits to the digests of both.
    pub fn genesis_with_job(
        proposer: PublicKey,
        job: Vec<u8>,
        alloc: Vec<GenesisAlloc>,
        alloc_encoding: &[u8],
    ) -> (r: Self)
        ensures
            r.header.height == 0,
            r.header.parent_hash == zero_hash(),
            r.header.proposer@ == proposer@,
            r.genesis_job == Some(job),
            r.genesis_alloc == alloc,
            r.hash == crate::crypto::hash::Hash(
                blake3_digest(
                    r.header.spec_hash().0@ + blake3_digest(job@)@ + blake3_digest(
                        alloc_encoding@,
                    )@,
                ),
            ),
    {
        let mut block = Self::new(
            0,
            crate::crypto::hash::Hash::zero(),
            proposer,
            Vec::new(),
            crate::crypto::hash::Hash::zero(),
        );
        let job_hash = hash_data(job.as_slice());
        let alloc_hash = hash_data(alloc_encoding);
        let mut data: Vec<u8> = Vec::new();
        push_bytes(&mut data, block.hash.0.as_slice());
        push_bytes(&mut data, job_hash.0.as_slice());
        push_bytes(&mut data, alloc_hash.0.as_slice());
        assert(data@ =~= block.hash.0@ + job_hash.0@ + alloc_hash.0@);
        block.genesis_job = Some(job);
        block.genesis_alloc = alloc;
        block.hash = hash_data(data.as_slice());
        block
    }

    /// Compute the merkle root of solutions
    pub fn compute_solutions_root(verifications: &[VerificationResult]) -> (r: Id)
        ensures
            r == merkle_root_of(solution_ids(verifications@)),
    {
        let mut hashes: Vec<Id> = Vec::new();
        let mut i: usize = 0;
        while i < verifications.len()
            invariant
                0 <= i <= verifications@.len(),
                hashes@ == solution_ids(verifications@).subrange(0, i as int),
            decreases verifications@.len() - i,
        {
            hashes.push(verifications[i].solution_id);
            assert(hashes@ =~= solution_ids(verifications@).subrange(0, i as int + 1));
            i += 1;
        }
        assert(hashes@ =~= solution_ids(verifications@));
        merkle_root(hashes.as_slice())
    }

    /// Add an attestation from a verifier
    pub fn add_attestation(&mut self, attestation: VerifierAttestation)
        ensures
            final(self).attestations@ == old(self).attestations@.push(attestation),
            final(self).header == old(self).header,
            final(self).hash == old(self).hash,
            final(self).verifications == old(self).verifications,
            final(self).proposer_signature == old(self).proposer_signature,
            final(self).genesis_job == old(self).genesis_job,
            final(self).genesis_alloc == old(self).genesis_alloc,
    {
        self.attestations.push(attestation);
    }

    /// Check if the block has reached consensus: attestations from at least
    /// 66% of the active verifiers, and from none where there are none.
    pub fn has_consensus(&self, total_verifiers: usize) -> (r: bool)
        ensures
            r == (total_verifiers != 0 && self.attestations@.len() >= consensus_threshold(
                total_verifiers as int,
            )),
    {
        if total_verifiers == 0 {
            return false;
        }
        let threshold: u128 = ((total_verifiers as u128) * 66 + 99) / 100;
        (self.attestations.len() as u128) >= threshold
    }

    /// The share of the active verifiers that attested, in percent, rounded
    /// down; zero where there are no verifiers.
    pub fn consensus_percentage(&self, total_verifiers: usize) -> (r: u128)
        ensures
            r == if total_verifiers == 0 {
                0
            } else {
                (self.attestations@.len() as int) * 100 / (total_verifiers as int)
            },
    {
        if total_verifiers == 0 {
            return 0;
        }
        (self.attestations.len() as u128) * 100 / (total_verifiers as u128)
    }

    /// Verify block integrity: the hash matches the header, the solutions
    /// root matches the verifications, and every attestation is signed.
    pub fn verify_integrity(&self) -> (r: Result<(), BlockError>)
        ensures
            r == self.spec_integrity(),
    {
        let computed_hash = self.header.compute_hash();
        if computed_hash != self.hash {
            return Err(BlockError::HashMismatch);
        }
        let computed_root = Self::compute_solutions_root(self.verifications.as_slice());
        if computed_root != self.header.solutions_root {
            return Err(BlockError::SolutionsRootMismatch);
        }
        let mut i: usize = 0;
        while i < self.attestations.len()
            invariant
                0 <= i <= self.attestations@.len(),
                self.header.spec_hash() == self.hash,
                merkle_root_of(solution_ids(self.verifications@)) == self.header.solutions_root,
                forall|j: int| 0 <= j < i ==> (#[trigger] self.attestations@[j]).signature_ok(),
            decreases self.attestations@.len() - i,
        {
            if self.attestations[i].verify_signature().is_err() {
                assert(!self.attestations@[i as int].signature_ok());
                return Err(BlockError::InvalidAttestation);
            }
            i += 1;
        }
        Ok(())
    }

    /// Get bytes to sign (for proposer signature)
    pub fn signing_bytes(&self) -> (data: Vec<u8>)
        ensures
            data@ == self.spec_signing_bytes(),
    {
        let mut data: Vec<u8> = Vec::new();
        push_bytes(&mut data, self.hash.0.as_slice());
        let mut i: usize = 0;
        assert(solution_ids(self.verifications@).subrange(0, 0) =~= Seq::empty());
        while i < self.verifications.len()
            invariant
                0 <= i <= self.verifications@.len(),
                data@ == self.hash.0@ + digest_bytes(
                    solution_ids(self.verifications@).subrange(0, i as int),
                ),
            decreases self.verifications@.len() - i,
        {
            let ghost prefix = solution_ids(self.verifications@).subrange(0, i as int + 1);
            assert(prefix.drop_last() =~= solution_ids(self.verifications@).subrange(0, i as int));
            assert(prefix.last() == self.verifications@[i as int].solution_id);
            push_bytes(&mut data, self.verifications[i].solution_id.0.as_slice());
            assert(data@ =~= self.hash.0@ + digest_bytes(prefix));
            i += 1;
        }
        assert(solution_ids(self.verifications@).subrange(0, self.verifications@.len() as int)
            =~= solution_ids(self.verifications@));
        data
    }
}

} // verus!
