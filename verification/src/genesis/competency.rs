//! One-time competency challenges for new verifiers.
//!
//! Before a verifier is activated and receives their airdrop, they must show
//! that they verify solutions correctly. The challenge presents a known-good
//! and a known-bad solution; the verifier must accept the good one and reject
//! the bad one. Pre-approved addresses skip this.

use vstd::prelude::*;
use vstd::string::*;

use crate::crypto::hash::{blake3_digest, hash_data};
use crate::encoding::{push_bytes, push_i64_le, push_text, spec_i64_to_le_bytes, text_bytes};
use crate::types::address::Address;
use crate::types::address_map::{AddressMap, AddressSet};
use crate::types::Timestamp;

verus! {

/// Challenge timeout (5 minutes)
pub const CHALLENGE_TIMEOUT_MS: i64 = 5 * 60 * 1000;

/// Cooldown between retries (1 minute)
pub const RETRY_COOLDOWN_MS: i64 = 60 * 1000;

/// Maximum retry attempts
pub const MAX_ATTEMPTS: u32 = 5;

/// Status of a competency challenge
#[derive(Debug, PartialEq, Eq)]
pub enum ChallengeStatus {
    /// Awaiting verifier's responses
    Pending,
    /// Verifier passed
    Passed,
    /// Verifier failed
    Failed {
        /// What went wrong
        reason: String,
    },
    /// Challenge expired without response
    Expired,
}

impl Clone for ChallengeStatus {
    fn clone(&self) -> (r: Self)
        ensures
            r == *self,
    {
        match self {
            ChallengeStatus::Pending => ChallengeStatus::Pending,
            ChallengeStatus::Passed => ChallengeStatus::Passed,
            ChallengeStatus::Failed { reason } => ChallengeStatus::Failed { reason: reason.clone() },
            ChallengeStatus::Expired => ChallengeStatus::Expired,
        }
    }
}

/// A competency challenge for a new verifier
#[derive(Debug)]
pub struct CompetencyChallenge {
    /// Unique challenge ID
    pub id: crate::types::Id,
    /// The verifier being tested
    pub verifier: Address,
    /// Hash of the valid test solution (verifier should accept this)
    pub valid_solution_hash: crate::types::Id,
    /// Hash of the invalid test solution (verifier should reject this)
    pub invalid_solution_hash: crate::types::Id,
    /// When the challenge was issued
    pub issued_at: Timestamp,
    /// Challenge expiry
    pub expires_at: Timestamp,
    /// Challenge status
    pub status: ChallengeStatus,
}

impl Clone for CompetencyChallenge {
    fn clone(&self) -> (r: Self)
        ensures
            r == *self,
    {
        CompetencyChallenge {
            id: self.id,
            verifier: self.verifier,
            valid_solution_hash: self.valid_solution_hash,
            invalid_solution_hash: self.invalid_solution_hash,
            issued_at: self.issued_at,
            expires_at: self.expires_at,
            status: self.status.clone(),
        }
    }
}

/// Competency challenge errors
#[derive(Clone, Copy, Debug, PartialEq, Eq, Structural)]
pub enum CompetencyError {
    /// Verifier already passed
    AlreadyVerified,
    /// Too many failed attempts
    TooManyAttempts,
    /// No pending challenge
    NoPendingChallenge,
    /// Challenge expired
    ChallengeExpired,
    /// Cooldown active
    CooldownActive {
        /// When the cooldown expires
        retry_after: Timestamp,
    },
}

impl CompetencyError {
    /// A human-readable description of the error.
    pub fn message(&self) -> (r: String)
        ensures
            self is AlreadyVerified ==> r@ == "verifier already passed competency check"@,
            self is TooManyAttempts ==> r@ == "too many failed attempts (max 5)"@,
            self is NoPendingChallenge ==> r@ == "no pending challenge for this verifier"@,
            self is ChallengeExpired ==> r@ == "challenge expired"@,
    {
        match self {
            CompetencyError::AlreadyVerified => String::from_str(
                "verifier already passed competency check",
            ),
            CompetencyError::TooManyAttempts => String::from_str(
                "too many failed attempts (max 5)",
            ),
            CompetencyError::NoPendingChallenge => String::from_str(
                "no pending challenge for this verifier",
            ),
            CompetencyError::ChallengeExpired => String::from_str("challenge expired"),
            CompetencyError::CooldownActive { retry_after } => String::from_str(
                "retry cooldown active, try again after ",
            ).concat(retry_after.to_string().as_str()),
        }
    }
}

/// `a + b`, kept within the range of a timestamp.
pub open spec fn clamped_sum(a: Timestamp, b: Timestamp) -> Timestamp {
    if a + b > i64::MAX {
        i64::MAX
    } else if a + b < i64::MIN {
        i64::MIN
    } else {
        (a + b) as i64
    }
}

fn add_clamped(a: Timestamp, b: Timestamp) -> (r: Timestamp)
    ensures
        r == clamped_sum(a, b),
{
    let sum: i128 = (a as i128) + (b as i128);
    if sum > i64::MAX as i128 {
        i64::MAX
    } else if sum < i64::MIN as i128 {
        i64::MIN
    } else {
        sum as i64
    }
}

/// The id of the challenge issued to a verifier at a time: the digest of the
/// verifier's address and the time.
pub open spec fn challenge_seed(verifier: Address, now: Timestamp) -> crate::types::Id {
    crate::crypto::hash::Hash(blake3_digest(verifier.0@ + spec_i64_to_le_bytes(now)))
}

/// The digest of a challenge id followed by a label.
pub open spec fn labelled(seed: crate::types::Id, label: Seq<char>) -> crate::types::Id {
    crate::crypto::hash::Hash(blake3_digest(seed.0@ + text_bytes(label)))
}

/// The challenge that is issued to a verifier at a time.
pub open spec fn challenge_for(verifier: Address, now: Timestamp) -> CompetencyChallenge {
    CompetencyChallenge {
        id: challenge_seed(verifier, now),
        verifier,
        valid_solution_hash: labelled(challenge_seed(verifier, now), "valid"@),
        invalid_solution_hash: labelled(challenge_seed(verifier, now), "invalid"@),
        issued_at: now,
        expires_at: clamped_sum(now, CHALLENGE_TIMEOUT_MS),
        status: ChallengeStatus::Pending,
    }
}

/// Manages competency challenges for verifier onboarding
pub struct CompetencyManager {
    /// Active challenges by verifier address
    challenges: AddressMap<CompetencyChallenge>,
    /// Addresses that have passed competency
    verified: AddressSet,
    /// Pre-approved addresses (skip challenge entirely)
    pre_approved: AddressSet,
    /// Failed attempt counts per address
    fail_counts: AddressMap<u32>,
    /// Last attempt timestamp per address (for cooldown)
    last_attempt: AddressMap<Timestamp>,
}

/// What a manager holds, as plain values.
pub struct CompetencyView {
    /// Challenges by verifier address
    pub challenges: Map<Address, CompetencyChallenge>,
    /// Addresses that have passed competency
    pub verified: Set<Address>,
    /// Pre-approved addresses
    pub pre_approved: Set<Address>,
    /// Failed attempt counts per address
    pub fail_counts: Map<Address, u32>,
    /// Last attempt timestamp per address
    pub last_attempt: Map<Address, Timestamp>,
}

impl CompetencyView {
    /// The number of failed attempts of a verifier.
    pub open spec fn failures(self, verifier: Address) -> u32 {
        if self.fail_counts.dom().contains(verifier) {
            self.fail_counts[verifier]
        } else {
            0
        }
    }

    /// Whether a verifier is still cooling down at a time.
    pub open spec fn cooling_down(self, verifier: Address, now: Timestamp) -> bool {
        self.last_attempt.dom().contains(verifier) && now - self.last_attempt[verifier]
            < RETRY_COOLDOWN_MS
    }

    /// Whether a verifier has a challenge that awaits its result.
    pub open spec fn pending(self, verifier: Address) -> bool {
        self.challenges.dom().contains(verifier) && self.challenges[verifier].status is Pending
    }
}

impl View for CompetencyManager {
    type V = CompetencyView;

    closed spec fn view(&self) -> CompetencyView {
        CompetencyView {
            challenges: self.challenges@,
            verified: self.verified@,
            pre_approved: self.pre_approved@,
            fail_counts: self.fail_counts@,
            last_attempt: self.last_attempt@,
        }
    }
}

impl CompetencyManager {
    /// Create a new manager with pre-approved addresses, which count as
    /// verified from the start.
    pub fn new(pre_approved: &[Address]) -> (r: Self)
        ensures
            r@ == (CompetencyView {
                challenges: Map::empty(),
                verified: pre_approved@.to_set(),
                pre_approved: pre_approved@.to_set(),
                fail_counts: Map::empty(),
                last_attempt: Map::empty(),
            }),
    {
        CompetencyManager {
            challenges: AddressMap::new(),
            verified: AddressSet::from_list(pre_approved),
            pre_approved: AddressSet::from_list(pre_approved),
            fail_counts: AddressMap::new(),
            last_attempt: AddressMap::new(),
        }
    }

    /// Check if an address is verified (passed competency or pre-approved)
    pub fn is_verified(&self, address: &Address) -> (r: bool)
        ensures
            r == self@.verified.contains(*address),
    {
        self.verified.contains(address)
    }

    /// Check if an address is pre-approved
    pub fn is_pre_approved(&self, address: &Address) -> (r: bool)
        ensures
            r == self@.pre_approved.contains(*address),
    {
        self.pre_approved.contains(address)
    }

    /// Generate a challenge for a verifier.
    ///
    /// Refused where the verifier is already verified, has failed too often,
    /// or tried less than a minute ago. The challenge is determined by the
    /// verifier's address and the time.
    pub fn generate_challenge(&mut self, verifier: Address, now: Timestamp) -> (r: Result<
        CompetencyChallenge,
        CompetencyError,
    >)
        ensures
            old(self)@.verified.contains(verifier) ==> r == Err::<
                CompetencyChallenge,
                CompetencyError,
            >(CompetencyError::AlreadyVerified) && final(self)@ == old(self)@,
            !old(self)@.verified.contains(verifier) && old(self)@.failures(verifier) >= MAX_ATTEMPTS
                ==> r == Err::<CompetencyChallenge, CompetencyError>(
                CompetencyError::TooManyAttempts,
            ) && final(self)@ == old(self)@,
            !old(self)@.verified.contains(verifier) && old(self)@.failures(verifier) < MAX_ATTEMPTS
                && old(self)@.cooling_down(verifier, now) ==> r == Err::<
                CompetencyChallenge,
                CompetencyError,
            >(
                CompetencyError::CooldownActive {
                    retry_after: clamped_sum(old(self)@.last_attempt[verifier], RETRY_COOLDOWN_MS),
                },
            ) && final(self)@ == old(self)@,
            !old(self)@.verified.contains(verifier) && old(self)@.failures(verifier) < MAX_ATTEMPTS
                && !old(self)@.cooling_down(verifier, now) ==> r == Ok::<
                CompetencyChallenge,
                CompetencyError,
            >(challenge_for(verifier, now)) && final(self)@ == (CompetencyView {
                challenges: old(self)@.challenges.insert(verifier, challenge_for(verifier, now)),
                last_attempt: old(self)@.last_attempt.insert(verifier, now),
                ..old(self)@
            }),
    {
        if self.verified.contains(&verifier) {
            return Err(CompetencyError::AlreadyVerified);
        }
        match self.fail_counts.get(&verifier) {
            Some(count) => {
                if *count >= MAX_ATTEMPTS {
                    return Err(CompetencyError::TooManyAttempts);
                }
            },
            None => {},
        }
        match self.last_attempt.get(&verifier) {
            Some(last) => {
                let since: i128 = (now as i128) - (*last as i128);
                if since < RETRY_COOLDOWN_MS as i128 {
                    return Err(
                        CompetencyError::CooldownActive {
                            retry_after: add_clamped(*last, RETRY_COOLDOWN_MS),
                        },
                    );
                }
            },
            None => {},
        }
        let mut data: Vec<u8> = Vec::new();
        push_bytes(&mut data, verifier.0.as_slice());
        push_i64_le(&mut data, now);
        assert(data@ =~= verifier.0@ + spec_i64_to_le_bytes(now));
        let seed = hash_data(data.as_slice());

        let mut valid_data: Vec<u8> = Vec::new();
        push_bytes(&mut valid_data, seed.0.as_slice());
        push_text(&mut valid_data, "valid");
        assert(valid_data@ =~= seed.0@ + text_bytes("valid"@));
        let valid_hash = hash_data(valid_data.as_slice());

        let mut invalid_data: Vec<u8> = Vec::new();
        push_bytes(&mut invalid_data, seed.0.as_slice());
        push_text(&mut invalid_data, "invalid");
        assert(invalid_data@ =~= seed.0@ + text_bytes("invalid"@));
        let invalid_hash = hash_data(invalid_data.as_slice());

        let challenge = CompetencyChallenge {
            id: seed,
            verifier,
            valid_solution_hash: valid_hash,
            invalid_solution_hash: invalid_hash,
            issued_at: now,
            expires_at: add_clamped(now, CHALLENGE_TIMEOUT_MS),
            status: ChallengeStatus::Pending,
        };
        self.challenges.insert(verifier, challenge.clone());
        self.last_attempt.insert(verifier, now);
        Ok(challenge)
    }

    /// Submit challenge results.
    ///
    /// `accepted_valid`: did the verifier accept the valid solution?
    /// `rejected_invalid`: did the verifier reject the invalid solution?
    pub fn submit_result(
        &mut self,
        verifier: &Address,
        accepted_valid: bool,
        rejected_invalid: bool,
        now: Timestamp,
    ) -> (r: Result<ChallengeStatus, CompetencyError>)
        ensures
            final(self)@.pre_approved == old(self)@.pre_approved,
            final(self)@.last_attempt == old(self)@.last_attempt,
            !old(self)@.pending(*verifier) ==> r == Err::<ChallengeStatus, CompetencyError>(
                CompetencyError::NoPendingChallenge,
            ) && final(self)@ == old(self)@,
            old(self)@.pending(*verifier) && now > old(self)@.challenges[*verifier].expires_at
                ==> r == Err::<ChallengeStatus, CompetencyError>(CompetencyError::ChallengeExpired)
                && final(self)@ == (CompetencyView {
                challenges: old(self)@.challenges.insert(
                    *verifier,
                    CompetencyChallenge {
                        status: ChallengeStatus::Expired,
                        ..old(self)@.challenges[*verifier]
                    },
                ),
                ..old(self)@
            }),
            old(self)@.pending(*verifier) && now <= old(self)@.challenges[*verifier].expires_at
                && accepted_valid && rejected_invalid ==> r == Ok::<
                ChallengeStatus,
                CompetencyError,
            >(ChallengeStatus::Passed) && final(self)@ == (CompetencyView {
                challenges: old(self)@.challenges.insert(
                    *verifier,
                    CompetencyChallenge {
                        status: ChallengeStatus::Passed,
                        ..old(self)@.challenges[*verifier]
                    },
                ),
                verified: old(self)@.verified.insert(*verifier),
                ..old(self)@
            }),
            old(self)@.pending(*verifier) && now <= old(self)@.challenges[*verifier].expires_at
                && !(accepted_valid && rejected_invalid) ==> r is Ok && r->Ok_0 is Failed && final(self)@.verified == old(self)@.verified && final(self)@.fail_counts == old(self)@.fail_counts.insert(
                *verifier,
                crate::genesis::liveness::one_more(old(self)@.failures(*verifier)),
            ) && final(self)@.challenges == old(self)@.challenges.insert(
                *verifier,
                CompetencyChallenge { status: r->Ok_0, ..old(self)@.challenges[*verifier] },
            ),
    {
        let mut challenge = match self.challenges.get(verifier) {
            None => {
                return Err(CompetencyError::NoPendingChallenge);
            },
            Some(c) => c.clone(),
        };
        match challenge.status {
            ChallengeStatus::Pending => {},
            _ => {
                return Err(CompetencyError::NoPendingChallenge);
            },
        }
        if now > challenge.expires_at {
            challenge.status = ChallengeStatus::Expired;
            self.challenges.insert(*verifier, challenge);
            return Err(CompetencyError::ChallengeExpired);
        }
        if accepted_valid && rejected_invalid {
            challenge.status = ChallengeStatus::Passed;
            self.challenges.insert(*verifier, challenge);
            self.verified.insert(*verifier);
            Ok(ChallengeStatus::Passed)
        } else {
            let reason = if !accepted_valid && !rejected_invalid {
                "failed to accept valid solution AND failed to reject invalid solution"
            } else if !accepted_valid {
                "failed to accept the valid solution"
            } else {
                "failed to reject the invalid solution"
            };
            let status = ChallengeStatus::Failed { reason: String::from_str(reason) };
            challenge.status = status.clone();
            self.challenges.insert(*verifier, challenge);
            let count: u32 = match self.fail_counts.get(verifier) {
                Some(c) => *c,
                None => 0,
            };
            let next: u32 = if count == u32::MAX {
                count
            } else {
                count + 1
            };
            self.fail_counts.insert(*verifier, next);
            Ok(status)
        }
    }

    /// Get the challenge of a verifier, whatever its status
    pub fn get_challenge(&self, verifier: &Address) -> (r: Option<&CompetencyChallenge>)
        ensures
            r == if self@.challenges.dom().contains(*verifier) {
                Some(&self@.challenges[*verifier])
            } else {
                None
            },
    {
        self.challenges.get(verifier)
    }

    /// Number of verified verifiers
    pub fn verified_count(&self) -> (r: usize)
        ensures
            r == self@.verified.len(),
    {
        self.verified.len()
    }
}

} // verus!
