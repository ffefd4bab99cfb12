//! Contract transaction types.
//!
//! Transactions are proposals to execute contract logic. They name the
//! contract, carry its input, and are signed by their sender.

use vstd::prelude::*;

use crate::crypto::hash::{blake3_digest, hash_data};
use crate::crypto::signature::{spec_verify, verify, PublicKey, Signature, SIGNATURE_SIZE};
use crate::crypto::CryptoError;
use crate::encoding::{push_bytes, push_i64_le, push_u128_le, push_u64_le, spec_i64_to_le_bytes};
use crate::types::address::Address;
use crate::types::amount::HclawAmount;
use crate::types::{now_millis, Id, Timestamp};

verus! {

/// A transaction that executes a smart contract
#[derive(Debug)]
pub struct ContractTransaction {
    /// Transaction ID (hash of contents)
    pub id: Id,
    /// Contract to execute
    pub contract_id: Id,
    /// Sender's public key
    pub sender: PublicKey,
    /// Sender's address
    pub sender_address: Address,
    /// Input data for contract execution
    pub input: Vec<u8>,
    /// Maximum gas willing to pay
    pub gas_limit: u64,
    /// Gas price (HCLAW per unit)
    pub gas_price: HclawAmount,
    /// Nonce (for ordering transactions from same sender)
    pub nonce: u64,
    /// When transaction was created
    pub timestamp: Timestamp,
    /// Sender's signature
    pub signature: Signature,
}

impl Clone for ContractTransaction {
    fn clone(&self) -> (r: Self)
        ensures
            r.same_as(*self),
    {
        ContractTransaction {
            id: self.id,
            contract_id: self.contract_id,
            sender: self.sender.clone(),
            sender_address: self.sender_address,
            input: crate::encoding::copy_bytes(self.input.as_slice()),
            gas_limit: self.gas_limit,
            gas_price: self.gas_price,
            nonce: self.nonce,
            timestamp: self.timestamp,
            signature: self.signature.clone(),
        }
    }
}

impl ContractTransaction {
    /// Whether two transactions hold the same values in every field.
    pub open spec fn same_as(self, other: Self) -> bool {
        &&& self.id == other.id
        &&& self.contract_id == other.contract_id
        &&& self.sender@ == other.sender@
        &&& self.sender_address == other.sender_address
        &&& self.input@ == other.input@
        &&& self.gas_limit == other.gas_limit
        &&& self.gas_price == other.gas_price
        &&& self.nonce == other.nonce
        &&& self.timestamp == other.timestamp
        &&& self.signature@ == other.signature@
    }

    /// The bytes whose digest is the transaction's id: every field but the
    /// id and the signature.
    pub open spec fn spec_id_bytes(self) -> Seq<u8> {
        self.contract_id.0@ + self.sender@ + self.input@ + vstd::bytes::spec_u64_to_le_bytes(
            self.gas_limit,
        ) + vstd::bytes::spec_u128_to_le_bytes(self.gas_price.0)
            + vstd::bytes::spec_u64_to_le_bytes(self.nonce) + spec_i64_to_le_bytes(self.timestamp)
    }

    /// The id that the fields determine.
    pub open spec fn spec_id(self) -> Id {
        crate::crypto::hash::Hash(blake3_digest(self.spec_id_bytes()))
    }

    /// The bytes that the sender signs.
    pub open spec fn spec_signing_bytes(self) -> Seq<u8> {
        self.id.0@ + self.contract_id.0@ + self.sender@ + self.input@
            + vstd::bytes::spec_u64_to_le_bytes(self.gas_limit)
            + vstd::bytes::spec_u128_to_le_bytes(self.gas_price.0)
            + vstd::bytes::spec_u64_to_le_bytes(self.nonce)
    }

    /// The largest fee that the transaction can cost: gas limit times gas
    /// price.
    pub open spec fn spec_max_fee(self) -> int {
        self.gas_price.0 as int * self.gas_limit as int
    }

    /// Whether the signature is accepted for the signing bytes under the
    /// sender's key.
    pub open spec fn signature_ok(self) -> bool {
        spec_verify(self.sender@, self.spec_signing_bytes(), self.signature@).is_none()
    }

    /// Whether this is the unsigned transaction that the given values and a
    /// creation time determine.
    pub open spec fn is_unsigned_from(
        self,
        contract_id: Id,
        sender: Seq<u8>,
        input: Seq<u8>,
        gas_limit: u64,
        gas_price: HclawAmount,
        nonce: u64,
        timestamp: Timestamp,
    ) -> bool {
        &&& self.contract_id == contract_id
        &&& self.sender@ == sender
        &&& self.sender_address.0@ == blake3_digest(sender)@.subrange(0, 20)
        &&& self.input@ == input
        &&& self.gas_limit == gas_limit
        &&& self.gas_price == gas_price
        &&& self.nonce == nonce
        &&& self.timestamp == timestamp
        &&& self.signature@ == Seq::new(SIGNATURE_SIZE as nat, |i: int| 0u8)
        &&& self.id == self.spec_id()
    }

    /// Create new contract transaction (unsigned), stamped with the current
    /// time. The time is whatever the clock says; everything else is
    /// determined by the arguments.
    pub fn new(
        contract_id: Id,
        sender: PublicKey,
        input: Vec<u8>,
        gas_limit: u64,
        gas_price: HclawAmount,
        nonce: u64,
    ) -> (tx: Self)
        ensures
            tx.is_unsigned_from(
                contract_id,
                sender@,
                input@,
                gas_limit,
                gas_price,
                nonce,
                tx.timestamp,
            ),
    {
        Self::new_at(contract_id, sender, input, gas_limit, gas_price, nonce, now_millis())
    }

    /// Create new contract transaction (unsigned) with a given creation time.
    pub fn new_at(
        contract_id: Id,
        sender: PublicKey,
        input: Vec<u8>,
        gas_limit: u64,
        gas_price: HclawAmount,
        nonce: u64,
        timestamp: Timestamp,
    ) -> (tx: Self)
        ensures
            tx.is_unsigned_from(
                contract_id,
                sender@,
                input@,
                gas_limit,
                gas_price,
                nonce,
                timestamp,
            ),
    {
        let sender_address = Address::from_public_key(&sender);
        let mut tx = ContractTransaction {
            id: crate::crypto::hash::Hash::zero(),
            contract_id,
            sender,
            sender_address,
            input,
            gas_limit,
            gas_price,
            nonce,
            timestamp,
            signature: Signature::placeholder(),
        };
        let id = tx.compute_id();
        tx.id = id;
        tx
    }

    /// Compute transaction ID: the digest of every field but the id and the
    /// signature.
    pub fn compute_id(&self) -> (id: Id)
        ensures
            id == self.spec_id(),
    {
        let mut data: Vec<u8> = Vec::new();
        push_bytes(&mut data, self.contract_id.0.as_slice());
        push_bytes(&mut data, self.sender.as_bytes());
        push_bytes(&mut data, self.input.as_slice());
        push_u64_le(&mut data, self.gas_limit);
        push_u128_le(&mut data, self.gas_price.0);
        push_u64_le(&mut data, self.nonce);
        push_i64_le(&mut data, self.timestamp);
        assert(data@ =~= self.spec_id_bytes());
        hash_data(data.as_slice())
    }

    /// Get bytes to sign
    pub fn signing_bytes(&self) -> (data: Vec<u8>)
        ensures
            data@ == self.spec_signing_bytes(),
    {
        let mut data: Vec<u8> = Vec::new();
        push_bytes(&mut data, self.id.0.as_slice());
        push_bytes(&mut data, self.contract_id.0.as_slice());
        push_bytes(&mut data, self.sender.as_bytes());
        push_bytes(&mut data, self.input.as_slice());
        push_u64_le(&mut data, self.gas_limit);
        push_u128_le(&mut data, self.gas_price.0);
        push_u64_le(&mut data, self.nonce);
        assert(data@ =~= self.spec_signing_bytes());
        data
    }

    /// Verify transaction signature over the signing bytes.
    pub fn verify_signature(&self) -> (r: Result<(), CryptoError>)
        ensures
            r.is_ok() == self.signature_ok(),
            match spec_verify(self.sender@, self.spec_signing_bytes(), self.signature@) {
                None => r.is_ok(),
                Some(true) => r matches Err(CryptoError::InvalidPublicKey(m)) && m@
                    == crate::crypto::signature::WRONG_LENGTH@,
                Some(false) => r is Err && r->Err_0 is InvalidSignature,
            },
    {
        let bytes = self.signing_bytes();
        verify(&self.sender, bytes.as_slice(), &self.signature)
    }

    /// Maximum fee (`gas_limit` * `gas_price`), capped at the largest
    /// representable amount.
    pub fn max_fee(&self) -> (fee: HclawAmount)
        ensures
            fee.0 == if self.spec_max_fee() > u128::MAX {
                u128::MAX as int
            } else {
                self.spec_max_fee()
            },
    {
        match self.gas_price.0.checked_mul(self.gas_limit as u128) {
            Some(fee) => HclawAmount(fee),
            None => HclawAmount(u128::MAX),
        }
    }
}

/// Types of contract transactions
#[derive(Debug)]
pub enum TransactionKind {
    /// Execute a contract
    Execute(ContractTransaction),
    /// Deploy a new contract
    Deploy {
        /// Contract bytecode/definition
        code: Vec<u8>,
        /// Initialization parameters
        init_data: Vec<u8>,
        /// Deployer
        deployer: Address,
    },
    /// Upgrade an existing contract
    Upgrade {
        /// Contract ID to upgrade
        contract_id: Id,
        /// New code
        new_code: Vec<u8>,
        /// Upgrader address
        upgrader: Address,
    },
}

} // verus!
