//! Contract loading infrastructure.
//!
//! Loads contracts from deployment payloads and routes them to the right
//! runtime: a payload that is the marker of a built-in contract loads that
//! contract, and a payload that begins with the WebAssembly magic number goes
//! to the sandboxed backend, where one is installed.

use vstd::prelude::*;
use vstd::string::*;

use super::genesis_bounty::{
    bounty_home, is_bounty_execution, is_root_verdict, spec_genesis_bounty_contract_id,
    GenesisBountyContract,
};
use super::governance::{
    governance_home, is_governance_execution, spec_governance_contract_id, GovernanceContract,
};
use super::journal::Journal;
use super::transaction::ContractTransaction;
use super::{is_failure, Contract, ContractError, ContractResult, ExecutionResult};
use crate::encoding::{bytes_eq, starts_with, text_bytes};
use crate::types::Id;

verus! {

/// The marker of the genesis bounty contract
pub const NATIVE_GENESIS_BOUNTY: &'static str = "native:genesis_bounty_v1";

/// The marker of the governance contract
pub const NATIVE_GOVERNANCE: &'static str = "native:governance_v1";

/// The magic number at the front of WebAssembly bytecode: `\0asm`
pub const WASM_MAGIC: [u8; 4] = [0x00, 0x61, 0x73, 0x6d];

/// What a payload of no known format is told
pub const UNKNOWN_FORMAT: &'static str = "Unknown contract format";

/// What sandboxed bytecode is told where no backend is installed
pub const NO_SANDBOX: &'static str = "No sandboxed backend is installed for WASM contracts";

/// What a deployment payload is.
#[derive(Clone, Copy, Debug, PartialEq, Eq, Structural)]
pub enum PayloadFormat {
    /// The marker of the genesis bounty contract
    GenesisBounty,
    /// The marker of the governance contract
    Governance,
    /// Sandboxed bytecode
    Sandboxed,
    /// Neither the marker of a built-in contract nor sandboxed bytecode
    Unknown,
}

/// Whether a byte string begins with another.
pub open spec fn begins_with(bytes: Seq<u8>, prefix: Seq<u8>) -> bool {
    prefix.len() <= bytes.len() && bytes.subrange(0, prefix.len() as int) == prefix
}

/// What a deployment payload is: the marker of a built-in contract, byte
/// for byte; failing that, sandboxed bytecode where it begins with the
/// WebAssembly magic number; and else nothing known.
pub open spec fn format_of(code: Seq<u8>) -> PayloadFormat {
    if code == text_bytes(NATIVE_GENESIS_BOUNTY@) {
        PayloadFormat::GenesisBounty
    } else if code == text_bytes(NATIVE_GOVERNANCE@) {
        PayloadFormat::Governance
    } else if begins_with(code, WASM_MAGIC@) {
        PayloadFormat::Sandboxed
    } else {
        PayloadFormat::Unknown
    }
}

/// Decide what a deployment payload is.
pub fn detect_format(code: &[u8]) -> (r: PayloadFormat)
    ensures
        r == format_of(code@),
{
    if bytes_eq(code, NATIVE_GENESIS_BOUNTY.as_bytes()) {
        PayloadFormat::GenesisBounty
    } else if bytes_eq(code, NATIVE_GOVERNANCE.as_bytes()) {
        PayloadFormat::Governance
    } else if starts_with(code, WASM_MAGIC.as_slice()) {
        PayloadFormat::Sandboxed
    } else {
        PayloadFormat::Unknown
    }
}

/// A trait for loading contracts from bytecode
pub trait ContractLoader: Send + Sync {
    /// What this loader says of the result of loading a payload under an
    /// id. A loader that does not say otherwise says nothing.
    open spec fn loads(&self, id: Id, code: Seq<u8>, r: ContractResult<Box<dyn Contract>>) -> bool {
        true
    }

    /// Try to load a contract from bytecode
    fn load(&self, id: Id, code: &[u8]) -> (r: ContractResult<Box<dyn Contract>>)
        ensures
            self.loads(id, code@, r),
    ;
}

/// Whether a result is what the native loader gives for a payload: the
/// built-in contract whose marker the payload is, byte for byte, and the
/// failure of an unknown format where it is the marker of none.
pub open spec fn is_native_load(code: Seq<u8>, r: ContractResult<Box<dyn Contract>>) -> bool {
    if code == text_bytes(NATIVE_GENESIS_BOUNTY@) {
        r is Ok && is_bounty_contract(r->Ok_0)
    } else if code == text_bytes(NATIVE_GOVERNANCE@) {
        r is Ok && is_governance_contract(r->Ok_0)
    } else {
        is_failure(r, UNKNOWN_FORMAT@)
    }
}

/// Whether a contract is the genesis bounty contract: it has its id, and it
/// executes and verifies as the genesis bounty contract does.
pub open spec fn is_bounty_contract<C: Contract + ?Sized>(contract: Box<C>) -> bool {
    &&& contract.contract_id() == spec_genesis_bounty_contract_id()
    &&& forall|
        before: Journal,
        tx: ContractTransaction,
        r: ContractResult<ExecutionResult>,
        after: Journal,
    | #[trigger]
        contract.executes(before, tx, r, after) == is_bounty_execution(
            bounty_home(),
            spec_genesis_bounty_contract_id(),
            before,
            tx,
            r,
            after,
        )
    &&& forall|
        journal: Journal,
        tx: ContractTransaction,
        result: ExecutionResult,
        r: ContractResult<bool>,
    | #[trigger]
        contract.verifies(journal, tx, result, r) == is_root_verdict(journal, result, r)
}

/// Whether a contract is the governance contract: it has its id, and it
/// executes and verifies as the governance contract does.
pub open spec fn is_governance_contract<C: Contract + ?Sized>(contract: Box<C>) -> bool {
    &&& contract.contract_id() == spec_governance_contract_id()
    &&& forall|
        before: Journal,
        tx: ContractTransaction,
        r: ContractResult<ExecutionResult>,
        after: Journal,
    | #[trigger]
        contract.executes(before, tx, r, after) == is_governance_execution(
            governance_home(),
            spec_governance_contract_id(),
            before,
            tx,
            r,
            after,
        )
    &&& forall|
        journal: Journal,
        tx: ContractTransaction,
        result: ExecutionResult,
        r: ContractResult<bool>,
    | #[trigger]
        contract.verifies(journal, tx, result, r) == is_root_verdict(journal, result, r)
}

/// Loads native implementations (Genesis contracts)
pub struct NativeLoader {}

/// The main contract loader that delegates to specific runtimes
pub struct UniversalLoader {
    native_loader: NativeLoader,
    sandbox: Option<Box<dyn ContractLoader>>,
}

impl NativeLoader {
    /// Load the built-in contract whose marker a payload is.
    pub fn load_native(&self, code: &[u8]) -> (r: ContractResult<Box<dyn Contract>>)
        ensures
            is_native_load(code@, r),
    {
        if bytes_eq(code, NATIVE_GENESIS_BOUNTY.as_bytes()) {
            let contract: Box<dyn Contract> = Box::new(GenesisBountyContract::new(0));
            let loaded = Ok(contract);
            loaded
        } else if bytes_eq(code, NATIVE_GOVERNANCE.as_bytes()) {
            let contract: Box<dyn Contract> = Box::new(GovernanceContract::new());
            let loaded = Ok(contract);
            loaded
        } else {
            Err(ContractError::ExecutionFailed(String::from_str(UNKNOWN_FORMAT)))
        }
    }
}

impl ContractLoader for NativeLoader {
    /// The native loader goes by the payload alone.
    open spec fn loads(&self, id: Id, code: Seq<u8>, r: ContractResult<Box<dyn Contract>>) -> bool {
        is_native_load(code, r)
    }

    fn load(&self, _id: Id, code: &[u8]) -> (r: ContractResult<Box<dyn Contract>>) {
        self.load_native(code)
    }
}

impl UniversalLoader {
    /// Whether a sandboxed backend is installed.
    pub closed spec fn has_sandbox(&self) -> bool {
        self.sandbox is Some
    }

    /// What the installed backend says of the result of loading a payload
    /// under an id; nothing where none is installed.
    pub closed spec fn sandbox_loads(
        &self,
        id: Id,
        code: Seq<u8>,
        r: ContractResult<Box<dyn Contract>>,
    ) -> bool {
        match self.sandbox {
            Some(backend) => backend.loads(id, code, r),
            None => true,
        }
    }

    /// Whether a result is what this loader gives for a payload under an id.
    ///
    /// The marker of a built-in contract is resolved by the native loader.
    /// Sandboxed bytecode is handed, with the id, to the backend, and
    /// refused where none is installed. Anything else is refused.
    pub open spec fn is_load(&self, id: Id, code: Seq<u8>, r: ContractResult<Box<dyn Contract>>) -> bool {
        match format_of(code) {
            PayloadFormat::GenesisBounty | PayloadFormat::Governance => is_native_load(code, r),
            PayloadFormat::Sandboxed => if self.has_sandbox() {
                self.sandbox_loads(id, code, r)
            } else {
                is_failure(r, NO_SANDBOX@)
            },
            PayloadFormat::Unknown => is_failure(r, UNKNOWN_FORMAT@),
        }
    }

    /// Create a new universal loader with the native runtime only.
    pub fn new() -> (r: Self)
        ensures
            !r.has_sandbox(),
    {
        UniversalLoader { native_loader: NativeLoader {  }, sandbox: None }
    }

    /// Create a universal loader with the native runtime and a backend for
    /// sandboxed bytecode.
    pub fn with_sandbox(backend: Box<dyn ContractLoader>) -> (r: Self)
        ensures
            r.has_sandbox(),
            forall|id: Id, code: Seq<u8>, loaded: ContractResult<Box<dyn Contract>>|
                #[trigger] r.sandbox_loads(id, code, loaded) == backend.loads(id, code, loaded),
    {
        let sandbox = Some(backend);
        UniversalLoader { native_loader: NativeLoader {  }, sandbox }
    }

    /// Load a contract from its deployment payload.
    ///
    /// The marker of a built-in contract resolves to that contract.
    /// Sandboxed bytecode is handed to the sandboxed backend, and refused
    /// where none is installed. Anything else is refused.
    pub fn load_contract(&self, id: Id, code: &[u8]) -> (r: ContractResult<Box<dyn Contract>>)
        ensures
            self.is_load(id, code@, r),
            format_of(code@) is GenesisBounty ==> r is Ok && is_bounty_contract(r->Ok_0),
            format_of(code@) is Governance ==> r is Ok && is_governance_contract(r->Ok_0),
            format_of(code@) is Unknown ==> is_failure(r, UNKNOWN_FORMAT@),
    {
        match detect_format(code) {
            PayloadFormat::GenesisBounty | PayloadFormat::Governance => self.native_loader.load_native(
                code,
            ),
            PayloadFormat::Sandboxed => match &self.sandbox {
                Some(backend) => backend.load(id, code),
                None => Err(
                    ContractError::ExecutionFailed(
                        String::from_str(NO_SANDBOX),
                    ),
                ),
            },
            PayloadFormat::Unknown => Err(
                ContractError::ExecutionFailed(String::from_str(UNKNOWN_FORMAT)),
            ),
        }
    }
}

/// Whether a result is what the universal loader without a backend gives
/// for a payload: the built-in contract whose marker the payload is, and
/// else a failure, which for sandboxed bytecode tells of the missing
/// backend.
pub open spec fn is_plain_load(code: Seq<u8>, r: ContractResult<Box<dyn Contract>>) -> bool {
    match format_of(code) {
        PayloadFormat::GenesisBounty | PayloadFormat::Governance => is_native_load(code, r),
        PayloadFormat::Sandboxed => is_failure(r, NO_SANDBOX@),
        PayloadFormat::Unknown => is_failure(r, UNKNOWN_FORMAT@),
    }
}

impl Default for UniversalLoader {
    fn default() -> (r: Self)
        ensures
            !r.has_sandbox(),
    {
        Self::new()
    }
}

impl ContractLoader for UniversalLoader {
    /// The universal loader goes by the format of the payload.
    open spec fn loads(&self, id: Id, code: Seq<u8>, r: ContractResult<Box<dyn Contract>>) -> bool {
        self.is_load(id, code, r)
    }

    fn load(&self, id: Id, code: &[u8]) -> (r: ContractResult<Box<dyn Contract>>) {
        self.load_contract(id, code)
    }
}

} // verus!
