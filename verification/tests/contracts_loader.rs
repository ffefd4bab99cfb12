use hardclaw::contracts::genesis_bounty::genesis_bounty_contract_id;
use hardclaw::contracts::governance::governance_contract_id;
use hardclaw::contracts::loader::{
    detect_format, ContractLoader, NativeLoader, PayloadFormat, UniversalLoader,
};
use hardclaw::contracts::processor::{derive_contract_id, TransactionProcessor};
use hardclaw::contracts::state::ContractState;
use hardclaw::contracts::transaction::{ContractTransaction, TransactionKind};
use hardclaw::contracts::{
    Contract, ContractError, ContractRegistry, ContractResult, ExecutionResult,
};
use hardclaw::crypto::hash::hash_data;
use hardclaw::contracts::wasm::{sandboxed_outcome, SandboxRun, WASM_GAS};
use hardclaw::state::account::{AccountState, Ledger};
use hardclaw::types::amount::HclawAmount;
use hardclaw::state::storage::ContractStorage;
use hardclaw::types::address::Address;
use hardclaw::types::Id;

/// A contract that does nothing, under the id it was loaded with.
struct Inert {
    id: Id,
}

impl Contract for Inert {
    fn contract_id(&self) -> Id {
        self.id()
    }

    fn id(&self) -> Id {
        self.id
    }

    fn name(&self) -> &str {
        "Inert"
    }

    fn version(&self) -> u32 {
        7
    }

    fn execute(
        &self,
        state: &mut ContractState,
        _tx: &ContractTransaction,
    ) -> ContractResult<ExecutionResult> {
        Ok(ExecutionResult {
            new_state_root: state.compute_state_root(),
            gas_used: 0,
            events: Vec::new(),
            output: Vec::new(),
        })
    }

    fn verify(
        &self,
        _state: &ContractState,
        _tx: &ContractTransaction,
        _result: &ExecutionResult,
    ) -> ContractResult<bool> {
        Ok(true)
    }
}

/// A backend that loads every payload as an inert contract.
struct InertBackend;

impl ContractLoader for InertBackend {
    fn load(&self, id: Id, _code: &[u8]) -> ContractResult<Box<dyn Contract>> {
        Ok(Box::new(Inert { id }))
    }
}

const WASM: [u8; 8] = [0x00, 0x61, 0x73, 0x6d, 0x01, 0x00, 0x00, 0x00];

#[test]
fn payload_formats_are_told_apart() {
    assert_eq!(detect_format(b"native:genesis_bounty_v1"), PayloadFormat::GenesisBounty);
    assert_eq!(detect_format(b"native:governance_v1"), PayloadFormat::Governance);
    // a marker is matched byte for byte
    assert_eq!(detect_format(b"native:genesis_bounty_v1\n"), PayloadFormat::Unknown);
    assert_eq!(detect_format(b" native:governance_v1"), PayloadFormat::Unknown);
    assert_eq!(detect_format(b"native:governance_v1 "), PayloadFormat::Unknown);
    assert_eq!(detect_format(b"native:governance_v2"), PayloadFormat::Unknown);
    assert_eq!(detect_format(b"native:unknown_v9"), PayloadFormat::Unknown);
    assert_eq!(detect_format(b"native:"), PayloadFormat::Unknown);
    assert_eq!(detect_format(&WASM), PayloadFormat::Sandboxed);
    assert_eq!(detect_format(&WASM[..4]), PayloadFormat::Sandboxed);
    assert_eq!(detect_format(&WASM[..3]), PayloadFormat::Unknown);
    assert_eq!(detect_format(b""), PayloadFormat::Unknown);
    assert_eq!(detect_format(b"garbage"), PayloadFormat::Unknown);
}

#[test]
fn native_markers_load_the_built_in_contracts() {
    let loader = NativeLoader {};
    let bounty = loader.load_native(b"native:genesis_bounty_v1").ok().expect("bounty loads");
    assert_eq!(bounty.id(), genesis_bounty_contract_id());
    assert_eq!(bounty.name(), "GenesisBountyContract");
    assert_eq!(bounty.version(), 1);
    assert!(!bounty.is_upgradeable());
    let governance = loader.load_native(b"native:governance_v1").ok().expect("governance loads");
    assert_eq!(governance.id(), governance_contract_id());
    assert_eq!(governance.name(), "GovernanceContract");
    assert!(governance.is_upgradeable());
    for payload in [&b"native:unknown_v9"[..], b" native:governance_v1 ", b"native:other", b""] {
        assert!(matches!(
            loader.load_native(payload),
            Err(ContractError::ExecutionFailed(m)) if m == "Unknown contract format"
        ));
        assert!(matches!(
            loader.load(genesis_bounty_contract_id(), payload),
            Err(ContractError::ExecutionFailed(m)) if m == "Unknown contract format"
        ));
    }
    let through = loader.load(governance_contract_id(), b"native:genesis_bounty_v1").ok().expect("loads");
    assert_eq!(through.id(), genesis_bounty_contract_id());
}

#[test]
fn universal_loader_without_a_backend_refuses_bytecode() {
    let loader = UniversalLoader::new();
    let id = hash_data(b"some id");
    assert!(matches!(loader.load_contract(id, &WASM), Err(ContractError::ExecutionFailed(_))));
    assert!(matches!(loader.load_contract(id, b"garbage"), Err(ContractError::ExecutionFailed(_))));
    assert!(matches!(
        loader.load_contract(id, b"native:other"),
        Err(ContractError::ExecutionFailed(m)) if m == "Unknown contract format"
    ));
    let governance = loader.load_contract(id, b"native:governance_v1").ok().expect("loads");
    assert_eq!(governance.id(), governance_contract_id());
    let bounty = loader.load(id, b"native:genesis_bounty_v1").ok().expect("loads");
    assert_eq!(bounty.id(), genesis_bounty_contract_id());
}

#[test]
fn universal_loader_hands_bytecode_to_its_backend() {
    let loader = UniversalLoader::with_sandbox(Box::new(InertBackend));
    let id = hash_data(b"some id");
    let loaded = loader.load_contract(id, &WASM).ok().expect("the backend loads it");
    assert_eq!(loaded.id(), id);
    assert_eq!(loaded.version(), 7);
    // native markers and unknown payloads never reach the backend
    let governance = loader.load_contract(id, b"native:governance_v1").ok().expect("loads");
    assert_eq!(governance.id(), governance_contract_id());
    assert!(matches!(loader.load_contract(id, b"garbage"), Err(ContractError::ExecutionFailed(_))));
}

#[test]
fn deployment_id_is_the_digest_of_code_and_deployer() {
    let deployer = Address::from_bytes([9; 20]);
    let mut joined = b"some code".to_vec();
    joined.extend_from_slice(&[9; 20]);
    assert_eq!(derive_contract_id(b"some code", &deployer), hash_data(&joined));
    assert_ne!(
        derive_contract_id(b"some code", &deployer),
        derive_contract_id(b"some code", &Address::from_bytes([8; 20]))
    );
}

#[test]
fn processor_deploys_through_its_loader() {
    let mut processor =
        TransactionProcessor::with_loader(1_000, ContractRegistry::new(), Box::new(InertBackend));
    let deployer = Address::from_bytes([9; 20]);
    let mut accounts = Ledger::new();
    let mut storage = ContractStorage::new();
    let deploy = TransactionKind::Deploy {
        code: b"anything".to_vec(),
        init_data: Vec::new(),
        deployer,
    };
    let result = processor
        .process_transaction(&deploy, &mut accounts, &mut storage)
        .expect("deployment succeeds");
    assert_eq!(result.gas_used, 0);
    assert!(result.output.is_empty());
    assert_eq!(result.new_state_root, hardclaw::contracts::root::ledger_state_root(&accounts));
    let id = derive_contract_id(b"anything", &deployer);
    assert!(processor.registry().contains(&id));
    assert_eq!(processor.registry().contract_count(), 1);
}

#[test]
fn sandboxed_runs_become_results_or_failures() {
    let mut accounts = Ledger::new();
    accounts.insert(Address::from_bytes([1; 20]), AccountState::new(HclawAmount::from_hclaw(5)));
    let root = hardclaw::contracts::root::ledger_state_root(&accounts);
    let state = ContractState::new(accounts, ContractStorage::new());

    let result = sandboxed_outcome(&state, SandboxRun::Returned).expect("a run that returned");
    assert_eq!(result.new_state_root, root);
    assert_eq!(result.gas_used, WASM_GAS);
    assert_eq!(WASM_GAS, 1000);
    assert!(result.events.is_empty());
    assert!(result.output.is_empty());

    assert!(matches!(
        sandboxed_outcome(&state, SandboxRun::CompilationFailed("bad magic".to_string())),
        Err(ContractError::ExecutionFailed(m)) if m == "WASM compilation failed: bad magic"
    ));
    assert!(matches!(
        sandboxed_outcome(&state, SandboxRun::InstantiationFailed("no memory".to_string())),
        Err(ContractError::ExecutionFailed(m)) if m == "WASM instantiation failed: no memory"
    ));
    assert!(matches!(
        sandboxed_outcome(&state, SandboxRun::MissingEntryPoint),
        Err(ContractError::ExecutionFailed(m)) if m == "Missing 'execute' export"
    ));
    assert!(matches!(
        sandboxed_outcome(&state, SandboxRun::Trapped("unreachable".to_string())),
        Err(ContractError::ExecutionFailed(m)) if m == "WASM runtime error: unreachable"
    ));
}
