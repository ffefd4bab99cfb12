//! Sandboxed WebAssembly contracts: what the engine fixes about a sandboxed
//! run, whatever runtime performs it.
//!
//! Compiling and running bytecode is the work of a WebAssembly runtime
//! outside this library. The runtime reports how a run ended; this module
//! turns the report into the result or the error that the engine works with.

use vstd::prelude::*;
use vstd::string::*;

use super::root::state_root_of;
use super::state::ContractState;
use super::{is_failure, ContractError, ContractResult, ExecutionResult, ExecutionResultView};

verus! {

/// Gas charged for every sandboxed run
pub const WASM_GAS: u64 = 1000;

/// The export that a sandboxed contract is entered through
pub const WASM_ENTRY_POINT: &'static str = "execute";

/// What a contract whose bytecode does not compile is told, before the detail
pub const COMPILATION_FAILED: &'static str = "WASM compilation failed: ";

/// What a contract that cannot be instantiated is told, before the detail
pub const INSTANTIATION_FAILED: &'static str = "WASM instantiation failed: ";

/// What a contract without the entry point is told
pub const MISSING_ENTRY_POINT: &'static str = "Missing 'execute' export";

/// What a contract that fails while it runs is told, before the detail
pub const RUNTIME_ERROR: &'static str = "WASM runtime error: ";

/// How a sandboxed run ended.
#[derive(Debug)]
pub enum SandboxRun {
    /// The entry point returned
    Returned,
    /// The bytecode did not compile
    CompilationFailed(String),
    /// The module could not be instantiated
    InstantiationFailed(String),
    /// The module exports no entry point
    MissingEntryPoint,
    /// The entry point failed while it ran
    Trapped(String),
}

/// The message of the failure that a run stands for, if it stands for one.
pub open spec fn failure_of(run: SandboxRun) -> Option<Seq<char>> {
    match run {
        SandboxRun::Returned => None,
        SandboxRun::CompilationFailed(detail) => Some(COMPILATION_FAILED@ + detail@),
        SandboxRun::InstantiationFailed(detail) => Some(INSTANTIATION_FAILED@ + detail@),
        SandboxRun::MissingEntryPoint => Some(MISSING_ENTRY_POINT@),
        SandboxRun::Trapped(detail) => Some(RUNTIME_ERROR@ + detail@),
    }
}

/// The outcome of a sandboxed execution, given how the run ended.
///
/// A run that returned yields the root of the accessor's ledger, the flat
/// gas charge, and neither events nor output. Any other run is a failed
/// execution with its message.
pub fn sandboxed_outcome(state: &ContractState, run: SandboxRun) -> (r: ContractResult<
    ExecutionResult,
>)
    ensures
        match failure_of(run) {
            Some(message) => is_failure(r, message),
            None => r is Ok && r->Ok_0@ == (ExecutionResultView {
                new_state_root: state_root_of(state.journal().accounts),
                gas_used: WASM_GAS,
                events: Seq::empty(),
                output: Seq::empty(),
            }),
        },
{
    match run {
        SandboxRun::Returned => {
            let result = ExecutionResult {
                new_state_root: state.compute_state_root(),
                gas_used: WASM_GAS,
                events: Vec::new(),
                output: Vec::new(),
            };
            assert(result@.events =~= Seq::empty());
            Ok(result)
        },
        SandboxRun::CompilationFailed(detail) => Err(
            ContractError::ExecutionFailed(
                String::from_str(COMPILATION_FAILED).concat(detail.as_str()),
            ),
        ),
        SandboxRun::InstantiationFailed(detail) => Err(
            ContractError::ExecutionFailed(
                String::from_str(INSTANTIATION_FAILED).concat(detail.as_str()),
            ),
        ),
        SandboxRun::MissingEntryPoint => Err(
            ContractError::ExecutionFailed(String::from_str(MISSING_ENTRY_POINT)),
        ),
        SandboxRun::Trapped(detail) => Err(
            ContractError::ExecutionFailed(String::from_str(RUNTIME_ERROR).concat(detail.as_str())),
        ),
    }
}

} // verus!
