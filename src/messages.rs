use move_core_types::language_storage::ModuleId;
use vstd::prelude::*;

verus! {

/// A module of the virtual machine, carried through as the outside crate gives it.
#[verifier::external_type_specification]
#[verifier::external_body]
pub struct ExModuleId(ModuleId);

/// Relies on the derived `Clone` of `move_core_types::language_storage::ModuleId`:
/// a module id is a plain value (an address and a name), so its clone is equal to it.
pub assume_specification[ <ModuleId as Clone>::clone ](m: &ModuleId) -> (r: ModuleId)
    ensures
        r == *m,
;

/// Where in the virtual machine a status was raised.
#[derive(Clone, Debug, PartialEq, Eq, Hash)]
pub enum VmLocation {
    Undefined,
    Script,
    Module(ModuleId),
}

/// Classified outcome of a failed transaction execution.
#[derive(Clone, Debug, PartialEq, Eq, Hash)]
pub enum ExecutionFailureStatus {
    InsufficientGas,
    InvalidGasObject,
    InvalidTransactionUpdate,
    ModuleNotFound,
    FunctionNotFound,
    InvariantViolation,
    MoveAbort(ModuleId, u64),
    MovePrimitiveRuntimeError,
    VMVerificationOrDeserializationError,
    VMInvariantViolation,
}

impl ExecutionFailureStatus {
    /// A copy of this status, equal to it.
    pub fn duplicate(&self) -> (r: ExecutionFailureStatus)
        ensures
            r == *self,
    {
        match self {
            ExecutionFailureStatus::InsufficientGas => ExecutionFailureStatus::InsufficientGas,
            ExecutionFailureStatus::InvalidGasObject => ExecutionFailureStatus::InvalidGasObject,
            ExecutionFailureStatus::InvalidTransactionUpdate => {
                ExecutionFailureStatus::InvalidTransactionUpdate
            },
            ExecutionFailureStatus::ModuleNotFound => ExecutionFailureStatus::ModuleNotFound,
            ExecutionFailureStatus::FunctionNotFound => ExecutionFailureStatus::FunctionNotFound,
            ExecutionFailureStatus::InvariantViolation => {
                ExecutionFailureStatus::InvariantViolation
            },
            ExecutionFailureStatus::MoveAbort(id, code) => {
                ExecutionFailureStatus::MoveAbort(id.clone(), *code)
            },
            ExecutionFailureStatus::MovePrimitiveRuntimeError => {
                ExecutionFailureStatus::MovePrimitiveRuntimeError
            },
            ExecutionFailureStatus::VMVerificationOrDeserializationError => {
                ExecutionFailureStatus::VMVerificationOrDeserializationError
            },
            ExecutionFailureStatus::VMInvariantViolation => {
                ExecutionFailureStatus::VMInvariantViolation
            },
        }
    }
}

} // verus!
