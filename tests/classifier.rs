use move_core_types::account_address::AccountAddress;
use move_core_types::identifier::Identifier;
use move_core_types::language_storage::ModuleId;
use move_core_types::vm_status::StatusCode;
use sui_types::execution::{classify, is_vm_contract_breach, ExecutionError};
use sui_types::messages::{ExecutionFailureStatus, VmLocation};
use sui_types::status::{status_type, StatusType, ABORTED, EXECUTED, OUT_OF_GAS};

fn module(name: &str) -> ModuleId {
    ModuleId::new(AccountAddress::ZERO, Identifier::new(name).unwrap())
}

#[test]
fn status_codes_match_the_vm() {
    assert_eq!(StatusCode::EXECUTED as u64, EXECUTED);
    assert_eq!(StatusCode::ABORTED as u64, ABORTED);
    assert_eq!(StatusCode::OUT_OF_GAS as u64, OUT_OF_GAS);
}

#[test]
fn status_type_ranges() {
    assert_eq!(status_type(0), StatusType::Validation);
    assert_eq!(status_type(999), StatusType::Validation);
    assert_eq!(status_type(1000), StatusType::Verification);
    assert_eq!(status_type(2006), StatusType::InvariantViolation);
    assert_eq!(status_type(3999), StatusType::Deserialization);
    assert_eq!(status_type(4016), StatusType::Execution);
    assert_eq!(status_type(5000), StatusType::Unknown);
    assert_eq!(status_type(u64::MAX), StatusType::Unknown);
}

#[test]
fn out_of_gas_in_module_is_insufficient_gas() {
    let r = classify(OUT_OF_GAS, None, VmLocation::Module(module("m")));
    assert_eq!(r, ExecutionFailureStatus::InsufficientGas);
}

#[test]
fn out_of_gas_dominates_script_location() {
    let r = classify(OUT_OF_GAS, Some(9), VmLocation::Script);
    assert_eq!(r, ExecutionFailureStatus::InsufficientGas);
}

#[test]
fn abort_in_module_keeps_module_and_code() {
    let r = classify(ABORTED, Some(7), VmLocation::Module(module("m")));
    assert_eq!(r, ExecutionFailureStatus::MoveAbort(module("m"), 7));
}

#[test]
fn abort_without_code_is_invariant_violation() {
    let r = classify(ABORTED, None, VmLocation::Module(module("m")));
    assert_eq!(r, ExecutionFailureStatus::VMInvariantViolation);
}

#[test]
fn abort_in_script_is_invariant_violation() {
    let r = classify(ABORTED, Some(3), VmLocation::Script);
    assert_eq!(r, ExecutionFailureStatus::VMInvariantViolation);
}

#[test]
fn abort_at_undefined_location_goes_by_category() {
    let r = classify(ABORTED, Some(3), VmLocation::Undefined);
    assert_eq!(r, ExecutionFailureStatus::MovePrimitiveRuntimeError);
}

#[test]
fn executed_is_invariant_violation() {
    assert_eq!(
        classify(EXECUTED, None, VmLocation::Undefined),
        ExecutionFailureStatus::VMInvariantViolation
    );
    assert_eq!(
        classify(EXECUTED, Some(1), VmLocation::Module(module("m"))),
        ExecutionFailureStatus::VMInvariantViolation
    );
}

#[test]
fn verification_category_is_verification_error() {
    let code = StatusCode::UNKNOWN_VERIFICATION_ERROR as u64;
    let r = classify(code, None, VmLocation::Module(module("m")));
    assert_eq!(r, ExecutionFailureStatus::VMVerificationOrDeserializationError);
}

#[test]
fn verification_error_code_lies_in_invariant_range() {
    let code = StatusCode::VERIFICATION_ERROR as u64;
    let r = classify(code, None, VmLocation::Module(module("m")));
    assert_eq!(r, ExecutionFailureStatus::VMInvariantViolation);
}

#[test]
fn other_categories() {
    let arith = StatusCode::ARITHMETIC_ERROR as u64;
    assert_eq!(
        classify(arith, None, VmLocation::Undefined),
        ExecutionFailureStatus::MovePrimitiveRuntimeError
    );
    assert_eq!(
        classify(0, None, VmLocation::Undefined),
        ExecutionFailureStatus::VMVerificationOrDeserializationError
    );
    assert_eq!(
        classify(3000, None, VmLocation::Undefined),
        ExecutionFailureStatus::VMVerificationOrDeserializationError
    );
    assert_eq!(
        classify(u64::MAX, None, VmLocation::Undefined),
        ExecutionFailureStatus::VMVerificationOrDeserializationError
    );
    assert_eq!(
        classify(2000, None, VmLocation::Undefined),
        ExecutionFailureStatus::VMInvariantViolation
    );
}

#[test]
fn from_kind_has_kind_and_no_source() {
    let e = ExecutionError::from_kind(ExecutionFailureStatus::InsufficientGas);
    assert_eq!(e.kind(), &ExecutionFailureStatus::InsufficientGas);
    assert!(e.source().is_none());
    assert_eq!(e.to_execution_status(), ExecutionFailureStatus::InsufficientGas);
}

#[test]
fn new_with_source_keeps_cause() {
    let e = ExecutionError::new_with_source(
        ExecutionFailureStatus::MoveAbort(module("m"), 2),
        "disk on fire".to_string(),
    );
    assert_eq!(e.kind(), &ExecutionFailureStatus::MoveAbort(module("m"), 2));
    assert_eq!(e.source().unwrap(), "disk on fire");
}

#[test]
fn new_without_source() {
    let e = ExecutionError::new(ExecutionFailureStatus::ModuleNotFound, None);
    assert_eq!(e.kind(), &ExecutionFailureStatus::ModuleNotFound);
    assert!(e.source().is_none());
}

#[test]
fn from_conversion_is_from_kind() {
    let e: ExecutionError = ExecutionFailureStatus::FunctionNotFound.into();
    assert_eq!(e.kind(), &ExecutionFailureStatus::FunctionNotFound);
    assert!(e.source().is_none());
}

#[test]
fn vm_error_is_classified_and_keeps_message() {
    let e = ExecutionError::from_vm_error(
        ABORTED,
        Some(7),
        VmLocation::Module(module("m")),
        "aborted in m".to_string(),
    );
    assert_eq!(e.kind(), &ExecutionFailureStatus::MoveAbort(module("m"), 7));
    assert_eq!(e.source().unwrap(), "aborted in m");
}

#[test]
fn duplicate_is_equal() {
    let k = ExecutionFailureStatus::MoveAbort(module("coin"), 42);
    assert_eq!(k.duplicate(), k);
}

#[test]
fn contract_breaches_are_flagged() {
    assert!(is_vm_contract_breach(EXECUTED, None, &VmLocation::Undefined));
    assert!(is_vm_contract_breach(ABORTED, None, &VmLocation::Module(module("m"))));
    assert!(is_vm_contract_breach(ABORTED, Some(3), &VmLocation::Script));
    assert!(!is_vm_contract_breach(ABORTED, Some(7), &VmLocation::Module(module("m"))));
    assert!(!is_vm_contract_breach(ABORTED, Some(7), &VmLocation::Undefined));
    assert!(!is_vm_contract_breach(OUT_OF_GAS, None, &VmLocation::Script));
}
